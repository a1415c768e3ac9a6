use vstd::prelude::*;

verus! {

/// The slot holding the last observed selection: absent until the first
/// successful capture.
pub struct SelectionState {
    text: Option<String>,
}

impl View for SelectionState {
    type V = Option<Seq<char>>;

    closed spec fn view(&self) -> Option<Seq<char>> {
        match self.text {
            Some(t) => Some(t@),
            None => None,
        }
    }
}

impl SelectionState {
    /// An empty slot.
    pub fn new() -> (r: SelectionState)
        ensures
            r@ == None::<Seq<char>>,
    {
        SelectionState { text: None }
    }

    /// Replaces the held text with `text`.
    pub fn write(&mut self, text: String)
        ensures
            final(self)@ == Some(text@),
    {
        self.text = Some(text);
    }

    /// Empties the slot.
    pub fn clear(&mut self)
        ensures
            final(self)@ == None::<Seq<char>>,
    {
        self.text = None;
    }

    /// A copy of the held text, if any.
    pub fn snapshot(&self) -> (r: Option<String>)
        ensures
            r matches Some(t) ==> self@ == Some(t@),
            r is None ==> self@ == None::<Seq<char>>,
    {
        match &self.text {
            Some(t) => Some(t.clone()),
            None => None,
        }
    }
}

} // verus!
