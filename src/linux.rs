use vstd::prelude::*;

use crate::error::SelectionError;
use crate::lifecycle::{
    fresh, opt_view, provision_result, setup_of, record_step, start_step, ListenerCore, ListenerModel, Phase,
};
use crate::platform::SelectionListener;

verus! {

/// A notification the X11 observer receives on its connection.
#[derive(Debug)]
pub enum X11Event {
    /// Another window became the owner of the selection.
    SelectionOwnerChanged,
    /// The answer to a request for the selection's value: its text, or
    /// `None` where the owner could not convert it.
    SelectionValue(Option<String>),
    /// Any other notification.
    Other,
}

/// What the X11 observer does next.
#[derive(Debug, Clone, Copy, PartialEq, Eq, Structural)]
pub enum X11Action {
    /// Ask the selection's owner for its value.
    RequestValue,
    /// Wait for the next notification.
    Wait,
}

/// The state after `event`, and the observer's next action.
pub open spec fn x11_step(m: ListenerModel, event: X11Event) -> (ListenerModel, X11Action) {
    match event {
        X11Event::SelectionOwnerChanged => if m.phase == Phase::Running {
            (m, X11Action::RequestValue)
        } else {
            (m, X11Action::Wait)
        },
        X11Event::SelectionValue(v) => (record_step(m, opt_view(v)), X11Action::Wait),
        X11Event::Other => (m, X11Action::Wait),
    }
}

/// The X11 listener. Its observer holds a connection to the window server,
/// receives property-change and selection notifications for its window, and
/// asks the selection's owner for the value on each change of owner.
pub struct LinuxSelectionListener {
    core: ListenerCore,
}

impl LinuxSelectionListener {
    pub fn new() -> (r: LinuxSelectionListener)
        ensures
            r.model() == fresh(true),
    {
        LinuxSelectionListener { core: ListenerCore::new(true) }
    }

    /// Commits a start request; `subscribed` is the outcome of connecting to
    /// the window server and asking for its notifications, and a failure
    /// there is a failure to initialise.
    pub fn start_listening(&mut self, subscribed: Result<(), String>) -> (r: Result<(), SelectionError>)
        ensures
            (final(self).model(), r) == start_step(old(self).model(), setup_of(subscribed)),
    {
        let setup = provision_result(subscribed);
        self.core.start(setup)
    }

    /// Takes in one notification and says what the observer does next.
    pub fn on_event(&mut self, event: X11Event) -> (r: X11Action)
        ensures
            (final(self).model(), r) == x11_step(old(self).model(), event),
    {
        match event {
            X11Event::SelectionOwnerChanged => if self.core.is_running() {
                X11Action::RequestValue
            } else {
                X11Action::Wait
            },
            X11Event::SelectionValue(v) => {
                self.core.record(v);
                X11Action::Wait
            },
            X11Event::Other => X11Action::Wait,
        }
    }
}

impl SelectionListener for LinuxSelectionListener {
    closed spec fn model(&self) -> ListenerModel {
        self.core@
    }

    fn start(&mut self, setup: Result<(), SelectionError>) -> (r: Result<(), SelectionError>) {
        self.core.start(setup)
    }

    fn stop(&mut self) -> (r: Result<(), SelectionError>) {
        self.core.stop()
    }

    fn get_selection(&self) -> (r: Option<String>) {
        self.core.get_selection()
    }

    fn record(&mut self, observed: Option<String>) {
        self.core.record(observed)
    }

    fn is_running(&self) -> (r: bool) {
        self.core.is_running()
    }

    fn needs_provision(&self) -> (r: bool) {
        self.core.needs_provision()
    }
}

} // verus!
