use vstd::prelude::*;

use crate::error::SelectionError;
use crate::lifecycle::{fresh, needs_provision, ListenerCore, ListenerModel, StartPlan};
use crate::platform::SelectionListener;

verus! {

/// The message of a start refused for want of accessibility trust.
pub open spec fn permission_message() -> Seq<char> {
    "Accessibility permissions required"@
}

/// The macOS listener. An input event tap on the observer's own run loop
/// queries the focused element's selected text after each selection gesture
/// and reports it through `record`. Starting needs accessibility trust.
pub struct MacOSListener {
    core: ListenerCore,
}

impl MacOSListener {
    pub fn new() -> (r: MacOSListener)
        ensures
            r.model() == fresh(true),
    {
        MacOSListener { core: ListenerCore::new(true) }
    }

    /// Succeeds exactly when the process holds accessibility trust.
    pub fn check_accessibility_permissions(trusted: bool) -> (r: Result<(), String>)
        ensures
            r is Ok <==> trusted,
            r matches Err(m) ==> m@ == permission_message(),
    {
        if trusted {
            Ok(())
        } else {
            Err("Accessibility permissions required".to_string())
        }
    }

    /// What a start request calls for, given whether the process holds
    /// accessibility trust: a running listener needs nothing, and without
    /// trust no event tap is registered.
    pub fn plan_start(&self, trusted: bool) -> (r: StartPlan)
        ensures
            !needs_provision(self.model()) ==> r is Skip,
            needs_provision(self.model()) && trusted ==> r is Provision,
            needs_provision(self.model()) && !trusted ==> (r matches StartPlan::Refuse(
                SelectionError::InitializationFailure(m),
            ) && m@ == permission_message()),
    {
        if !self.core.needs_provision() {
            StartPlan::Skip
        } else {
            match Self::check_accessibility_permissions(trusted) {
                Ok(()) => StartPlan::Provision,
                Err(m) => StartPlan::Refuse(SelectionError::InitializationFailure(m)),
            }
        }
    }
}

impl SelectionListener for MacOSListener {
    closed spec fn model(&self) -> ListenerModel {
        self.core@
    }

    fn start(&mut self, setup: Result<(), SelectionError>) -> (r: Result<(), SelectionError>) {
        self.core.start(setup)
    }

    fn stop(&mut self) -> (r: Result<(), SelectionError>) {
        self.core.stop()
    }

    fn get_selection(&self) -> (r: Option<String>) {
        self.core.get_selection()
    }

    fn record(&mut self, observed: Option<String>) {
        self.core.record(observed)
    }

    fn is_running(&self) -> (r: bool) {
        self.core.is_running()
    }

    fn needs_provision(&self) -> (r: bool) {
        self.core.needs_provision()
    }
}

} // verus!
