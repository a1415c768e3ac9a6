use vstd::prelude::*;

use crate::error::SelectionError;
use crate::lifecycle::{
    fresh, provision_result, setup_of, start_step, stop_step, ListenerCore, ListenerModel,
};
use crate::platform::SelectionListener;

verus! {

/// The Windows listener. A UI Automation engine, created on and owned by the
/// observer's own thread, reports selection changes through `record`; a stop
/// request tells that thread to release the engine and leave.
pub struct WindowsListener {
    core: ListenerCore,
}

impl WindowsListener {
    pub fn new() -> (r: WindowsListener)
        ensures
            r.model() == fresh(true),
    {
        WindowsListener { core: ListenerCore::new(true) }
    }

    /// Commits a start request; `engine` is the outcome of creating the
    /// automation engine and subscribing to selection changes, and a failure
    /// there is a failure to initialise.
    pub fn start_impl(&mut self, engine: Result<(), String>) -> (r: Result<(), SelectionError>)
        ensures
            (final(self).model(), r) == start_step(old(self).model(), setup_of(engine)),
    {
        let setup = provision_result(engine);
        self.core.start(setup)
    }

    /// Asks the observer's thread to leave. It does not wait for it.
    pub fn stop_impl(&mut self)
        ensures
            final(self).model() == stop_step(old(self).model()),
    {
        let _ = self.core.stop();
    }
}

impl SelectionListener for WindowsListener {
    closed spec fn model(&self) -> ListenerModel {
        self.core@
    }

    fn start(&mut self, setup: Result<(), SelectionError>) -> (r: Result<(), SelectionError>) {
        self.core.start(setup)
    }

    fn stop(&mut self) -> (r: Result<(), SelectionError>) {
        self.stop_impl();
        Ok(())
    }

    fn get_selection(&self) -> (r: Option<String>) {
        self.core.get_selection()
    }

    fn record(&mut self, observed: Option<String>) {
        self.core.record(observed)
    }

    fn is_running(&self) -> (r: bool) {
        self.core.is_running()
    }

    fn needs_provision(&self) -> (r: bool) {
        self.core.needs_provision()
    }
}

} // verus!
