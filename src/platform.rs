use vstd::prelude::*;

use crate::error::SelectionError;
use crate::lifecycle::{
    fresh, needs_provision, opt_view, record_step, start_step, stop_step, ListenerCore, ListenerModel, Phase,
};
use crate::linux::LinuxSelectionListener;
use crate::macos::MacOSListener;
use crate::windows::WindowsListener;

verus! {

/// The operations every platform listener offers, with one behaviour.
pub trait SelectionListener {
    /// The abstract state of this listener.
    spec fn model(&self) -> ListenerModel;

    /// Commits a start request; `setup` is the outcome of provisioning the
    /// capture mechanism.
    fn start(&mut self, setup: Result<(), SelectionError>) -> (r: Result<(), SelectionError>)
        ensures
            (final(self).model(), r) == start_step(old(self).model(), setup),
    ;

    /// Commits a stop request. Never fails, and is safe without a start.
    fn stop(&mut self) -> (r: Result<(), SelectionError>)
        ensures
            final(self).model() == stop_step(old(self).model()),
            r is Ok,
    ;

    /// The last captured text.
    fn get_selection(&self) -> (r: Option<String>)
        ensures
            opt_view(r) == self.model().selection,
    ;

    /// Takes in what the capture mechanism observed.
    fn record(&mut self, observed: Option<String>)
        ensures
            final(self).model() == record_step(old(self).model(), opt_view(observed)),
    ;

    /// Whether a capture mechanism is active.
    fn is_running(&self) -> (r: bool)
        ensures
            r == (self.model().phase == Phase::Running),
    ;

    /// Whether a start request needs the capture mechanism provisioned
    /// first: it can start here and is not running.
    fn needs_provision(&self) -> (r: bool)
        ensures
            r == needs_provision(self.model()),
    ;
}

impl SelectionListener for ListenerCore {
    closed spec fn model(&self) -> ListenerModel {
        self@
    }

    fn start(&mut self, setup: Result<(), SelectionError>) -> (r: Result<(), SelectionError>) {
        ListenerCore::start(self, setup)
    }

    fn stop(&mut self) -> (r: Result<(), SelectionError>) {
        ListenerCore::stop(self)
    }

    fn get_selection(&self) -> (r: Option<String>) {
        ListenerCore::get_selection(self)
    }

    fn record(&mut self, observed: Option<String>) {
        ListenerCore::record(self, observed)
    }

    fn is_running(&self) -> (r: bool) {
        ListenerCore::is_running(self)
    }

    fn needs_provision(&self) -> (r: bool) {
        ListenerCore::needs_provision(self)
    }
}

/// The target a listener is made for, as chosen when the program is built.
#[derive(Debug, Clone, Copy, PartialEq, Eq, Structural)]
pub enum Platform {
    MacOS,
    Windows,
    Linux,
    /// A target with no capture mechanism.
    Unsupported,
}

/// A listener of one of the platforms.
pub enum PlatformListener {
    MacOS(MacOSListener),
    Windows(WindowsListener),
    Linux(LinuxSelectionListener),
    /// Refuses every start request.
    Unsupported(ListenerCore),
}

impl PlatformListener {
    /// The platform this listener was made for.
    pub open spec fn platform(&self) -> Platform {
        match self {
            PlatformListener::MacOS(_) => Platform::MacOS,
            PlatformListener::Windows(_) => Platform::Windows,
            PlatformListener::Linux(_) => Platform::Linux,
            PlatformListener::Unsupported(_) => Platform::Unsupported,
        }
    }
}

impl SelectionListener for PlatformListener {
    open spec fn model(&self) -> ListenerModel {
        match self {
            PlatformListener::MacOS(l) => l.model(),
            PlatformListener::Windows(l) => l.model(),
            PlatformListener::Linux(l) => l.model(),
            PlatformListener::Unsupported(l) => l.model(),
        }
    }

    fn start(&mut self, setup: Result<(), SelectionError>) -> (r: Result<(), SelectionError>) {
        match self {
            PlatformListener::MacOS(l) => l.start(setup),
            PlatformListener::Windows(l) => l.start(setup),
            PlatformListener::Linux(l) => l.start(setup),
            PlatformListener::Unsupported(l) => l.start(setup),
        }
    }

    fn stop(&mut self) -> (r: Result<(), SelectionError>) {
        match self {
            PlatformListener::MacOS(l) => l.stop(),
            PlatformListener::Windows(l) => l.stop(),
            PlatformListener::Linux(l) => l.stop(),
            PlatformListener::Unsupported(l) => l.stop(),
        }
    }

    fn get_selection(&self) -> (r: Option<String>) {
        match self {
            PlatformListener::MacOS(l) => l.get_selection(),
            PlatformListener::Windows(l) => l.get_selection(),
            PlatformListener::Linux(l) => l.get_selection(),
            PlatformListener::Unsupported(l) => l.get_selection(),
        }
    }

    fn record(&mut self, observed: Option<String>) {
        match self {
            PlatformListener::MacOS(l) => l.record(observed),
            PlatformListener::Windows(l) => l.record(observed),
            PlatformListener::Linux(l) => l.record(observed),
            PlatformListener::Unsupported(l) => l.record(observed),
        }
    }

    fn is_running(&self) -> (r: bool) {
        match self {
            PlatformListener::MacOS(l) => l.is_running(),
            PlatformListener::Windows(l) => l.is_running(),
            PlatformListener::Linux(l) => l.is_running(),
            PlatformListener::Unsupported(l) => l.is_running(),
        }
    }

    fn needs_provision(&self) -> (r: bool) {
        match self {
            PlatformListener::MacOS(l) => l.needs_provision(),
            PlatformListener::Windows(l) => l.needs_provision(),
            PlatformListener::Linux(l) => l.needs_provision(),
            PlatformListener::Unsupported(l) => l.needs_provision(),
        }
    }
}

/// A listener for `platform` that has not started.
pub fn create_listener(platform: Platform) -> (r: PlatformListener)
    ensures
        r.platform() == platform,
        r.model() == fresh(platform != Platform::Unsupported),
{
    match platform {
        Platform::MacOS => PlatformListener::MacOS(MacOSListener::new()),
        Platform::Windows => PlatformListener::Windows(WindowsListener::new()),
        Platform::Linux => PlatformListener::Linux(LinuxSelectionListener::new()),
        Platform::Unsupported => PlatformListener::Unsupported(ListenerCore::new(false)),
    }
}

} // verus!
