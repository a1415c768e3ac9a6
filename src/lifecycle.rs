use vstd::prelude::*;

use crate::error::SelectionError;
use crate::state::SelectionState;

verus! {

/// Where a listener is in its lifecycle.
#[derive(Debug, Clone, Copy, PartialEq, Eq, Structural)]
pub enum Phase {
    /// Created, never started.
    Idle,
    /// A capture mechanism is active.
    Running,
    /// Started once, then stopped.
    Stopped,
}

/// The abstract state of a listener.
pub ghost struct ListenerModel {
    /// Whether the listener can start at all on this platform or build.
    pub supported: bool,
    pub phase: Phase,
    /// The last captured text, if any.
    pub selection: Option<Seq<char>>,
}

/// The state of a listener that was just created.
pub open spec fn fresh(supported: bool) -> ListenerModel {
    ListenerModel { supported, phase: Phase::Idle, selection: None }
}

/// A start request, given the outcome `setup` of provisioning the capture
/// mechanism. A running listener stays as it is and succeeds: nothing is
/// registered twice. A successful start empties the slot, so that a later
/// query sees only what was captured since.
pub open spec fn start_step(m: ListenerModel, setup: Result<(), SelectionError>) -> (
    ListenerModel,
    Result<(), SelectionError>,
) {
    if !m.supported {
        (m, Err(SelectionError::UnsupportedAction))
    } else if m.phase == Phase::Running {
        (m, Ok(()))
    } else {
        match setup {
            Ok(()) => (ListenerModel { phase: Phase::Running, selection: None, ..m }, Ok(())),
            Err(e) => (m, Err(e)),
        }
    }
}

/// A stop request: a running listener becomes stopped, any other stays as it
/// is. The last captured text is kept.
pub open spec fn stop_step(m: ListenerModel) -> ListenerModel {
    if m.phase == Phase::Running {
        ListenerModel { phase: Phase::Stopped, ..m }
    } else {
        m
    }
}

/// A report from the capture mechanism. Text is written only while the
/// listener runs; a failed capture (`None`) leaves the slot unchanged.
pub open spec fn record_step(m: ListenerModel, observed: Option<Seq<char>>) -> ListenerModel {
    match observed {
        Some(t) => if m.phase == Phase::Running {
            ListenerModel { selection: Some(t), ..m }
        } else {
            m
        },
        None => m,
    }
}

/// What a caller must do to carry out a start request.
#[derive(Debug)]
pub enum StartPlan {
    /// Nothing to provision: the listener runs already, or cannot start here.
    Skip,
    /// Provision the capture mechanism, then commit its outcome with `start`.
    Provision,
    /// Provision nothing, and commit this failure with `start`.
    Refuse(SelectionError),
}

/// Whether a start request needs the capture mechanism provisioned.
pub open spec fn needs_provision(m: ListenerModel) -> bool {
    m.supported && m.phase != Phase::Running
}

/// The view of an optional string.
pub open spec fn opt_view(s: Option<String>) -> Option<Seq<char>> {
    match s {
        Some(t) => Some(t@),
        None => None,
    }
}

/// The setup outcome of a capture mechanism whose provisioning reported
/// `outcome`: a failure to provision is a failure to initialise.
pub open spec fn setup_of(outcome: Result<(), String>) -> Result<(), SelectionError> {
    match outcome {
        Ok(()) => Ok(()),
        Err(m) => Err(SelectionError::InitializationFailure(m)),
    }
}

/// Turns the outcome of provisioning into the setup outcome of a start.
pub fn provision_result(outcome: Result<(), String>) -> (r: Result<(), SelectionError>)
    ensures
        r == setup_of(outcome),
{
    match outcome {
        Ok(()) => Ok(()),
        Err(m) => Err(SelectionError::InitializationFailure(m)),
    }
}

/// Lifecycle and captured text of one listener, common to every platform.
pub struct ListenerCore {
    supported: bool,
    phase: Phase,
    state: SelectionState,
}

impl View for ListenerCore {
    type V = ListenerModel;

    closed spec fn view(&self) -> ListenerModel {
        ListenerModel { supported: self.supported, phase: self.phase, selection: self.state@ }
    }
}

impl ListenerCore {
    /// A listener that has not started, with nothing captured.
    pub fn new(supported: bool) -> (r: ListenerCore)
        ensures
            r@ == fresh(supported),
    {
        ListenerCore { supported, phase: Phase::Idle, state: SelectionState::new() }
    }

    pub fn phase(&self) -> (r: Phase)
        ensures
            r == self@.phase,
    {
        self.phase
    }

    pub fn is_running(&self) -> (r: bool)
        ensures
            r == (self@.phase == Phase::Running),
    {
        self.phase == Phase::Running
    }

    /// Whether the capture mechanism must be provisioned before `start`.
    pub fn needs_provision(&self) -> (r: bool)
        ensures
            r == needs_provision(self@),
    {
        self.supported && self.phase != Phase::Running
    }

    /// Commits a start request; `setup` is the outcome of provisioning, which
    /// is looked at only where `needs_provision` holds.
    pub fn start(&mut self, setup: Result<(), SelectionError>) -> (r: Result<(), SelectionError>)
        ensures
            (final(self)@, r) == start_step(old(self)@, setup),
    {
        if !self.supported {
            Err(SelectionError::UnsupportedAction)
        } else if self.phase == Phase::Running {
            Ok(())
        } else {
            match setup {
                Ok(()) => {
                    self.phase = Phase::Running;
                    self.state.clear();
                    Ok(())
                },
                Err(e) => Err(e),
            }
        }
    }

    /// Commits a stop request. Never fails.
    pub fn stop(&mut self) -> (r: Result<(), SelectionError>)
        ensures
            final(self)@ == stop_step(old(self)@),
            r is Ok,
    {
        if self.phase == Phase::Running {
            self.phase = Phase::Stopped;
        }
        Ok(())
    }

    /// Takes in what the capture mechanism observed.
    pub fn record(&mut self, observed: Option<String>)
        ensures
            final(self)@ == record_step(old(self)@, opt_view(observed)),
    {
        if self.phase == Phase::Running {
            if let Some(text) = observed {
                self.state.write(text);
            }
        }
    }

    /// The last captured text.
    pub fn get_selection(&self) -> (r: Option<String>)
        ensures
            opt_view(r) == self@.selection,
    {
        self.state.snapshot()
    }
}

} // verus!
