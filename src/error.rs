use vstd::prelude::*;

verus! {

/// The closed set of failures a listener reports.
#[derive(Debug, PartialEq, Eq)]
pub enum SelectionError {
    /// Platform setup failed: a missing permission, a subscription that could
    /// not be made.
    InitializationFailure(String),
    /// A capture or a teardown failed.
    MonitoringError(String),
    /// The operation has no meaning on this platform or build.
    UnsupportedAction,
}

} // verus!
