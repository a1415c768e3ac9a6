use vstd::prelude::*;

use crate::error::SelectionError;
use crate::lifecycle::{fresh, record_step, start_step, stop_step, ListenerModel, Phase};

verus! {

/// One request a listener receives, as its abstract effect.
pub ghost enum Request {
    /// A start request with the outcome of provisioning.
    Start(Result<(), SelectionError>),
    Stop,
    /// A report of the capture mechanism.
    Record(Option<Seq<char>>),
}

/// The state after request `q`.
pub open spec fn apply(m: ListenerModel, q: Request) -> ListenerModel {
    match q {
        Request::Start(setup) => start_step(m, setup).0,
        Request::Stop => stop_step(m),
        Request::Record(o) => record_step(m, o),
    }
}

/// The state after the requests `qs`, in order.
pub open spec fn run(m: ListenerModel, qs: Seq<Request>) -> ListenerModel
    decreases qs.len(),
{
    if qs.len() == 0 {
        m
    } else {
        apply(run(m, qs.drop_last()), qs.last())
    }
}

/// Whether one of the start requests in `qs`, made from `m`, succeeded.
pub open spec fn some_start_succeeded(m: ListenerModel, qs: Seq<Request>) -> bool {
    exists|i: int|
        0 <= i < qs.len() && (#[trigger] qs[i] matches Request::Start(setup)
            && start_step(run(m, qs.take(i)), setup).1 is Ok)
}

/// Until a start succeeds, a listener stays idle and holds no text.
pub proof fn lemma_nothing_before_start(supported: bool, qs: Seq<Request>)
    requires
        !some_start_succeeded(fresh(supported), qs),
    ensures
        run(fresh(supported), qs).phase == Phase::Idle,
        run(fresh(supported), qs).selection is None,
    decreases qs.len(),
{
    if qs.len() > 0 {
        let m0 = fresh(supported);
        let p = qs.drop_last();
        assert forall|i: int| 0 <= i < p.len() implies !(#[trigger] p[i] matches Request::Start(
            setup,
        ) && start_step(run(m0, p.take(i)), setup).1 is Ok) by {
            assert(p.take(i) =~= qs.take(i));
            assert(p[i] == qs[i]);
        }
        lemma_nothing_before_start(supported, p);
        assert(qs.take(qs.len() - 1) =~= p);
        assert(qs[qs.len() - 1] == qs.last());
    }
}

/// A stop request to a listener that never started changes nothing.
pub proof fn lemma_stop_without_start(m: ListenerModel)
    requires
        m.phase == Phase::Idle,
    ensures
        stop_step(m) == m,
{
}

/// A second stop request in a row changes nothing.
pub proof fn lemma_stop_twice(m: ListenerModel)
    ensures
        stop_step(stop_step(m)) == stop_step(m),
{
}

/// After a successful start, captured text is what the listener holds.
pub proof fn lemma_capture_after_start(
    m: ListenerModel,
    setup: Result<(), SelectionError>,
    text: Seq<char>,
)
    requires
        start_step(m, setup).1 is Ok,
    ensures
        start_step(m, setup).0.phase == Phase::Running,
        record_step(start_step(m, setup).0, Some(text)).selection == Some(text),
{
}

/// The text a listener holds was reported by its capture mechanism in one
/// of the requests it received.
pub proof fn lemma_selection_was_recorded(supported: bool, qs: Seq<Request>)
    ensures
        run(fresh(supported), qs).selection matches Some(t) ==> exists|i: int|
            0 <= i < qs.len() && #[trigger] qs[i] == Request::Record(Some(t)),
    decreases qs.len(),
{
    if qs.len() > 0 {
        let p = qs.drop_last();
        lemma_selection_was_recorded(supported, p);
        let n = qs.len() - 1;
        if let Some(t) = run(fresh(supported), qs).selection {
            if run(fresh(supported), p).selection == Some(t) && qs.last() != Request::Record(
                Some(t),
            ) {
                let i = choose|i: int| 0 <= i < p.len() && #[trigger] p[i] == Request::Record(Some(t));
                assert(qs[i] == p[i]);
            } else {
                assert(qs[n] == Request::Record(Some(t)));
            }
        }
    }
}

/// A listener that cannot start on its platform refuses every start request
/// with `UnsupportedAction` and never leaves its initial state.
pub proof fn lemma_unsupported_never_starts(qs: Seq<Request>)
    ensures
        run(fresh(false), qs) == fresh(false),
        forall|setup: Result<(), SelectionError>|
            #[trigger] start_step(fresh(false), setup) == (
                fresh(false),
                Err::<(), SelectionError>(SelectionError::UnsupportedAction),
            ),
    decreases qs.len(),
{
    if qs.len() > 0 {
        lemma_unsupported_never_starts(qs.drop_last());
    }
}

/// Stopping keeps the last captured text.
pub proof fn lemma_stop_keeps_selection(m: ListenerModel)
    ensures
        stop_step(m).selection == m.selection,
{
}

} // verus!
