use vstd::prelude::*;
use std::sync::atomic::{AtomicBool, Ordering};
use crate::error::AudioError;

verus! {

/// The flag every stage polls. It starts running and can only be moved to
/// stopped; any thread may read it, and the orchestrator, the interrupt
/// handler or a failing stage may move it.
pub struct ShutdownToken {
    stopped: AtomicBool,
}

impl ShutdownToken {
    /// A token in the running state.
    pub fn new() -> (r: Self) {
        ShutdownToken { stopped: AtomicBool::new(false) }
    }

    /// Whether the token has been moved to stopped. Other threads may move
    /// it at any moment, so the answer can be stale, never premature.
    pub fn is_stopped(&self) -> (r: bool) {
        self.stopped.load(Ordering::SeqCst)
    }

    /// Moves the token to stopped. Returns `true` for the one call that made
    /// the move; every later call is a no-op and returns `false`.
    pub fn stop(&self) -> (r: bool) {
        !self.stopped.swap(true, Ordering::SeqCst)
    }
}

/// The stages of the pipeline, in the order data flows through them.
#[derive(Clone, Copy, Debug, PartialEq, Eq, Structural)]
pub enum StageId {
    Source,
    Encoder,
    Decoder,
    Sink,
}

/// A fatal error, with the stage it ended.
#[derive(Debug, PartialEq, Eq)]
pub struct StageFailure {
    pub stage: StageId,
    pub error: AudioError,
}

/// What the coordinator keeps after one more report: the first fatal
/// failure stays; a per-frame error is not kept at all.
pub open spec fn record(first: Option<StageFailure>, failure: StageFailure) -> Option<StageFailure> {
    if first is None && failure.error.spec_is_fatal() {
        Some(failure)
    } else {
        first
    }
}

/// What the coordinator keeps after each of `reports`, in order.
pub open spec fn record_all(first: Option<StageFailure>, reports: Seq<StageFailure>) -> Option<
    StageFailure,
>
    decreases reports.len(),
{
    if reports.len() == 0 {
        first
    } else {
        record(record_all(first, reports.drop_last()), reports.last())
    }
}

/// Whether any of `reports` is fatal.
pub open spec fn any_fatal(reports: Seq<StageFailure>) -> bool {
    exists|i: int| 0 <= i < reports.len() && (#[trigger] reports[i]).error.spec_is_fatal()
}

/// Of the failures reported to a coordinator that held none, the one it
/// keeps is the first fatal one, and it keeps none when none was fatal.
pub proof fn lemma_first_fatal_kept(reports: Seq<StageFailure>)
    ensures
        !any_fatal(reports) ==> record_all(None, reports) is None,
        any_fatal(reports) ==> exists|i: int|
            0 <= i < reports.len() && record_all(None, reports) == Some(reports[i])
                && reports[i].error.spec_is_fatal() && forall|j: int|
                0 <= j < i ==> !(#[trigger] reports[j]).error.spec_is_fatal(),
    decreases reports.len(),
{
    if reports.len() > 0 {
        let rest = reports.drop_last();
        lemma_first_fatal_kept(rest);
        if any_fatal(rest) {
            let i = choose|i: int|
                0 <= i < rest.len() && record_all(None, rest) == Some(rest[i])
                    && rest[i].error.spec_is_fatal() && forall|j: int|
                    0 <= j < i ==> !(#[trigger] rest[j]).error.spec_is_fatal();
            assert(rest[i] == reports[i]);
            assert forall|j: int| 0 <= j < i implies !(#[trigger] reports[j]).error.spec_is_fatal() by {
                assert(rest[j] == reports[j]);
            }
        } else {
            assert forall|j: int|
                0 <= j < reports.len() - 1 implies !(#[trigger] reports[j]).error.spec_is_fatal() by {
                assert(rest[j] == reports[j]);
                if reports[j].error.spec_is_fatal() {
                    assert(rest[j].error.spec_is_fatal());
                }
            }
            if any_fatal(reports) {
                let last = reports.len() - 1;
                assert(reports[last].error.spec_is_fatal());
            }
        }
    }
}

/// The orchestrator's record of how the run ends: whether a stop was
/// requested, and the first fatal failure reported.
pub struct ShutdownCoordinator {
    stopped: bool,
    first: Option<StageFailure>,
}

impl ShutdownCoordinator {
    pub closed spec fn spec_stopped(&self) -> bool {
        self.stopped
    }

    pub closed spec fn spec_first(&self) -> Option<StageFailure> {
        self.first
    }

    pub open spec fn well_formed(&self) -> bool {
        self.spec_first() is Some ==> self.spec_stopped()
    }

    /// A coordinator of a run that is going and has seen no failure.
    pub fn new() -> (r: Self)
        ensures
            r.well_formed(),
            !r.spec_stopped(),
            r.spec_first() is None,
    {
        ShutdownCoordinator { stopped: false, first: None }
    }

    /// Asks for the run to stop. Returns `true` only for the request that
    /// made the move; later ones change nothing.
    pub fn request_stop(&mut self) -> (r: bool)
        requires
            old(self).well_formed(),
        ensures
            final(self).well_formed(),
            r == !old(self).spec_stopped(),
            final(self).spec_stopped(),
            final(self).spec_first() == old(self).spec_first(),
    {
        let moved = !self.stopped;
        self.stopped = true;
        moved
    }

    /// Takes a stage's failure. A fatal one stops the run and is kept if it
    /// is the first; a per-frame one changes nothing. Returns whether it was
    /// kept.
    pub fn report(&mut self, stage: StageId, error: AudioError) -> (r: bool)
        requires
            old(self).well_formed(),
        ensures
            final(self).well_formed(),
            final(self).spec_first() == record(
                old(self).spec_first(),
                StageFailure { stage, error },
            ),
            r == (old(self).spec_first() is None && error.spec_is_fatal()),
            final(self).spec_stopped() == (old(self).spec_stopped() || error.spec_is_fatal()),
    {
        if !error.is_fatal() {
            return false;
        }
        self.stopped = true;
        if self.first.is_none() {
            self.first = Some(StageFailure { stage, error });
            true
        } else {
            false
        }
    }

    /// Whether a stop has been requested or a fatal failure reported.
    pub fn is_stopped(&self) -> (r: bool)
        ensures
            r == self.spec_stopped(),
    {
        self.stopped
    }

    /// How the run ends: cleanly, or with the first fatal failure.
    pub fn outcome(self) -> (r: Result<(), StageFailure>)
        ensures
            self.spec_first() is None ==> r is Ok,
            self.spec_first() matches Some(f) ==> r == Err::<(), StageFailure>(f),
    {
        match self.first {
            Some(f) => Err(f),
            None => Ok(()),
        }
    }
}

} // verus!
