use vstd::prelude::*;
use crate::error::AudioError;

verus! {

/// Where a worker stage is in its life.
#[derive(Clone, Copy, Debug, PartialEq, Eq, Structural)]
pub enum StagePhase {
    /// Built, with its codec not yet created.
    Starting,
    /// Its codec is live and it moves data.
    Running,
    /// It has let go of its input and makes no more codec calls.
    Stopped,
}

/// What a worker stage asks its thread to do next.
#[derive(Debug)]
pub enum StageAction<T> {
    /// Hand this input to the codec, then report the status back.
    Run(T),
    /// An input was taken from upstream and buffered; ask again at once.
    Pulled,
    /// An input was taken from upstream and refused without reaching the
    /// codec; it is dropped, and the stage goes on.
    Rejected(AudioError),
    /// Upstream is empty: wait briefly, then ask again.
    Backoff,
    /// The stage has stopped: leave the loop.
    Exit,
}

/// Whether a stage in `phase` that has just read the shutdown flag as
/// `stopped` may still call its codec.
pub open spec fn may_call_codec(phase: StagePhase, stopped: bool) -> bool {
    phase == StagePhase::Running && !stopped
}

/// What every step of a stage keeps to: once it has read the flag as
/// stopped, or is stopped already, it ends stopped and has made no codec
/// call in that step.
pub open spec fn respects_stop(
    phase: StagePhase,
    calls: u64,
    stopped: bool,
    next_phase: StagePhase,
    next_calls: u64,
) -> bool {
    !may_call_codec(phase, stopped) ==> next_phase == StagePhase::Stopped && next_calls == calls
}

/// A run of steps of one stage: `phases[i]` and `calls[i]` before step `i`,
/// `stops[i]` the flag as that step read it.
pub open spec fn steps_respect_stop(
    phases: Seq<StagePhase>,
    calls: Seq<u64>,
    stops: Seq<bool>,
) -> bool {
    &&& phases.len() == stops.len() + 1
    &&& calls.len() == stops.len() + 1
    &&& forall|i: int|
        0 <= i < stops.len() ==> #[trigger] respects_stop(
            phases[i],
            calls[i],
            stops[i],
            phases[i + 1],
            calls[i + 1],
        )
}

/// Once a stage has read the shutdown flag as stopped, at step `k`, it makes
/// no codec call in that step or any later one, and stays stopped.
pub proof fn lemma_no_codec_after_stop(
    phases: Seq<StagePhase>,
    calls: Seq<u64>,
    stops: Seq<bool>,
    k: int,
)
    requires
        steps_respect_stop(phases, calls, stops),
        0 <= k < stops.len(),
        stops[k],
    ensures
        forall|j: int|
            #![trigger calls[j]]
            #![trigger phases[j]]
            k < j < phases.len() ==> calls[j] == calls[k] && phases[j] == StagePhase::Stopped,
{
    assert forall|j: int|
        #![trigger calls[j]]
        #![trigger phases[j]]
        k < j < phases.len() implies calls[j] == calls[k] && phases[j] == StagePhase::Stopped by {
        lemma_stopped_stays(phases, calls, stops, k, j);
    }
}

proof fn lemma_stopped_stays(
    phases: Seq<StagePhase>,
    calls: Seq<u64>,
    stops: Seq<bool>,
    k: int,
    j: int,
)
    requires
        steps_respect_stop(phases, calls, stops),
        0 <= k < stops.len(),
        stops[k],
        k < j < phases.len(),
    ensures
        calls[j] == calls[k],
        phases[j] == StagePhase::Stopped,
    decreases j - k,
{
    let i = j - 1;
    assert(respects_stop(phases[i], calls[i], stops[i], phases[i + 1], calls[i + 1]));
    if j > k + 1 {
        lemma_stopped_stays(phases, calls, stops, k, j - 1);
    }
}

} // verus!
