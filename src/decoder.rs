use vstd::prelude::*;
use crate::codec::{
    CodecConfig, CodecHandle, CodecRole, FRAMES_PER_SECOND, HandleState, MAX_PACKET_SIZE,
    OPUS_BAD_ARG, OPUS_INVALID_PACKET, decode_status, holds_native, supported_channels,
    supported_rate,
};
use crate::counter::{inc, saturating_inc};
use crate::error::AudioError;
use crate::queue::{BoundedQueue, PushOutcome, push_outcome};
use crate::stage::{StageAction, StagePhase, may_call_codec, respects_stop};

verus! {

/// One packet to decode, with the buffer the codec writes the frame into,
/// exactly one frame long.
#[derive(Debug)]
pub struct DecodeJob {
    pub packet: Vec<u8>,
    pub pcm: Vec<i16>,
}

/// The decisions of the decoding worker: it pulls one packet at a time,
/// lets it through to the codec, and forwards each whole decoded frame.
pub struct DecoderStage {
    phase: StagePhase,
    codec: CodecHandle,
    decoded: u64,
    failed: u64,
}

impl DecoderStage {
    pub closed spec fn spec_phase(&self) -> StagePhase {
        self.phase
    }

    pub closed spec fn spec_codec(&self) -> CodecHandle {
        self.codec
    }

    /// Interleaved samples in every decoded frame.
    pub open spec fn spec_frame_len(&self) -> nat {
        self.spec_codec().spec_config().spec_frame_len()
    }

    /// Codec calls made so far.
    pub open spec fn spec_calls(&self) -> u64 {
        self.spec_codec().spec_calls()
    }

    /// Frames produced so far.
    pub closed spec fn spec_decoded(&self) -> u64 {
        self.decoded
    }

    /// Packets refused or failed on so far.
    pub closed spec fn spec_failed(&self) -> u64 {
        self.failed
    }

    pub closed spec fn well_formed(&self) -> bool {
        &&& self.codec.well_formed()
        &&& self.codec.spec_config().role == CodecRole::Decoder
        &&& self.phase == StagePhase::Starting ==> self.codec.spec_state()
            == HandleState::Unopened
        &&& self.phase == StagePhase::Running ==> self.codec.spec_state() == HandleState::Live
    }

    /// A stage for the given sample rate and channel count, which it checks
    /// against what the codec accepts.
    pub fn new(sample_rate: i32, channels: i32) -> (r: Result<Self, AudioError>)
        ensures
            r is Ok <==> supported_rate(sample_rate) && supported_channels(channels),
            r matches Err(e) ==> e == AudioError::CodecInitError(OPUS_BAD_ARG),
            r matches Ok(s) ==> {
                &&& s.well_formed()
                &&& s.spec_phase() == StagePhase::Starting
                &&& s.spec_codec().spec_config().sample_rate == sample_rate
                &&& s.spec_codec().spec_config().channels == channels
                &&& s.spec_codec().spec_config().well_formed()
                &&& s.spec_codec().spec_config().frame_size == (sample_rate
                    / FRAMES_PER_SECOND) as usize
                &&& s.spec_codec().spec_state() == HandleState::Unopened
                &&& s.spec_calls() == 0
                &&& s.spec_decoded() == 0
                &&& s.spec_failed() == 0
            },
    {
        let config = CodecConfig::new(CodecRole::Decoder, sample_rate, channels)?;
        Ok(DecoderStage {
            phase: StagePhase::Starting,
            codec: CodecHandle::new(config),
            decoded: 0,
            failed: 0,
        })
    }

    /// Records the status of the native decoder's creation: zero starts the
    /// stage; anything else stops it with that status as a fatal error.
    pub fn start(&mut self, status: i32) -> (r: Result<(), AudioError>)
        requires
            old(self).well_formed(),
        ensures
            final(self).well_formed(),
            final(self).spec_calls() == old(self).spec_calls(),
            final(self).spec_codec().spec_config() == old(self).spec_codec().spec_config(),
            old(self).spec_phase() != StagePhase::Starting ==> r == Err::<(), AudioError>(
                AudioError::HandleInvalid,
            ) && final(self).spec_phase() == old(self).spec_phase()
                && final(self).spec_codec() == old(self).spec_codec(),
            old(self).spec_phase() == StagePhase::Starting && status == 0 ==> r is Ok
                && final(self).spec_phase() == StagePhase::Running
                && final(self).spec_codec().spec_state() == HandleState::Live,
            old(self).spec_phase() == StagePhase::Starting && status != 0 ==> r == Err::<
                (),
                AudioError,
            >(AudioError::CodecInitError(status)) && final(self).spec_phase()
                == StagePhase::Stopped && final(self).spec_codec().spec_state()
                == HandleState::Failed,
    {
        if self.phase != StagePhase::Starting {
            return Err(AudioError::HandleInvalid);
        }
        match self.codec.open(status) {
            Ok(()) => {
                self.phase = StagePhase::Running;
                Ok(())
            },
            Err(e) => {
                self.phase = StagePhase::Stopped;
                Err(e)
            },
        }
    }

    /// One turn of the worker loop, after reading the shutdown flag as
    /// `stopped`. A stopped stage discards what waits upstream and exits. A
    /// running one takes the oldest packet and lets it through to the codec,
    /// with an output buffer of exactly one frame, unless it is longer than
    /// any packet can be; with nothing upstream it asks to back off.
    pub fn next_action(&mut self, stopped: bool, input: &mut BoundedQueue<Vec<u8>>) -> (r:
        StageAction<DecodeJob>)
        requires
            old(self).well_formed(),
            old(input).well_formed(),
        ensures
            final(self).well_formed(),
            final(input).well_formed(),
            final(input).spec_capacity() == old(input).spec_capacity(),
            final(input).spec_dropped() == old(input).spec_dropped(),
            final(self).spec_codec().spec_config() == old(self).spec_codec().spec_config(),
            final(self).spec_codec().spec_state() == old(self).spec_codec().spec_state(),
            final(self).spec_decoded() == old(self).spec_decoded(),
            respects_stop(
                old(self).spec_phase(),
                old(self).spec_calls(),
                stopped,
                final(self).spec_phase(),
                final(self).spec_calls(),
            ),
            !may_call_codec(old(self).spec_phase(), stopped) ==> {
                &&& r is Exit
                &&& final(input)@ == Seq::<Vec<u8>>::empty()
                &&& final(self).spec_failed() == old(self).spec_failed()
            },
            may_call_codec(old(self).spec_phase(), stopped) ==> final(self).spec_phase()
                == StagePhase::Running,
            may_call_codec(old(self).spec_phase(), stopped) && old(input)@.len() == 0 ==> {
                &&& r is Backoff
                &&& final(self).spec_calls() == old(self).spec_calls()
                &&& final(self).spec_failed() == old(self).spec_failed()
                &&& final(input)@ == old(input)@
            },
            may_call_codec(old(self).spec_phase(), stopped) && old(input)@.len() > 0 ==> {
                &&& final(input)@ == old(input)@.drop_first()
                &&& old(input)@[0]@.len() <= MAX_PACKET_SIZE ==> {
                    &&& r matches StageAction::Run(job) && job.packet@ == old(input)@[0]@
                        && job.pcm@.len() == old(self).spec_frame_len()
                    &&& final(self).spec_calls() == saturating_inc(old(self).spec_calls())
                    &&& final(self).spec_failed() == old(self).spec_failed()
                }
                &&& old(input)@[0]@.len() > MAX_PACKET_SIZE ==> {
                    &&& r matches StageAction::Rejected(e) && e == AudioError::OpusDecodeError(
                        OPUS_INVALID_PACKET,
                    )
                    &&& final(self).spec_calls() == old(self).spec_calls()
                    &&& final(self).spec_failed() == saturating_inc(old(self).spec_failed())
                }
            },
    {
        if stopped || self.phase != StagePhase::Running {
            self.phase = StagePhase::Stopped;
            input.clear();
            return StageAction::Exit;
        }
        match input.try_pop() {
            Some(packet) => match self.codec.begin_decode(packet.as_slice()) {
                Ok(()) => {
                    let frame_len = self.codec.config().frame_len();
                    StageAction::Run(DecodeJob { packet, pcm: vec![0i16; frame_len] })
                },
                Err(e) => {
                    self.failed = inc(self.failed);
                    StageAction::Rejected(e)
                },
            },
            None => StageAction::Backoff,
        }
    }

    /// Takes the status of the decode call that the last `Run` asked for,
    /// with the buffer the codec wrote into. A whole frame is offered
    /// downstream; a failed packet is counted and its error returned, and
    /// the stage goes on either way.
    pub fn finish(&mut self, status: i32, pcm: Vec<i16>, output: &mut BoundedQueue<Vec<i16>>) -> (r:
        Result<PushOutcome, AudioError>)
        requires
            old(self).well_formed(),
            old(output).well_formed(),
        ensures
            final(self).well_formed(),
            final(output).well_formed(),
            final(output).spec_capacity() == old(output).spec_capacity(),
            final(self).spec_phase() == old(self).spec_phase(),
            final(self).spec_codec() == old(self).spec_codec(),
            decode_status(status, old(self).spec_codec().spec_config()) matches Ok(n) ==> (n
                <= pcm@.len() ==> {
                &&& r == Ok::<PushOutcome, AudioError>(
                    push_outcome(old(output)@.len(), old(output).spec_capacity()),
                )
                &&& final(self).spec_decoded() == saturating_inc(old(self).spec_decoded())
                &&& final(self).spec_failed() == old(self).spec_failed()
                &&& r == Ok::<PushOutcome, AudioError>(PushOutcome::Accepted) ==> {
                    &&& final(output)@.len() == old(output)@.len() + 1
                    &&& final(output)@.drop_last() == old(output)@
                    &&& final(output)@.last()@ == pcm@.take(n as int)
                }
                &&& r == Ok::<PushOutcome, AudioError>(PushOutcome::Dropped) ==> final(output)@
                    == old(output)@
            }),
            decode_status(status, old(self).spec_codec().spec_config()) matches Ok(n) ==> (n
                > pcm@.len() ==> r == Err::<PushOutcome, AudioError>(
                AudioError::OpusDecodeError(OPUS_BAD_ARG),
            )),
            decode_status(status, old(self).spec_codec().spec_config()) matches Err(e) ==> r
                == Err::<PushOutcome, AudioError>(e),
            r is Err ==> {
                &&& final(output)@ == old(output)@
                &&& final(output).spec_dropped() == old(output).spec_dropped()
                &&& final(self).spec_decoded() == old(self).spec_decoded()
                &&& final(self).spec_failed() == saturating_inc(old(self).spec_failed())
            },
    {
        let mut pcm = pcm;
        match self.codec.finish_decode(status) {
            Ok(n) => {
                if n > pcm.len() {
                    self.failed = inc(self.failed);
                    return Err(AudioError::OpusDecodeError(OPUS_BAD_ARG));
                }
                pcm.truncate(n);
                self.decoded = inc(self.decoded);
                Ok(output.try_push(pcm))
            },
            Err(e) => {
                self.failed = inc(self.failed);
                Err(e)
            },
        }
    }

    /// Marks the codec released. Returns `true` exactly once in the stage's
    /// life, when something native was created, even by a failed start: its
    /// native decoder exists and has to be destroyed now.
    pub fn release(&mut self) -> (r: bool)
        requires
            old(self).well_formed(),
        ensures
            final(self).well_formed(),
            final(self).spec_phase() == StagePhase::Stopped,
            final(self).spec_calls() == old(self).spec_calls(),
            r == holds_native(old(self).spec_codec().spec_state()),
            final(self).spec_codec().spec_state() == HandleState::Released,
    {
        self.phase = StagePhase::Stopped;
        self.codec.release()
    }

    pub fn phase(&self) -> (r: StagePhase)
        ensures
            r == self.spec_phase(),
    {
        self.phase
    }

    /// Interleaved samples in every decoded frame.
    pub fn frame_len(&self) -> (r: usize)
        requires
            self.well_formed(),
        ensures
            r == self.spec_frame_len(),
    {
        self.codec.config().frame_len()
    }

    /// Codec calls made so far.
    pub fn calls(&self) -> (r: u64)
        ensures
            r == self.spec_calls(),
    {
        self.codec.calls()
    }

    /// Frames produced so far.
    pub fn decoded(&self) -> (r: u64)
        ensures
            r == self.spec_decoded(),
    {
        self.decoded
    }

    /// Packets refused or failed on so far.
    pub fn failed(&self) -> (r: u64)
        ensures
            r == self.spec_failed(),
    {
        self.failed
    }
}

} // verus!
