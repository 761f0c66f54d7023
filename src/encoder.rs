use vstd::prelude::*;
use crate::codec::{
    CodecConfig, CodecHandle, CodecRole, FRAMES_PER_SECOND, HandleState, OPUS_BAD_ARG,
    encode_status, holds_native, supported_channels, supported_rate,
};
use crate::counter::{inc, saturating_inc};
use crate::error::AudioError;
use crate::queue::{BoundedQueue, PushOutcome, push_outcome};
use crate::reframe::Reframer;
use crate::stage::{StageAction, StagePhase, may_call_codec, respects_stop};

verus! {

/// The decisions of the encoding worker: it pulls capture blocks of any
/// length, cuts them into frames of exactly the codec's frame length, lets
/// one frame at a time through to the codec, and forwards the packets.
pub struct EncoderStage {
    phase: StagePhase,
    reframer: Reframer,
    codec: CodecHandle,
    encoded: u64,
    failed: u64,
}

impl EncoderStage {
    pub closed spec fn spec_phase(&self) -> StagePhase {
        self.phase
    }

    /// Samples pulled and not yet handed to the codec, oldest first.
    pub closed spec fn spec_pending(&self) -> Seq<i16> {
        self.reframer@
    }

    pub closed spec fn spec_codec(&self) -> CodecHandle {
        self.codec
    }

    /// Interleaved samples in every frame handed to the codec.
    pub open spec fn spec_frame_len(&self) -> nat {
        self.spec_codec().spec_config().spec_frame_len()
    }

    /// Codec calls made so far.
    pub open spec fn spec_calls(&self) -> u64 {
        self.spec_codec().spec_calls()
    }

    /// Packets produced so far.
    pub closed spec fn spec_encoded(&self) -> u64 {
        self.encoded
    }

    /// Frames the codec failed on so far.
    pub closed spec fn spec_failed(&self) -> u64 {
        self.failed
    }

    pub closed spec fn well_formed(&self) -> bool {
        &&& self.codec.well_formed()
        &&& self.codec.spec_config().role == CodecRole::Encoder
        &&& self.reframer.well_formed()
        &&& self.reframer.spec_frame_len() == self.codec.spec_config().spec_frame_len()
        &&& self.phase == StagePhase::Starting ==> self.codec.spec_state()
            == HandleState::Unopened
        &&& self.phase == StagePhase::Running ==> self.codec.spec_state() == HandleState::Live
    }

    /// A stage for the given sample rate and channel count, which it checks
    /// against what the codec accepts.
    pub fn new(sample_rate: i32, channels: i32) -> (r: Result<Self, AudioError>)
        ensures
            r is Ok <==> supported_rate(sample_rate) && supported_channels(channels),
            r matches Err(e) ==> e == AudioError::CodecInitError(OPUS_BAD_ARG),
            r matches Ok(s) ==> {
                &&& s.well_formed()
                &&& s.spec_phase() == StagePhase::Starting
                &&& s.spec_pending() == Seq::<i16>::empty()
                &&& s.spec_codec().spec_config().sample_rate == sample_rate
                &&& s.spec_codec().spec_config().channels == channels
                &&& s.spec_codec().spec_config().well_formed()
                &&& s.spec_codec().spec_config().frame_size == (sample_rate
                    / FRAMES_PER_SECOND) as usize
                &&& s.spec_codec().spec_state() == HandleState::Unopened
                &&& s.spec_calls() == 0
                &&& s.spec_encoded() == 0
                &&& s.spec_failed() == 0
            },
    {
        let config = CodecConfig::new(CodecRole::Encoder, sample_rate, channels)?;
        let frame_len = config.frame_len();
        Ok(EncoderStage {
            phase: StagePhase::Starting,
            reframer: Reframer::new(frame_len),
            codec: CodecHandle::new(config),
            encoded: 0,
            failed: 0,
        })
    }

    /// Records the status of the native encoder's creation: zero starts the
    /// stage; anything else stops it with that status as a fatal error.
    pub fn start(&mut self, status: i32) -> (r: Result<(), AudioError>)
        requires
            old(self).well_formed(),
        ensures
            final(self).well_formed(),
            final(self).spec_calls() == old(self).spec_calls(),
            final(self).spec_pending() == old(self).spec_pending(),
            final(self).spec_codec().spec_config() == old(self).spec_codec().spec_config(),
            old(self).spec_phase() != StagePhase::Starting ==> r == Err::<(), AudioError>(
                AudioError::HandleInvalid,
            ) && final(self).spec_phase() == old(self).spec_phase()
                && final(self).spec_codec() == old(self).spec_codec(),
            old(self).spec_phase() == StagePhase::Starting && status == 0 ==> r is Ok
                && final(self).spec_phase() == StagePhase::Running
                && final(self).spec_codec().spec_state() == HandleState::Live,
            old(self).spec_phase() == StagePhase::Starting && status != 0 ==> r == Err::<
                (),
                AudioError,
            >(AudioError::CodecInitError(status)) && final(self).spec_phase()
                == StagePhase::Stopped && final(self).spec_codec().spec_state()
                == HandleState::Failed,
    {
        if self.phase != StagePhase::Starting {
            return Err(AudioError::HandleInvalid);
        }
        match self.codec.open(status) {
            Ok(()) => {
                self.phase = StagePhase::Running;
                Ok(())
            },
            Err(e) => {
                self.phase = StagePhase::Stopped;
                Err(e)
            },
        }
    }

    /// One turn of the worker loop, after reading the shutdown flag as
    /// `stopped`. A stopped stage discards what it buffered and what waits
    /// upstream, and exits. A running one hands out a whole frame when it
    /// has one, else pulls one block from upstream, else asks to back off.
    pub fn next_action(&mut self, stopped: bool, input: &mut BoundedQueue<Vec<i16>>) -> (r:
        StageAction<Vec<i16>>)
        requires
            old(self).well_formed(),
            old(input).well_formed(),
        ensures
            final(self).well_formed(),
            final(input).well_formed(),
            final(input).spec_capacity() == old(input).spec_capacity(),
            final(input).spec_dropped() == old(input).spec_dropped(),
            final(self).spec_codec().spec_config() == old(self).spec_codec().spec_config(),
            final(self).spec_codec().spec_state() == old(self).spec_codec().spec_state(),
            final(self).spec_encoded() == old(self).spec_encoded(),
            final(self).spec_failed() == old(self).spec_failed(),
            respects_stop(
                old(self).spec_phase(),
                old(self).spec_calls(),
                stopped,
                final(self).spec_phase(),
                final(self).spec_calls(),
            ),
            !may_call_codec(old(self).spec_phase(), stopped) ==> {
                &&& r is Exit
                &&& final(self).spec_pending() == Seq::<i16>::empty()
                &&& final(input)@ == Seq::<Vec<i16>>::empty()
            },
            may_call_codec(old(self).spec_phase(), stopped) ==> final(self).spec_phase()
                == StagePhase::Running,
            may_call_codec(old(self).spec_phase(), stopped) && old(self).spec_pending().len()
                >= old(self).spec_frame_len() ==> {
                &&& r matches StageAction::Run(frame) && frame@ == old(self).spec_pending().take(
                    old(self).spec_frame_len() as int,
                )
                &&& final(self).spec_pending() == old(self).spec_pending().skip(
                    old(self).spec_frame_len() as int,
                )
                &&& final(self).spec_calls() == saturating_inc(old(self).spec_calls())
                &&& final(input)@ == old(input)@
            },
            may_call_codec(old(self).spec_phase(), stopped) && old(self).spec_pending().len()
                < old(self).spec_frame_len() && old(input)@.len() > 0 ==> {
                &&& r is Pulled
                &&& final(self).spec_pending() == old(self).spec_pending() + old(input)@[0]@
                &&& final(self).spec_calls() == old(self).spec_calls()
                &&& final(input)@ == old(input)@.drop_first()
            },
            may_call_codec(old(self).spec_phase(), stopped) && old(self).spec_pending().len()
                < old(self).spec_frame_len() && old(input)@.len() == 0 ==> {
                &&& r is Backoff
                &&& final(self).spec_pending() == old(self).spec_pending()
                &&& final(self).spec_calls() == old(self).spec_calls()
                &&& final(input)@ == old(input)@
            },
    {
        if stopped || self.phase != StagePhase::Running {
            self.phase = StagePhase::Stopped;
            self.reframer.clear();
            input.clear();
            return StageAction::Exit;
        }
        match self.reframer.take_frame() {
            Some(frame) => {
                let admitted = self.codec.begin_encode(frame.as_slice());
                assert(admitted is Ok);
                StageAction::Run(frame)
            },
            None => match input.try_pop() {
                Some(block) => {
                    self.reframer.push_block(block.as_slice());
                    StageAction::Pulled
                },
                None => StageAction::Backoff,
            },
        }
    }

    /// Takes the status of the encode call that the last `Run` asked for,
    /// with the buffer the codec wrote into. A packet is trimmed to its
    /// length and offered downstream; a failed frame is counted and its
    /// error returned, and the stage goes on either way.
    pub fn finish(&mut self, status: i32, packet: Vec<u8>, output: &mut BoundedQueue<Vec<u8>>) -> (r:
        Result<PushOutcome, AudioError>)
        requires
            old(self).well_formed(),
            old(output).well_formed(),
        ensures
            final(self).well_formed(),
            final(output).well_formed(),
            final(output).spec_capacity() == old(output).spec_capacity(),
            final(self).spec_phase() == old(self).spec_phase(),
            final(self).spec_pending() == old(self).spec_pending(),
            final(self).spec_codec() == old(self).spec_codec(),
            encode_status(status, packet@.len() as usize) matches Ok(n) ==> {
                &&& r == Ok::<PushOutcome, AudioError>(
                    push_outcome(old(output)@.len(), old(output).spec_capacity()),
                )
                &&& final(self).spec_encoded() == saturating_inc(old(self).spec_encoded())
                &&& final(self).spec_failed() == old(self).spec_failed()
                &&& r == Ok::<PushOutcome, AudioError>(PushOutcome::Accepted) ==> {
                    &&& final(output)@.len() == old(output)@.len() + 1
                    &&& final(output)@.drop_last() == old(output)@
                    &&& final(output)@.last()@ == packet@.take(n as int)
                }
                &&& r == Ok::<PushOutcome, AudioError>(PushOutcome::Dropped) ==> final(output)@
                    == old(output)@
            },
            encode_status(status, packet@.len() as usize) matches Err(e) ==> {
                &&& r == Err::<PushOutcome, AudioError>(e)
                &&& final(output)@ == old(output)@
                &&& final(output).spec_dropped() == old(output).spec_dropped()
                &&& final(self).spec_encoded() == old(self).spec_encoded()
                &&& final(self).spec_failed() == saturating_inc(old(self).spec_failed())
            },
    {
        let mut packet = packet;
        match self.codec.finish_encode(status, packet.len()) {
            Ok(n) => {
                packet.truncate(n);
                self.encoded = inc(self.encoded);
                Ok(output.try_push(packet))
            },
            Err(e) => {
                self.failed = inc(self.failed);
                Err(e)
            },
        }
    }

    /// Marks the codec released. Returns `true` exactly once in the stage's
    /// life, when something native was created, even by a failed start: its
    /// native encoder exists and has to be destroyed now.
    pub fn release(&mut self) -> (r: bool)
        requires
            old(self).well_formed(),
        ensures
            final(self).well_formed(),
            final(self).spec_phase() == StagePhase::Stopped,
            final(self).spec_calls() == old(self).spec_calls(),
            r == holds_native(old(self).spec_codec().spec_state()),
            final(self).spec_codec().spec_state() == HandleState::Released,
    {
        self.phase = StagePhase::Stopped;
        self.codec.release()
    }

    pub fn phase(&self) -> (r: StagePhase)
        ensures
            r == self.spec_phase(),
    {
        self.phase
    }

    /// Interleaved samples in every frame handed to the codec.
    pub fn frame_len(&self) -> (r: usize)
        requires
            self.well_formed(),
        ensures
            r == self.spec_frame_len(),
    {
        self.reframer.frame_len()
    }

    /// Samples pulled and not yet handed to the codec.
    pub fn pending_len(&self) -> (r: usize)
        ensures
            r == self.spec_pending().len(),
    {
        self.reframer.pending_len()
    }

    /// Codec calls made so far.
    pub fn calls(&self) -> (r: u64)
        ensures
            r == self.spec_calls(),
    {
        self.codec.calls()
    }

    /// Packets produced so far.
    pub fn encoded(&self) -> (r: u64)
        ensures
            r == self.spec_encoded(),
    {
        self.encoded
    }

    /// Frames the codec failed on so far.
    pub fn failed(&self) -> (r: u64)
        ensures
            r == self.spec_failed(),
    {
        self.failed
    }
}

} // verus!
