use vstd::prelude::*;
use crate::counter::{inc, saturating_inc};
use crate::error::AudioError;

verus! {

/// The largest packet one encode call can produce.
pub const MAX_PACKET_SIZE: usize = 1275;

/// Frames per second: every frame covers 20 ms.
pub const FRAMES_PER_SECOND: i32 = 50;

/// Native status: an argument was out of range.
pub const OPUS_BAD_ARG: i32 = -1;

/// Native status: the codec produced a result it should not have.
pub const OPUS_INTERNAL_ERROR: i32 = -3;

/// Native status: the packet is corrupt or too long.
pub const OPUS_INVALID_PACKET: i32 = -4;

/// Which way a codec handle converts.
#[derive(Clone, Copy, Debug, PartialEq, Eq, Structural)]
pub enum CodecRole {
    Encoder,
    Decoder,
}

/// The sample rates the codec accepts.
pub open spec fn supported_rate(sample_rate: i32) -> bool {
    sample_rate == 8000 || sample_rate == 12000 || sample_rate == 16000 || sample_rate == 24000
        || sample_rate == 48000
}

/// The channel counts the codec accepts.
pub open spec fn supported_channels(channels: i32) -> bool {
    channels == 1 || channels == 2
}

/// What a codec handle is created with, once checked: the frame length
/// follows from the sample rate and stays fixed for the handle's life.
#[derive(Clone, Copy, Debug, PartialEq, Eq, Structural)]
pub struct CodecConfig {
    pub role: CodecRole,
    pub sample_rate: i32,
    pub channels: i32,
    /// Samples per channel in one frame.
    pub frame_size: usize,
}

impl CodecConfig {
    pub open spec fn well_formed(&self) -> bool {
        &&& supported_rate(self.sample_rate)
        &&& supported_channels(self.channels)
        &&& self.frame_size == self.sample_rate / FRAMES_PER_SECOND
    }

    /// Interleaved samples in one frame, all channels together.
    pub open spec fn spec_frame_len(&self) -> nat {
        (self.frame_size * self.channels) as nat
    }

    /// Checks a sample rate and channel count against what the codec
    /// accepts, and fixes the frame length at 20 ms.
    pub fn new(role: CodecRole, sample_rate: i32, channels: i32) -> (r: Result<
        CodecConfig,
        AudioError,
    >)
        ensures
            r is Ok <==> supported_rate(sample_rate) && supported_channels(channels),
            r matches Ok(c) ==> c.well_formed() && c.role == role && c.sample_rate == sample_rate
                && c.channels == channels,
            r matches Err(e) ==> e == AudioError::CodecInitError(OPUS_BAD_ARG),
    {
        let rate_ok = sample_rate == 8000 || sample_rate == 12000 || sample_rate == 16000
            || sample_rate == 24000 || sample_rate == 48000;
        if !rate_ok || !(channels == 1 || channels == 2) {
            return Err(AudioError::CodecInitError(OPUS_BAD_ARG));
        }
        let frame_size = (sample_rate / FRAMES_PER_SECOND) as usize;
        Ok(CodecConfig { role, sample_rate, channels, frame_size })
    }

    /// Interleaved samples in one frame, all channels together.
    pub fn frame_len(&self) -> (r: usize)
        requires
            self.well_formed(),
        ensures
            r == self.spec_frame_len(),
            r > 0,
    {
        self.frame_size * (self.channels as usize)
    }
}

/// What an encode status means for a packet buffer of `buffer_len` bytes:
/// a negative status is that frame's failure, otherwise it is the packet's
/// length, which cannot exceed the buffer.
pub open spec fn encode_status(status: i32, buffer_len: usize) -> Result<usize, AudioError> {
    if status < 0 {
        Err(AudioError::OpusEncodeError(status))
    } else if status > buffer_len {
        Err(AudioError::OpusEncodeError(OPUS_INTERNAL_ERROR))
    } else {
        Ok(status as usize)
    }
}

/// What a decode status means: a negative status is that packet's failure;
/// a whole frame per channel gives the number of interleaved samples
/// written; any other count is refused as a frame of the wrong length.
pub open spec fn decode_status(status: i32, config: CodecConfig) -> Result<usize, AudioError> {
    if status < 0 {
        Err(AudioError::OpusDecodeError(status))
    } else if status != config.frame_size {
        Err(AudioError::OpusDecodeError(OPUS_INTERNAL_ERROR))
    } else {
        Ok(config.spec_frame_len() as usize)
    }
}

/// Where a codec handle is in its life.
#[derive(Clone, Copy, Debug, PartialEq, Eq, Structural)]
pub enum HandleState {
    /// The native state has not been created yet.
    Unopened,
    /// The native state exists and may be used.
    Live,
    /// Native creation reported a failure; whatever it handed back must
    /// still be destroyed, and may not be used.
    Failed,
    /// The native state was destroyed, or never came to exist.
    Released,
}

/// Whether a handle in state `s` still holds something native that has to
/// be destroyed: a live state, or what a failed creation handed back.
pub open spec fn holds_native(s: HandleState) -> bool {
    s == HandleState::Live || s == HandleState::Failed
}

/// The state after a release, and whether that release has to destroy
/// the native state.
pub open spec fn release_step(s: HandleState) -> (HandleState, bool) {
    (HandleState::Released, holds_native(s))
}

/// How many of `count` releases in a row, starting from `s`, destroy the
/// native state.
pub open spec fn destroys_in(s: HandleState, count: nat) -> nat
    decreases count,
{
    if count == 0 {
        0
    } else {
        let (next, destroys) = release_step(s);
        (if destroys {
            1nat
        } else {
            0nat
        }) + destroys_in(next, (count - 1) as nat)
    }
}

/// However often a handle is released, its native state is destroyed at
/// most once, and exactly once when one was created, whether creation
/// succeeded or failed.
pub proof fn lemma_release_once(s: HandleState, count: nat)
    ensures
        destroys_in(s, count) <= 1,
        holds_native(s) && count >= 1 ==> destroys_in(s, count) == 1,
        !holds_native(s) ==> destroys_in(s, count) == 0,
    decreases count,
{
    if count > 0 {
        lemma_release_once(HandleState::Released, (count - 1) as nat);
    }
}

/// The bookkeeping of one native encoder or decoder state: its
/// configuration, where it is in its life, and how many codec calls it
/// has let through.
pub struct CodecHandle {
    config: CodecConfig,
    state: HandleState,
    calls: u64,
}

impl CodecHandle {
    pub closed spec fn spec_config(&self) -> CodecConfig {
        self.config
    }

    pub closed spec fn spec_state(&self) -> HandleState {
        self.state
    }

    /// Codec calls let through so far, saturating at `u64::MAX`.
    pub closed spec fn spec_calls(&self) -> u64 {
        self.calls
    }

    pub open spec fn well_formed(&self) -> bool {
        self.spec_config().well_formed()
    }

    /// A handle for `config` whose native state is yet to be created.
    pub fn new(config: CodecConfig) -> (h: Self)
        requires
            config.well_formed(),
        ensures
            h.well_formed(),
            h.spec_config() == config,
            h.spec_state() == HandleState::Unopened,
            h.spec_calls() == 0,
    {
        CodecHandle { config, state: HandleState::Unopened, calls: 0 }
    }

    /// Records the status that native creation returned: zero makes the
    /// handle live; anything else is a failed creation, whose remains are
    /// still destroyed by the first release.
    pub fn open(&mut self, status: i32) -> (r: Result<(), AudioError>)
        requires
            old(self).well_formed(),
        ensures
            final(self).well_formed(),
            final(self).spec_config() == old(self).spec_config(),
            final(self).spec_calls() == old(self).spec_calls(),
            old(self).spec_state() != HandleState::Unopened ==> r == Err::<(), AudioError>(
                AudioError::HandleInvalid,
            ) && final(self).spec_state() == old(self).spec_state(),
            old(self).spec_state() == HandleState::Unopened && status == 0 ==> r is Ok
                && final(self).spec_state() == HandleState::Live,
            old(self).spec_state() == HandleState::Unopened && status != 0 ==> r == Err::<
                (),
                AudioError,
            >(AudioError::CodecInitError(status)) && final(self).spec_state()
                == HandleState::Failed,
    {
        if self.state != HandleState::Unopened {
            return Err(AudioError::HandleInvalid);
        }
        if status == 0 {
            self.state = HandleState::Live;
            Ok(())
        } else {
            self.state = HandleState::Failed;
            Err(AudioError::CodecInitError(status))
        }
    }

    /// Marks the handle released. Returns `true` exactly when the native
    /// state has to be destroyed now, which is at most once in its life.
    pub fn release(&mut self) -> (r: bool)
        requires
            old(self).well_formed(),
        ensures
            final(self).well_formed(),
            final(self).spec_config() == old(self).spec_config(),
            final(self).spec_calls() == old(self).spec_calls(),
            (final(self).spec_state(), r) == release_step(old(self).spec_state()),
    {
        let destroy = self.state == HandleState::Live || self.state == HandleState::Failed;
        self.state = HandleState::Released;
        destroy
    }

    /// Whether a codec call through this handle is allowed: the handle must
    /// be live and of the given role.
    pub open spec fn usable_for(&self, role: CodecRole) -> bool {
        self.spec_state() == HandleState::Live && self.spec_config().role == role
    }

    /// Decides whether `frame` may be handed to the native encoder. It may
    /// only when the handle is a live encoder and the frame has exactly the
    /// frame length; the call is then counted.
    pub fn begin_encode(&mut self, frame: &[i16]) -> (r: Result<(), AudioError>)
        requires
            old(self).well_formed(),
        ensures
            final(self).well_formed(),
            final(self).spec_config() == old(self).spec_config(),
            final(self).spec_state() == old(self).spec_state(),
            !old(self).usable_for(CodecRole::Encoder) ==> r == Err::<(), AudioError>(
                AudioError::HandleInvalid,
            ),
            old(self).usable_for(CodecRole::Encoder) && frame@.len()
                != old(self).spec_config().spec_frame_len() ==> r == Err::<(), AudioError>(
                AudioError::OpusEncodeError(OPUS_BAD_ARG),
            ),
            r is Ok <==> old(self).usable_for(CodecRole::Encoder) && frame@.len()
                == old(self).spec_config().spec_frame_len(),
            r is Ok ==> final(self).spec_calls() == saturating_inc(old(self).spec_calls()),
            r is Err ==> final(self).spec_calls() == old(self).spec_calls(),
    {
        if self.state != HandleState::Live || self.config.role != CodecRole::Encoder {
            return Err(AudioError::HandleInvalid);
        }
        if frame.len() != self.config.frame_len() {
            return Err(AudioError::OpusEncodeError(OPUS_BAD_ARG));
        }
        self.calls = inc(self.calls);
        Ok(())
    }

    /// Reads the status the native encoder returned into a buffer of
    /// `buffer_len` bytes.
    pub fn finish_encode(&self, status: i32, buffer_len: usize) -> (r: Result<usize, AudioError>)
        ensures
            r == encode_status(status, buffer_len),
    {
        if status < 0 {
            Err(AudioError::OpusEncodeError(status))
        } else if status as usize > buffer_len {
            Err(AudioError::OpusEncodeError(OPUS_INTERNAL_ERROR))
        } else {
            Ok(status as usize)
        }
    }

    /// Decides whether `packet` may be handed to the native decoder. It may
    /// only when the handle is a live decoder and the packet is no longer than
    /// [`MAX_PACKET_SIZE`]; the call is then counted.
    pub fn begin_decode(&mut self, packet: &[u8]) -> (r: Result<(), AudioError>)
        requires
            old(self).well_formed(),
        ensures
            final(self).well_formed(),
            final(self).spec_config() == old(self).spec_config(),
            final(self).spec_state() == old(self).spec_state(),
            !old(self).usable_for(CodecRole::Decoder) ==> r == Err::<(), AudioError>(
                AudioError::HandleInvalid,
            ),
            old(self).usable_for(CodecRole::Decoder) && packet@.len() > MAX_PACKET_SIZE ==> r
                == Err::<(), AudioError>(AudioError::OpusDecodeError(OPUS_INVALID_PACKET)),
            r is Ok <==> old(self).usable_for(CodecRole::Decoder) && packet@.len()
                <= MAX_PACKET_SIZE,
            r is Ok ==> final(self).spec_calls() == saturating_inc(old(self).spec_calls()),
            r is Err ==> final(self).spec_calls() == old(self).spec_calls(),
    {
        if self.state != HandleState::Live || self.config.role != CodecRole::Decoder {
            return Err(AudioError::HandleInvalid);
        }
        if packet.len() > MAX_PACKET_SIZE {
            return Err(AudioError::OpusDecodeError(OPUS_INVALID_PACKET));
        }
        self.calls = inc(self.calls);
        Ok(())
    }

    /// Reads the status the native decoder returned.
    pub fn finish_decode(&self, status: i32) -> (r: Result<usize, AudioError>)
        requires
            self.well_formed(),
        ensures
            r == decode_status(status, self.spec_config()),
    {
        if status < 0 {
            Err(AudioError::OpusDecodeError(status))
        } else if status as usize != self.config.frame_size {
            Err(AudioError::OpusDecodeError(OPUS_INTERNAL_ERROR))
        } else {
            Ok(self.config.frame_len())
        }
    }

    /// The configuration the handle was made for.
    pub fn config(&self) -> (r: CodecConfig)
        ensures
            r == self.spec_config(),
    {
        self.config
    }

    /// Where the handle is in its life.
    pub fn state(&self) -> (r: HandleState)
        ensures
            r == self.spec_state(),
    {
        self.state
    }

    /// How many codec calls the handle has let through.
    pub fn calls(&self) -> (r: u64)
        ensures
            r == self.spec_calls(),
    {
        self.calls
    }
}

} // verus!
