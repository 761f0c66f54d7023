use vstd::prelude::*;

verus! {

/// Failures that the pipeline reports.
#[derive(Debug, PartialEq, Eq)]
pub enum AudioError {
    /// No capture or playback device is available.
    NoDevice(String),
    /// A device stream could not be configured or built.
    StreamConfigError(String),
    /// The encoder rejected one frame; the native status code. The frame is
    /// dropped and the stage goes on.
    OpusEncodeError(i32),
    /// The decoder rejected one packet; the native status code. The packet is
    /// dropped and the stage goes on.
    OpusDecodeError(i32),
    /// The codec refused the sample rate or channel count, or its native
    /// state could not be created; the native status code.
    CodecInitError(i32),
    /// A codec handle was used after it was released, or by a stage of the
    /// wrong role.
    HandleInvalid,
}

impl AudioError {
    /// Whether the stage that met this error has to stop the pipeline:
    /// per-frame codec failures are absorbed, everything else is fatal.
    pub open spec fn spec_is_fatal(&self) -> bool {
        !(self is OpusEncodeError || self is OpusDecodeError)
    }

    /// Whether the stage that met this error has to stop the pipeline.
    pub fn is_fatal(&self) -> (r: bool)
        ensures
            r == self.spec_is_fatal(),
    {
        match self {
            AudioError::OpusEncodeError(_) | AudioError::OpusDecodeError(_) => false,
            _ => true,
        }
    }
}

} // verus!
