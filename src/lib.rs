//! A real-time transcode pipeline for live audio: capture, encode, decode,
//! playback, joined by bounded queues that drop rather than wait, with
//! cooperative shutdown and single release of each codec state.

pub mod codec;
pub mod counter;
pub mod decoder;
pub mod encoder;
pub mod error;
pub mod queue;
pub mod reframe;
pub mod shutdown;
pub mod sink;
pub mod source;
pub mod stage;
