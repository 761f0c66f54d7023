use audio_pipeline::codec::{
    CodecConfig, CodecHandle, CodecRole, HandleState, MAX_PACKET_SIZE, OPUS_BAD_ARG,
    OPUS_INTERNAL_ERROR, OPUS_INVALID_PACKET,
};
use audio_pipeline::error::AudioError;

fn live(role: CodecRole) -> CodecHandle {
    let mut h = CodecHandle::new(CodecConfig::new(role, 48000, 1).unwrap());
    assert_eq!(h.open(0), Ok(()));
    h
}

#[test]
fn config_fixes_twenty_millisecond_frames() {
    let c = CodecConfig::new(CodecRole::Encoder, 48000, 1).unwrap();
    assert_eq!(c.frame_size, 960);
    assert_eq!(c.frame_len(), 960);
    let s = CodecConfig::new(CodecRole::Decoder, 16000, 2).unwrap();
    assert_eq!(s.frame_size, 320);
    assert_eq!(s.frame_len(), 640);
    assert_eq!(CodecConfig::new(CodecRole::Encoder, 8000, 1).unwrap().frame_size, 160);
}

#[test]
fn config_refuses_unsupported_rate_or_channels() {
    assert_eq!(
        CodecConfig::new(CodecRole::Encoder, 44100, 1),
        Err(AudioError::CodecInitError(OPUS_BAD_ARG))
    );
    assert_eq!(
        CodecConfig::new(CodecRole::Decoder, 48000, 3),
        Err(AudioError::CodecInitError(OPUS_BAD_ARG))
    );
    assert_eq!(
        CodecConfig::new(CodecRole::Decoder, 48000, 0),
        Err(AudioError::CodecInitError(OPUS_BAD_ARG))
    );
}

#[test]
fn release_destroys_exactly_once_per_construction() {
    let mut destroyed = 0;
    let mut h = live(CodecRole::Encoder);
    for _ in 0..3 {
        if h.release() {
            destroyed += 1;
        }
    }
    assert_eq!(destroyed, 1);
    assert_eq!(h.state(), HandleState::Released);
}

#[test]
fn failed_construction_is_released_exactly_once() {
    let mut destroyed = 0;
    let mut h = CodecHandle::new(CodecConfig::new(CodecRole::Decoder, 48000, 1).unwrap());
    assert_eq!(h.open(-7), Err(AudioError::CodecInitError(-7)));
    assert_eq!(h.state(), HandleState::Failed);
    assert_eq!(h.begin_decode(&[1]), Err(AudioError::HandleInvalid));
    assert_eq!(h.open(0), Err(AudioError::HandleInvalid));
    for _ in 0..3 {
        if h.release() {
            destroyed += 1;
        }
    }
    assert_eq!(destroyed, 1);
    assert_eq!(h.state(), HandleState::Released);
    assert_eq!(h.calls(), 0);
}

#[test]
fn never_opened_handle_leaves_nothing_to_destroy() {
    let mut h = CodecHandle::new(CodecConfig::new(CodecRole::Encoder, 48000, 1).unwrap());
    assert_eq!(h.state(), HandleState::Unopened);
    assert!(!h.release());
}

#[test]
fn mismatched_frame_never_reaches_the_codec() {
    let mut h = live(CodecRole::Encoder);
    let short = vec![0i16; 500];
    assert_eq!(h.begin_encode(&short), Err(AudioError::OpusEncodeError(OPUS_BAD_ARG)));
    assert_eq!(h.calls(), 0);
    let exact = vec![0i16; 960];
    assert_eq!(h.begin_encode(&exact), Ok(()));
    assert_eq!(h.calls(), 1);
}

#[test]
fn use_after_release_fails_loudly() {
    let mut h = live(CodecRole::Encoder);
    assert!(h.release());
    assert_eq!(h.begin_encode(&vec![0i16; 960]), Err(AudioError::HandleInvalid));
    let mut d = live(CodecRole::Decoder);
    assert!(d.release());
    assert_eq!(d.begin_decode(&[1, 2, 3]), Err(AudioError::HandleInvalid));
    assert_eq!(d.calls(), 0);
}

#[test]
fn wrong_role_is_refused() {
    let mut h = live(CodecRole::Decoder);
    assert_eq!(h.begin_encode(&vec![0i16; 960]), Err(AudioError::HandleInvalid));
    let mut e = live(CodecRole::Encoder);
    assert_eq!(e.begin_decode(&[1]), Err(AudioError::HandleInvalid));
}

#[test]
fn oversized_packet_is_refused() {
    let mut d = live(CodecRole::Decoder);
    let big = vec![0u8; MAX_PACKET_SIZE + 1];
    assert_eq!(d.begin_decode(&big), Err(AudioError::OpusDecodeError(OPUS_INVALID_PACKET)));
    let max = vec![0u8; MAX_PACKET_SIZE];
    assert_eq!(d.begin_decode(&max), Ok(()));
    assert_eq!(d.calls(), 1);
}

#[test]
fn encode_status_is_read_exactly() {
    let h = live(CodecRole::Encoder);
    assert_eq!(h.finish_encode(-2, 1275), Err(AudioError::OpusEncodeError(-2)));
    assert_eq!(h.finish_encode(0, 1275), Ok(0));
    assert_eq!(h.finish_encode(120, 1275), Ok(120));
    assert_eq!(h.finish_encode(1275, 1275), Ok(1275));
    assert_eq!(
        h.finish_encode(1276, 1275),
        Err(AudioError::OpusEncodeError(OPUS_INTERNAL_ERROR))
    );
}

#[test]
fn decode_status_is_read_exactly() {
    let d = live(CodecRole::Decoder);
    assert_eq!(d.finish_decode(-4), Err(AudioError::OpusDecodeError(-4)));
    assert_eq!(d.finish_decode(960), Ok(960));
    assert_eq!(d.finish_decode(480), Err(AudioError::OpusDecodeError(OPUS_INTERNAL_ERROR)));
    let mut stereo = CodecHandle::new(CodecConfig::new(CodecRole::Decoder, 24000, 2).unwrap());
    assert_eq!(stereo.open(0), Ok(()));
    assert_eq!(stereo.finish_decode(480), Ok(960));
}

#[test]
fn only_per_frame_errors_are_absorbed() {
    assert!(!AudioError::OpusEncodeError(-1).is_fatal());
    assert!(!AudioError::OpusDecodeError(-4).is_fatal());
    assert!(AudioError::CodecInitError(-1).is_fatal());
    assert!(AudioError::HandleInvalid.is_fatal());
    assert!(AudioError::NoDevice("none".to_string()).is_fatal());
    assert!(AudioError::StreamConfigError("bad".to_string()).is_fatal());
}
