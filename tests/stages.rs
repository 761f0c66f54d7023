use audio_pipeline::codec::{OPUS_BAD_ARG, OPUS_INVALID_PACKET};
use audio_pipeline::decoder::DecoderStage;
use audio_pipeline::encoder::EncoderStage;
use audio_pipeline::error::AudioError;
use audio_pipeline::queue::{BoundedQueue, PushOutcome};
use audio_pipeline::stage::{StageAction, StagePhase};

fn running_encoder() -> EncoderStage {
    let mut e = EncoderStage::new(48000, 1).unwrap();
    assert_eq!(e.start(0), Ok(()));
    e
}

fn running_decoder() -> DecoderStage {
    let mut d = DecoderStage::new(48000, 1).unwrap();
    assert_eq!(d.start(0), Ok(()));
    d
}

#[test]
fn encoder_reframes_before_calling_the_codec() {
    let mut e = running_encoder();
    let mut input: BoundedQueue<Vec<i16>> = BoundedQueue::new(16);
    assert_eq!(input.try_push(vec![1i16; 500]), PushOutcome::Accepted);
    assert_eq!(input.try_push(vec![2i16; 500]), PushOutcome::Accepted);
    assert!(matches!(e.next_action(false, &mut input), StageAction::Pulled));
    assert_eq!(e.calls(), 0);
    assert!(matches!(e.next_action(false, &mut input), StageAction::Pulled));
    assert_eq!(e.pending_len(), 1000);
    match e.next_action(false, &mut input) {
        StageAction::Run(frame) => {
            assert_eq!(frame.len(), 960);
            assert!(frame[..500].iter().all(|s| *s == 1));
            assert!(frame[500..].iter().all(|s| *s == 2));
        }
        _ => panic!("expected a frame"),
    }
    assert_eq!(e.calls(), 1);
    assert_eq!(e.pending_len(), 40);
    assert!(matches!(e.next_action(false, &mut input), StageAction::Backoff));
    assert_eq!(e.calls(), 1);
}

#[test]
fn encoder_makes_no_codec_call_after_stop() {
    let mut e = running_encoder();
    let mut input: BoundedQueue<Vec<i16>> = BoundedQueue::new(4);
    assert_eq!(input.try_push(vec![0i16; 960]), PushOutcome::Accepted);
    assert!(matches!(e.next_action(false, &mut input), StageAction::Pulled));
    let calls_at_stop = e.calls();
    assert_eq!(input.try_push(vec![0i16; 960]), PushOutcome::Accepted);
    assert!(matches!(e.next_action(true, &mut input), StageAction::Exit));
    assert_eq!(e.phase(), StagePhase::Stopped);
    assert_eq!(e.pending_len(), 0);
    assert!(input.is_empty());
    for _ in 0..5 {
        assert_eq!(input.try_push(vec![0i16; 960]), PushOutcome::Accepted);
        assert!(matches!(e.next_action(false, &mut input), StageAction::Exit));
    }
    assert_eq!(e.calls(), calls_at_stop);
    assert!(e.release());
    assert!(!e.release());
}

#[test]
fn encoder_that_failed_to_start_never_runs() {
    let mut e = EncoderStage::new(48000, 1).unwrap();
    assert_eq!(e.start(-3), Err(AudioError::CodecInitError(-3)));
    assert_eq!(e.phase(), StagePhase::Stopped);
    let mut input: BoundedQueue<Vec<i16>> = BoundedQueue::new(4);
    assert_eq!(input.try_push(vec![0i16; 960]), PushOutcome::Accepted);
    assert!(matches!(e.next_action(false, &mut input), StageAction::Exit));
    assert_eq!(e.calls(), 0);
    assert!(e.release());
    assert!(!e.release());
}

#[test]
fn encoder_refuses_unsupported_config() {
    assert!(matches!(
        EncoderStage::new(44100, 1),
        Err(AudioError::CodecInitError(OPUS_BAD_ARG))
    ));
    assert!(matches!(
        DecoderStage::new(48000, 5),
        Err(AudioError::CodecInitError(OPUS_BAD_ARG))
    ));
}

#[test]
fn encoder_finish_trims_and_forwards_packet() {
    let mut e = running_encoder();
    let mut out: BoundedQueue<Vec<u8>> = BoundedQueue::new(1);
    let buf: Vec<u8> = (0..20u8).collect();
    assert_eq!(e.finish(5, buf.clone(), &mut out), Ok(PushOutcome::Accepted));
    assert_eq!(e.encoded(), 1);
    assert_eq!(e.finish(3, buf.clone(), &mut out), Ok(PushOutcome::Dropped));
    assert_eq!(out.dropped(), 1);
    assert_eq!(out.try_pop(), Some(vec![0u8, 1, 2, 3, 4]));
    assert_eq!(e.finish(-2, buf.clone(), &mut out), Err(AudioError::OpusEncodeError(-2)));
    assert_eq!(e.failed(), 1);
    assert_eq!(e.encoded(), 2);
    assert!(out.is_empty());
    assert_eq!(e.phase(), StagePhase::Running);
}

#[test]
fn decoder_runs_packets_in_order() {
    let mut d = running_decoder();
    let mut input: BoundedQueue<Vec<u8>> = BoundedQueue::new(4);
    assert_eq!(input.try_push(vec![1, 2]), PushOutcome::Accepted);
    assert_eq!(input.try_push(vec![3]), PushOutcome::Accepted);
    match d.next_action(false, &mut input) {
        StageAction::Run(job) => {
            assert_eq!(job.packet, vec![1, 2]);
            assert_eq!(job.pcm.len(), 960);
        }
        _ => panic!("expected a packet"),
    }
    match d.next_action(false, &mut input) {
        StageAction::Run(job) => assert_eq!(job.packet, vec![3]),
        _ => panic!("expected a packet"),
    }
    assert!(matches!(d.next_action(false, &mut input), StageAction::Backoff));
    assert_eq!(d.calls(), 2);
}

#[test]
fn decoder_rejects_oversized_packet_and_goes_on() {
    let mut d = running_decoder();
    let mut input: BoundedQueue<Vec<u8>> = BoundedQueue::new(4);
    assert_eq!(input.try_push(vec![0u8; 2000]), PushOutcome::Accepted);
    assert_eq!(input.try_push(vec![9u8]), PushOutcome::Accepted);
    match d.next_action(false, &mut input) {
        StageAction::Rejected(e) => {
            assert_eq!(e, AudioError::OpusDecodeError(OPUS_INVALID_PACKET))
        }
        _ => panic!("expected a rejection"),
    }
    assert_eq!(d.failed(), 1);
    assert_eq!(d.calls(), 0);
    assert!(matches!(d.next_action(false, &mut input), StageAction::Run(_)));
    assert_eq!(d.phase(), StagePhase::Running);
}

#[test]
fn decoder_finish_forwards_whole_frames_only() {
    let mut d = running_decoder();
    let mut out: BoundedQueue<Vec<i16>> = BoundedQueue::new(2);
    assert_eq!(d.frame_len(), 960);
    assert_eq!(d.finish(960, vec![7i16; 960], &mut out), Ok(PushOutcome::Accepted));
    assert_eq!(d.finish(-4, vec![7i16; 960], &mut out), Err(AudioError::OpusDecodeError(-4)));
    assert_eq!(d.finish(960, vec![7i16; 10], &mut out), Err(AudioError::OpusDecodeError(OPUS_BAD_ARG)));
    assert_eq!(d.decoded(), 1);
    assert_eq!(d.failed(), 2);
    assert_eq!(out.len(), 1);
    assert_eq!(out.try_pop().unwrap().len(), 960);
}

#[test]
fn decoder_makes_no_codec_call_after_stop() {
    let mut d = running_decoder();
    let mut input: BoundedQueue<Vec<u8>> = BoundedQueue::new(4);
    assert_eq!(input.try_push(vec![1]), PushOutcome::Accepted);
    assert!(matches!(d.next_action(true, &mut input), StageAction::Exit));
    assert!(input.is_empty());
    assert_eq!(input.try_push(vec![1]), PushOutcome::Accepted);
    assert!(matches!(d.next_action(false, &mut input), StageAction::Exit));
    assert_eq!(d.calls(), 0);
    assert!(d.release());
    assert!(!d.release());
}

#[test]
fn decoder_that_failed_to_start_is_released_once() {
    let mut d = DecoderStage::new(48000, 1).unwrap();
    assert_eq!(d.start(-7), Err(AudioError::CodecInitError(-7)));
    assert_eq!(d.phase(), StagePhase::Stopped);
    assert_eq!(d.start(0), Err(AudioError::HandleInvalid));
    assert!(d.release());
    assert!(!d.release());
}

#[test]
fn stage_frame_length_follows_sample_rate() {
    let e = EncoderStage::new(16000, 2).unwrap();
    assert_eq!(e.frame_len(), 640);
    let d = DecoderStage::new(8000, 1).unwrap();
    assert_eq!(d.frame_len(), 160);
}
