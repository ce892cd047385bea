//! The setup of a decoder, and the ways of bitstreams through it.
use shiguredo_vpl::decode::DecodeStart;
use shiguredo_vpl::decode::DrainProgress;
use shiguredo_vpl::decode::FeedCall;
use shiguredo_vpl::decode::FeedProgress;
use shiguredo_vpl::decode::FeedReply;
use shiguredo_vpl::decode::QueueInput;
use shiguredo_vpl::param::VideoParam;
use shiguredo_vpl::sys;
use shiguredo_vpl::AdapterSelector;
use shiguredo_vpl::Decoder;
use shiguredo_vpl::DecoderCodec;
use shiguredo_vpl::DecoderConfig;
use shiguredo_vpl::Error;

const NONE: i32 = sys::MFX_ERR_NONE;

fn decoder() -> Decoder {
    let config = DecoderConfig::new(AdapterSelector::DrmRenderNode(128), DecoderCodec::Hevc);
    assert_eq!(config.async_depth, None);
    let (plan, _, _) = Decoder::new(&config).expect("the adapter is fine");
    plan.started(None).expect("started")
}

fn reply(status: i32, sync_point: usize, surface: usize, data_length: u32) -> FeedReply {
    FeedReply {
        status,
        sync_point,
        surface,
        data_length,
        accepted: true,
    }
}

fn accepted() -> FeedReply {
    reply(NONE, 0, 0, 0)
}

fn refused() -> FeedReply {
    FeedReply {
        accepted: false,
        ..accepted()
    }
}

/// A decoder that is open, with its first input to be queued.
fn opened() -> (Decoder, QueueInput<char>) {
    let mut decoder = decoder();
    let input = match decoder.decode(&[1, 2, 3], 'a') {
        Ok(DecodeStart::Header(run, block)) => {
            let (run, _) = run.parsed(NONE, block, 3).expect("parsed");
            run.initialized(&mut decoder, NONE).expect("initialised")
        }
        other => panic!("unexpected {other:?}"),
    };
    (decoder, input)
}

#[test]
fn codec_identifiers_of_decoders() {
    assert_eq!(DecoderCodec::H264.codec_id(), sys::MFX_CODEC_AVC);
    assert_eq!(DecoderCodec::Hevc.codec_id(), sys::MFX_CODEC_HEVC);
    assert_eq!(DecoderCodec::Vp9.codec_id(), sys::MFX_CODEC_VP9);
    assert_eq!(DecoderCodec::Av1.codec_id(), sys::MFX_CODEC_AV1);
}

#[test]
fn a_worker_that_does_not_start() {
    let config = DecoderConfig::new(AdapterSelector::DrmRenderNode(128), DecoderCodec::H264);
    let (plan, _, _) = Decoder::new(&config).expect("the adapter is fine");
    let error = plan.started(Some("no threads".to_string())).expect_err("not started");
    assert_eq!(
        error.to_string(),
        "Decoder::new() failed: failed to spawn sync worker thread: no threads"
    );
}

#[test]
fn the_first_bitstream_opens_the_decoder() {
    let mut decoder = decoder();
    assert!(!decoder.is_initialized());
    let (run, block) = match decoder.decode(&[1, 2, 3], 'a') {
        Ok(DecodeStart::Header(run, block)) => (run, block),
        other => panic!("unexpected {other:?}"),
    };
    let mut expected = VideoParam::zeroed();
    expected.io_pattern = 0x20;
    expected.async_depth = 4;
    expected.codec_id = sys::MFX_CODEC_HEVC;
    expected.frame_info.fourcc = sys::MFX_FOURCC_NV12;
    expected.frame_info.chroma_format = 1;
    expected.frame_info.pic_struct = 1;
    assert_eq!(block, expected);
    let mut header = block;
    header.frame_info.width = 320;
    header.frame_info.crop_y = 8;
    header.codec_level = 93;
    // MaxDecFrameBuffering of a decoder.
    header.idr_interval = 6;
    let (run, block) = run.parsed(NONE, header, 2).expect("parsed");
    assert_eq!(block, header, "initialised with what the header says");
    let input = run
        .initialized(&mut decoder, sys::MFX_WRN_PARTIAL_ACCELERATION)
        .expect("a warning is fine");
    assert!(decoder.is_initialized());
    assert_eq!(input.frame_seq, 0);
    assert_eq!(input.user_data, 'a');
    assert!(matches!(
        input.run.step(&mut decoder, accepted()),
        FeedProgress::Call(_, FeedCall::Submit)
    ));
    match decoder.decode(&[4], 'b') {
        Ok(DecodeStart::Queue(input)) => {
            assert_eq!(input.frame_seq, 1);
            assert_eq!(input.user_data, 'b');
        }
        other => panic!("unexpected {other:?}"),
    }
}

#[test]
fn a_configured_async_depth() {
    let mut config = DecoderConfig::new(AdapterSelector::DrmRenderNode(128), DecoderCodec::Vp9);
    config.async_depth = Some(1);
    let (plan, _, _) = Decoder::new(&config).expect("the adapter is fine");
    let decoder = plan.started(None).expect("started");
    match decoder.decode(&[1], ()) {
        Ok(DecodeStart::Header(_, block)) => assert_eq!(block.async_depth, 1),
        other => panic!("unexpected {other:?}"),
    }
}

#[test]
fn a_decoder_that_cannot_be_opened() {
    let mut decoder = decoder();
    let header = |decoder: &Decoder| match decoder.decode(&[1], ()) {
        Ok(DecodeStart::Header(run, block)) => (run, block),
        other => panic!("unexpected {other:?}"),
    };
    let (run, block) = header(&decoder);
    let error = run.parsed(sys::MFX_ERR_MORE_DATA, block, 0).expect_err("no header");
    assert_eq!(error.function(), "MFXVideoDECODE_DecodeHeader");
    let (run, block) = header(&decoder);
    let (run, _) = run.parsed(NONE, block, 1).expect("parsed");
    let error = run
        .initialized(&mut decoder, sys::MFX_ERR_UNSUPPORTED)
        .expect_err("not initialised");
    assert_eq!(error.function(), "MFXVideoDECODE_Init");
    assert!(!decoder.is_initialized());
    assert!(decoder.finish().is_none(), "there is nothing to flush");
}

#[test]
fn outputs_go_to_the_worker_until_the_bitstream_is_used_up() {
    let (mut decoder, input) = opened();
    let mut replies = vec![
        accepted(),
        reply(NONE, 11, 0x100, 2),
        accepted(),
        // A warning without an output.
        reply(sys::MFX_WRN_VIDEO_PARAM_CHANGED, 0, 0, 1),
        reply(sys::MFX_ERR_MORE_SURFACE, 0, 0, 1),
        accepted(),
        reply(sys::MFX_WRN_VIDEO_PARAM_CHANGED, 12, 0x200, 0),
        accepted(),
    ];
    replies.reverse();
    let mut calls = Vec::new();
    let mut at = input.run;
    loop {
        let reply = replies.pop().expect("it ends in time");
        match at.step(&mut decoder, reply) {
            FeedProgress::Call(run, call) => {
                calls.push(call);
                at = run;
            }
            FeedProgress::Done => break,
            FeedProgress::Failed(error, _) => panic!("{}", error.to_string()),
        }
    }
    assert!(replies.is_empty());
    assert_eq!(
        calls,
        vec![
            FeedCall::Submit,
            FeedCall::Sync {
                sync_point: 11,
                surface: 0x100
            },
            FeedCall::Submit,
            FeedCall::Submit,
            FeedCall::Wait,
            FeedCall::Submit,
            FeedCall::Sync {
                sync_point: 12,
                surface: 0x200
            },
        ]
    );
}

fn outcome(decoder: &mut Decoder, input: QueueInput<char>, replies: &[FeedReply]) -> Result<(), Error> {
    let mut at = input.run;
    for reply in replies {
        match at.step(decoder, *reply) {
            FeedProgress::Call(run, _) => at = run,
            FeedProgress::Done => return Ok(()),
            FeedProgress::Failed(error, _) => return Err(error),
        }
    }
    panic!("not at an end");
}

#[test]
fn decoding_fails() {
    let text = |replies: &[FeedReply]| {
        let (mut decoder, input) = opened();
        outcome(&mut decoder, input, replies).expect_err("it fails").to_string()
    };
    let gone = "Decoder::decode() failed: sync worker thread is not running";
    assert_eq!(text(&[refused()]), gone);
    assert_eq!(
        text(&[accepted(), reply(NONE, 1, 0x10, 1), refused()]),
        gone
    );
    assert_eq!(
        text(&[accepted(), reply(NONE, 1, 0, 1)]),
        "FrameSurface::new() failed: surface pointer is null"
    );
    assert_eq!(
        text(&[accepted(), reply(sys::MFX_ERR_DEVICE_FAILED, 0, 0, 1)]),
        Error::from_mfx(sys::MFX_ERR_DEVICE_FAILED, "MFXVideoDECODE_DecodeFrameAsync").to_string()
    );
    let retried = |status: i32| {
        let mut replies = vec![accepted()];
        for _ in 0..30 {
            replies.push(reply(status, 0, 0, 1));
            replies.push(accepted());
        }
        text(&replies)
    };
    assert_eq!(
        retried(sys::MFX_WRN_DEVICE_BUSY),
        "MFXVideoDECODE_DecodeFrameAsync() failed: device busy after max retries"
    );
    assert_eq!(
        retried(sys::MFX_ERR_MORE_SURFACE),
        "MFXVideoDECODE_DecodeFrameAsync() failed: more surface after max retries"
    );
}

#[test]
fn a_sequence_number_is_not_given_out_again() {
    let (mut decoder, input) = opened();
    assert_eq!(input.frame_seq, 0);
    let failed = [accepted(), reply(sys::MFX_ERR_UNKNOWN, 0, 0, 1)];
    assert!(outcome(&mut decoder, input, &failed).is_err());
    let Ok(DecodeStart::Queue(input)) = decoder.decode(&[1], 'b') else {
        panic!("the decoder is open");
    };
    assert_eq!(input.frame_seq, 1);
    // One that was not queued is.
    assert!(outcome(&mut decoder, input, &[refused()]).is_err());
    let Ok(DecodeStart::Queue(input)) = decoder.decode(&[], 'c') else {
        panic!("the decoder is open");
    };
    assert_eq!(input.frame_seq, 1);
    // An empty bitstream is queued and not submitted.
    assert!(outcome(&mut decoder, input, &[accepted()]).is_ok());
}

#[test]
fn an_untaken_output_is_given_back() {
    let (mut decoder, input) = opened();
    let FeedProgress::Call(run, _) = input.run.step(&mut decoder, accepted()) else {
        panic!("there is something to decode");
    };
    let FeedProgress::Call(run, _) = run.step(&mut decoder, reply(NONE, 1, 0x30, 0)) else {
        panic!("there is an output");
    };
    match run.step(&mut decoder, refused()) {
        FeedProgress::Failed(_, Some(surface)) => assert_eq!(surface.as_ptr(), 0x30),
        other => panic!("unexpected {other:?}"),
    }
}

#[test]
fn flushing_a_decoder() {
    let (decoder, _) = opened();
    let (run, call) = decoder.finish().expect("the decoder is open");
    assert_eq!(call, FeedCall::Submit);
    let mut replies = vec![
        reply(NONE, 1, 0x10, 0),
        accepted(),
        reply(sys::MFX_WRN_ALLOC_TIMEOUT_EXPIRED, 0, 0, 0),
        accepted(),
        reply(sys::MFX_WRN_DEVICE_BUSY, 0, 0, 0),
        accepted(),
        reply(NONE, 2, 0x20, 0),
        accepted(),
        reply(sys::MFX_ERR_MORE_DATA, 0, 0, 0),
    ];
    replies.reverse();
    let mut handed = Vec::new();
    let mut waits = 0;
    let mut at = run;
    while let Some(reply) = replies.pop() {
        match at.step(reply) {
            DrainProgress::Call(run, call) => {
                at = run;
                match call {
                    FeedCall::Sync { sync_point, .. } => handed.push(sync_point),
                    FeedCall::Wait => waits += 1,
                    FeedCall::Submit => {}
                }
            }
            DrainProgress::WaitIdle => {
                assert!(replies.is_empty());
                assert_eq!(handed, vec![1, 2]);
                assert_eq!(waits, 2);
                assert!(decoder.finish_idle(true, Some(Ok(()))).is_ok());
                return;
            }
            DrainProgress::Failed(error, _) => panic!("{}", error.to_string()),
        }
    }
    panic!("not at an end");
}

#[test]
fn flushing_a_decoder_fails() {
    let (decoder, _) = opened();
    let text = |replies: &[FeedReply]| {
        let (run, _) = decoder.finish().expect("the decoder is open");
        let mut at = run;
        for reply in replies {
            match at.step(*reply) {
                DrainProgress::Call(run, _) => at = run,
                DrainProgress::WaitIdle => panic!("it does not fail"),
                DrainProgress::Failed(error, _) => return error.to_string(),
            }
        }
        panic!("not at an end");
    };
    assert_eq!(
        text(&[reply(NONE, 1, 0x10, 0), refused()]),
        "Decoder::finish() failed: sync worker thread is not running"
    );
    assert_eq!(
        text(&[reply(NONE, 1, 0, 0)]),
        "FrameSurface::new() failed: surface pointer is null"
    );
    let mut busy = Vec::new();
    for _ in 0..30 {
        busy.push(reply(sys::MFX_WRN_DEVICE_BUSY, 0, 0, 0));
        busy.push(accepted());
    }
    assert_eq!(
        text(&busy),
        "MFXVideoDECODE_DecodeFrameAsync() failed: device busy after max retries"
    );
    assert_eq!(
        decoder.finish_idle(false, None).expect_err("not taken").to_string(),
        "Decoder::finish() failed: sync worker thread is not running"
    );
    assert_eq!(
        decoder.finish_idle(true, None).expect_err("no answer").to_string(),
        "Decoder::finish() failed: sync worker thread stopped unexpectedly"
    );
}

#[test]
fn numbers_ascend_over_any_calls() {
    let (mut decoder, input) = opened();
    let mut queued = vec![input.frame_seq];
    assert!(outcome(&mut decoder, input, &[accepted(), reply(sys::MFX_ERR_MORE_DATA, 0, 0, 0)]).is_ok());
    let calls: [&[FeedReply]; 5] = [
        &[accepted(), reply(sys::MFX_ERR_UNKNOWN, 0, 0, 1)],
        &[refused()],
        &[accepted(), reply(NONE, 1, 0x10, 0), accepted()],
        &[accepted(), reply(NONE, 1, 0x10, 0), refused()],
        &[accepted(), reply(NONE, 0, 0, 0)],
    ];
    for replies in calls {
        let Ok(DecodeStart::Queue(input)) = decoder.decode(&[1], 'x') else {
            panic!("the decoder is open");
        };
        if replies[0].accepted {
            queued.push(input.frame_seq);
        }
        let _ = outcome(&mut decoder, input, replies);
    }
    assert_eq!(queued, vec![0, 1, 2, 3, 4]);
}
