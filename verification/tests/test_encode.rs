//! The setup of an encoder, and the ways of frames through it.
use std::collections::VecDeque;

use shiguredo_vpl::encode::DriverReply;
use shiguredo_vpl::encode::EncodeCall;
use shiguredo_vpl::encode::EncodeProgress;
use shiguredo_vpl::encode::EncodeRun;
use shiguredo_vpl::encode::EncoderPlan;
use shiguredo_vpl::encode::FinishCall;
use shiguredo_vpl::encode::FinishProgress;
use shiguredo_vpl::encode::FinishRun;
use shiguredo_vpl::encode::QueueProgress;
use shiguredo_vpl::encode::DEVICE_BUSY_MAX_RETRIES;
use shiguredo_vpl::encode_worker::run_sync_worker;
use shiguredo_vpl::encode_worker::PendingFrame;
use shiguredo_vpl::encode_worker::SyncData;
use shiguredo_vpl::encode_worker::WorkerCommand;
use shiguredo_vpl::frame_type;
use shiguredo_vpl::loader::LoaderCall;
use shiguredo_vpl::sys;
use shiguredo_vpl::vpl::SurfaceCall;
use shiguredo_vpl::AdapterSelector;
use shiguredo_vpl::CodecConfig;
use shiguredo_vpl::EncodeOptions;
use shiguredo_vpl::Encoder;
use shiguredo_vpl::EncoderConfig;
use shiguredo_vpl::EncoderStats;
use shiguredo_vpl::Error;
use shiguredo_vpl::FrameFormat;
use shiguredo_vpl::H264EncoderConfig;
use shiguredo_vpl::RateControlMode;
use shiguredo_vpl::ReconfigureParams;
use shiguredo_vpl::Vp9EncoderConfig;

const NONE: i32 = sys::MFX_ERR_NONE;

fn config(codec: CodecConfig) -> EncoderConfig {
    EncoderConfig::new(
        AdapterSelector::DrmRenderNode(128),
        codec,
        32,
        16,
        FrameFormat::Nv12,
        30000,
        1001,
        RateControlMode::Cbr,
    )
}

fn h264() -> CodecConfig {
    CodecConfig::H264(H264EncoderConfig { profile: None })
}

fn vp9(write_ivf_headers: bool) -> CodecConfig {
    CodecConfig::Vp9(Vp9EncoderConfig {
        profile: None,
        write_ivf_headers,
    })
}

fn plan(codec: CodecConfig) -> EncoderPlan {
    let (plan, setup, call) = Encoder::new(&config(codec)).expect("the settings are fine");
    assert_eq!(setup.render_node, 128);
    assert_eq!(call, LoaderCall::Load);
    plan
}

fn encoder() -> Encoder {
    let plan = plan(h264());
    let param = plan.init_param();
    let (reading, block) = plan.initialized(NONE, param).expect("initialised");
    let ready = reading.read_back(NONE, block).expect("read back");
    ready.started(None).expect("started")
}

fn options() -> EncodeOptions {
    EncodeOptions { frame_type: 0 }
}

fn reply(status: i32, handle: usize) -> DriverReply {
    DriverReply {
        status,
        handle,
        accepted: true,
    }
}

#[test]
fn setup_reads_back_what_the_device_uses() {
    let plan = plan(h264());
    let mut param = plan.init_param();
    assert_eq!(param.frame_info.width, 32);
    assert_eq!(param.write_ivf_headers, None);
    // Initialisation changes the block and warns.
    param.qvbr_quality = Some(1);
    let (reading, mut block) = plan
        .initialized(sys::MFX_WRN_INCOMPATIBLE_VIDEO_PARAM, param)
        .expect("a warning is fine");
    assert_eq!(block.qvbr_quality, None, "extensions are detached");
    block.frame_info.width = 64;
    block.frame_info.height = 48;
    let ready = reading.read_back(NONE, block).expect("read back");
    let encoder = ready.started(None).expect("started");
    assert_eq!(encoder.coded_size(), (64, 48));
    assert!(!encoder.write_ivf_headers());
    // Two KB are enough for 32 by 16 pixels.
    assert_eq!(encoder.create_bitstream(), vec![0u8; 2048]);
}

#[test]
fn setup_failures_say_whether_to_close() {
    let failed = plan(h264()).initialized(sys::MFX_ERR_INVALID_VIDEO_PARAM, plan(h264()).init_param());
    let failure = failed.expect_err("not initialised");
    assert_eq!(failure.error.function(), "MFXVideoENCODE_Init");
    assert!(!failure.close);

    let p = plan(h264());
    let param = p.init_param();
    let (reading, block) = p.initialized(NONE, param).expect("initialised");
    let failure = reading.read_back(sys::MFX_ERR_UNKNOWN, block).expect_err("not read");
    assert_eq!(failure.error.function(), "MFXVideoENCODE_GetVideoParam");
    assert!(failure.close);

    let p = plan(h264());
    let (reading, block) = p.initialized(NONE, param).expect("initialised");
    let ready = reading.read_back(NONE, block).expect("read back");
    let failure = ready.started(Some("no threads".to_string())).expect_err("not started");
    assert_eq!(
        failure.error.to_string(),
        "Encoder::new() failed: failed to spawn sync worker thread: no threads"
    );
    assert!(failure.close);
}

#[test]
fn vp9_headers_have_to_be_confirmed() {
    for asked in [true, false] {
        let p = plan(vp9(asked));
        let param = p.init_param();
        let (reading, mut block) = p.initialized(NONE, param).expect("initialised");
        assert_eq!(block.write_ivf_headers, Some(0));
        block.write_ivf_headers = param.write_ivf_headers;
        let ready = reading.read_back(NONE, block).expect("confirmed");
        assert_eq!(ready.started(None).expect("started").write_ivf_headers(), asked);
    }
    let p = plan(vp9(false));
    let param = p.init_param();
    let (reading, mut block) = p.initialized(NONE, param).expect("initialised");
    block.write_ivf_headers = Some(sys::MFX_CODINGOPTION_ON);
    let failure = reading.read_back(NONE, block).expect_err("not what was asked for");
    assert_eq!(
        failure.error.status_message(),
        Some(
            "VP9 WriteIVFHeaders mismatch: requested MFX_CODINGOPTION_OFF but got \
             MFX_CODINGOPTION_ON"
        )
    );
    assert!(failure.close);
    let p = plan(vp9(true));
    let (reading, block) = p.initialized(NONE, p_param()).expect("initialised");
    let failure = reading.read_back(NONE, block).expect_err("not written back");
    assert_eq!(
        failure.error.status_message(),
        Some(
            "VP9 WriteIVFHeaders mismatch: requested MFX_CODINGOPTION_ON but got \
             MFX_CODINGOPTION_UNKNOWN"
        )
    );
}

fn p_param() -> shiguredo_vpl::param::VideoParam {
    plan(vp9(true)).init_param()
}

#[test]
fn reconfiguration() {
    let mut encoder = encoder();
    let block = encoder
        .reconfigure(ReconfigureParams {
            target_kbps: Some(4000),
            max_kbps: None,
            framerate_num: Some(60),
            framerate_den: Some(2),
        })
        .expect("accepted");
    assert_eq!(block.target_kbps, 4000);
    assert_eq!(block.frame_info.frame_rate_ext_n, 60);
    assert_eq!(block.frame_info.frame_rate_ext_d, 2);
    assert_eq!(block.codec_id, sys::MFX_CODEC_AVC);
    encoder
        .finish_reconfigure(sys::MFX_WRN_VIDEO_PARAM_CHANGED, block)
        .expect("a warning is fine");
    let error = encoder
        .finish_reconfigure(sys::MFX_ERR_INVALID_VIDEO_PARAM, block)
        .expect_err("an error");
    assert_eq!(error.function(), "MFXVideoENCODE_Reset");
    let zero = ReconfigureParams {
        framerate_den: Some(0),
        ..ReconfigureParams::default()
    };
    let error = encoder.reconfigure(zero).expect_err("zero is refused");
    assert_eq!(
        error.to_string(),
        "Encoder::reconfigure() failed: framerate_den must be non-zero"
    );
    let same = encoder.reconfigure(ReconfigureParams::default()).expect("nothing changes");
    assert_eq!(same, block);
}

#[test]
fn queries() {
    let encoder = encoder();
    assert!(encoder.query(sys::MFX_WRN_INCOMPATIBLE_VIDEO_PARAM).is_ok());
    let error = encoder.query(sys::MFX_ERR_UNSUPPORTED).expect_err("unsupported");
    assert_eq!(error.function(), "MFXVideoENCODE_Query");

    let request = encoder.video_param_request();
    assert_eq!(request.io_pattern, 2);
    assert_eq!(request.codec_id, 0);
    let got = encoder.get_video_param(NONE, request).expect("read");
    assert_eq!(got, request);
    let error = encoder.get_video_param(-1, request).expect_err("not read");
    assert_eq!(error.function(), "MFXVideoENCODE_GetVideoParam");

    let stat = EncoderStats {
        num_frame: 3,
        num_bit: 4,
        num_cached_frame: 5,
    };
    let got = encoder.get_encode_stat(NONE, stat.clone()).expect("read");
    assert_eq!((got.num_frame, got.num_bit, got.num_cached_frame), (3, 4, 5));
    let error = encoder.get_encode_stat(-1, stat).expect_err("not read");
    assert_eq!(error.function(), "MFXVideoENCODE_GetEncodeStat");
}

#[test]
fn frames_that_are_too_small() {
    let encoder = encoder();
    let error = encoder.encode(&[0u8; 767], (), &options()).expect_err("too small");
    assert_eq!(
        error.to_string(),
        "Encoder::encode() failed: frame data is too small for coded size 32x16 (got 767, need at \
         least 768)"
    );
    assert!(encoder.encode(&[0u8; 768], (), &options()).is_ok());
    assert!(encoder.encode(&[0u8; 800], (), &options()).is_ok());
}

/// Steps through replies; panics if the run ends before they do.
fn drive(run: EncodeRun<char>, replies: &[DriverReply]) -> (EncodeRun<char>, EncodeCall) {
    let mut at = (run, EncodeCall::GetSurface);
    for reply in replies {
        match at.0.step(*reply) {
            EncodeProgress::Call(run, call) => at = (run, call),
            other => panic!("ended with {other:?}"),
        }
    }
    at
}

fn start(encoder: &Encoder, frame_type: u16) -> EncodeRun<char> {
    let options = EncodeOptions { frame_type };
    let (run, call) = encoder.encode(&[0u8; 768], 'u', &options).expect("accepted");
    assert_eq!(call, EncodeCall::GetSurface);
    run
}

/// Replies up to the first submission.
fn filled() -> Vec<DriverReply> {
    vec![reply(NONE, 0x40), reply(NONE, 0), reply(NONE, 0), reply(NONE, 0)]
}

#[test]
fn the_way_of_a_frame() {
    let mut encoder = encoder();
    encoder.frame_accepted().expect("counted");
    encoder.frame_accepted().expect("counted");
    let run = start(&encoder, 0);
    let (run, call) = drive(run, &[reply(NONE, 0x40)]);
    assert_eq!(
        call,
        EncodeCall::Surface(SurfaceCall::MapPlanes {
            surface: 0x40,
            flags: 2
        })
    );
    let (run, call) = drive(run, &[reply(NONE, 0)]);
    assert_eq!(
        call,
        EncodeCall::Fill {
            surface: 0x40,
            time_stamp: 2
        }
    );
    let (run, call) = drive(run, &[reply(NONE, 0)]);
    assert_eq!(
        call,
        EncodeCall::Surface(SurfaceCall::Unmap { surface: 0x40 })
    );
    let (run, call) = drive(run, &[reply(NONE, 0)]);
    assert_eq!(
        call,
        EncodeCall::Submit {
            surface: 0x40,
            frame_type: None
        }
    );
    let EncodeProgress::Queue(queue, frame_seq, frame) = run.step(reply(NONE, 9)) else {
        panic!("the frame was taken");
    };
    assert_eq!(frame_seq, 2);
    assert_eq!(frame.presentation_timestamp, 2002);
    assert_eq!(frame.user_data, 'u');
    let QueueProgress::Sync(sync, sync_point) = queue.queued(true) else {
        panic!("there is an output");
    };
    assert_eq!(sync_point, 9);
    let QueueProgress::Accepted(surface) = sync.sent(true) else {
        panic!("the worker is there");
    };
    assert_eq!(
        surface.give_back(),
        vec![SurfaceCall::Release { surface: 0x40 }]
    );
}

#[test]
fn a_frame_without_output_is_queued_all_the_same() {
    let encoder = encoder();
    let (run, call) = drive(start(&encoder, frame_type::IDR), &filled());
    assert_eq!(
        call,
        EncodeCall::Submit {
            surface: 0x40,
            frame_type: Some(frame_type::IDR)
        }
    );
    let EncodeProgress::Queue(queue, _, _) = run.step(reply(sys::MFX_ERR_MORE_DATA, 0)) else {
        panic!("the frame was taken");
    };
    assert!(matches!(queue.queued(true), QueueProgress::Accepted(_)));
}

#[test]
fn a_busy_device_is_tried_thirty_times() {
    let encoder = encoder();
    let mut at = drive(start(&encoder, 0), &filled());
    let mut submissions = 0;
    let error = loop {
        let status = match at.1 {
            EncodeCall::Submit { .. } => {
                submissions += 1;
                sys::MFX_WRN_DEVICE_BUSY
            }
            EncodeCall::Wait => NONE,
            other => panic!("unexpected {other:?}"),
        };
        match at.0.step(reply(status, 0)) {
            EncodeProgress::Call(run, call) => at = (run, call),
            EncodeProgress::Failed(error, surface) => {
                assert!(surface.is_some());
                break error;
            }
            other => panic!("unexpected {other:?}"),
        }
    };
    assert_eq!(submissions, DEVICE_BUSY_MAX_RETRIES);
    assert_eq!(
        error.to_string(),
        "MFXVideoENCODE_EncodeFrameAsync() failed: device busy after max retries"
    );

    // It may become free at the last time.
    let mut replies = filled();
    for _ in 0..29 {
        replies.push(reply(sys::MFX_WRN_DEVICE_BUSY, 0));
        replies.push(reply(NONE, 0));
    }
    let (run, _) = drive(start(&encoder, 0), &replies);
    assert!(matches!(run.step(reply(NONE, 1)), EncodeProgress::Queue(..)));
}

fn failure(encoder: &Encoder, before: usize, last: DriverReply) -> (Error, Vec<SurfaceCall>) {
    let (run, _) = drive(start(encoder, 0), &filled()[..before]);
    match run.step(last) {
        EncodeProgress::Failed(error, surface) => (
            error,
            surface.map_or(Vec::new(), |surface| surface.give_back()),
        ),
        other => panic!("unexpected {other:?}"),
    }
}

#[test]
fn failures_on_the_way_give_the_surface_back() {
    let encoder = encoder();
    let release = SurfaceCall::Release { surface: 0x40 };
    let unmap = SurfaceCall::Unmap { surface: 0x40 };
    let (error, calls) = failure(&encoder, 0, reply(sys::MFX_ERR_MEMORY_ALLOC, 0));
    assert_eq!(error.function(), "MFXMemory_GetSurfaceForEncode");
    assert!(calls.is_empty());
    let (error, calls) = failure(&encoder, 0, reply(NONE, 0));
    assert_eq!(error.function(), "FrameSurface::new");
    assert!(calls.is_empty());
    let (error, calls) = failure(&encoder, 1, reply(sys::MFX_ERR_LOCK_MEMORY, 0));
    assert_eq!(error.function(), "mfxFrameSurfaceInterface::Map");
    assert_eq!(calls, vec![release]);
    let (error, calls) = failure(&encoder, 3, reply(sys::MFX_ERR_UNKNOWN, 0));
    assert_eq!(error.function(), "mfxFrameSurfaceInterface::Unmap");
    assert_eq!(calls, vec![unmap, release]);
    let (error, calls) = failure(&encoder, 4, reply(sys::MFX_ERR_DEVICE_FAILED, 0));
    assert_eq!(error.function(), "MFXVideoENCODE_EncodeFrameAsync");
    assert_eq!(error.status_code(), Some(sys::MFX_ERR_DEVICE_FAILED));
    assert_eq!(calls, vec![release]);
}

#[test]
fn a_missing_worker() {
    let encoder = encoder();
    let text = "Encoder::encode() failed: sync worker thread is not running";
    let queue = || {
        let (run, _) = drive(start(&encoder, 0), &filled());
        match run.step(reply(NONE, 1)) {
            EncodeProgress::Queue(queue, _, _) => queue,
            other => panic!("unexpected {other:?}"),
        }
    };
    match queue().queued(false) {
        QueueProgress::Failed(error, surface) => {
            assert_eq!(error.to_string(), text);
            assert_eq!(surface.as_ptr(), 0x40);
        }
        other => panic!("unexpected {other:?}"),
    }
    match queue().queued(true) {
        QueueProgress::Sync(sync, _) => match sync.sent(false) {
            QueueProgress::Failed(error, _) => assert_eq!(error.to_string(), text),
            other => panic!("unexpected {other:?}"),
        },
        other => panic!("unexpected {other:?}"),
    }
    let error = encoder.finish_idle(false, None).expect_err("not taken");
    assert_eq!(
        error.to_string(),
        "Encoder::finish() failed: sync worker thread is not running"
    );
    let error = encoder.finish_idle(true, None).expect_err("no answer");
    assert_eq!(
        error.to_string(),
        "Encoder::finish() failed: sync worker thread stopped unexpectedly"
    );
    assert!(encoder.finish_idle(true, Some(Ok(()))).is_ok());
    let answer = Some(Err(Error::new_custom("f", "m")));
    assert_eq!(
        encoder.finish_idle(true, answer).expect_err("the answer").to_string(),
        "f() failed: m"
    );
}

#[test]
fn flushing_draws_every_output() {
    let encoder = encoder();
    let (run, call) = encoder.finish();
    assert_eq!((run, call), (FinishRun::Submit(0), FinishCall::Submit));
    let mut outputs = vec![3usize, 2, 1];
    let mut handed = Vec::new();
    let mut at = (run, call);
    loop {
        let reply = match at.1 {
            FinishCall::Submit => match outputs.pop() {
                Some(output) => reply(NONE, output),
                None => reply(sys::MFX_ERR_MORE_DATA, 0),
            },
            FinishCall::Wait => reply(NONE, 0),
            FinishCall::Sync { sync_point } => {
                handed.push(sync_point);
                reply(NONE, 0)
            }
        };
        match at.0.step(reply) {
            FinishProgress::Call(run, call) => at = (run, call),
            FinishProgress::WaitIdle => break,
            FinishProgress::Failed(error) => panic!("{}", error.to_string()),
        }
    }
    assert_eq!(handed, vec![1, 2, 3]);
}

#[test]
fn flushing_fails() {
    let text = |progress: FinishProgress| match progress {
        FinishProgress::Failed(error) => error.to_string(),
        other => panic!("unexpected {other:?}"),
    };
    assert_eq!(
        text(FinishRun::Wait(29).step(reply(NONE, 0))),
        "MFXVideoENCODE_EncodeFrameAsync() failed: device busy after max retries"
    );
    assert!(matches!(
        FinishRun::Wait(28).step(reply(NONE, 0)),
        FinishProgress::Call(FinishRun::Submit(29), FinishCall::Submit)
    ));
    assert!(matches!(
        FinishRun::Submit(3).step(reply(sys::MFX_WRN_DEVICE_BUSY, 0)),
        FinishProgress::Call(FinishRun::Wait(3), FinishCall::Wait)
    ));
    let gone = DriverReply {
        status: NONE,
        handle: 0,
        accepted: false,
    };
    assert_eq!(
        text(FinishRun::Sync.step(gone)),
        "Encoder::finish() failed: sync worker thread is not running"
    );
    assert_eq!(
        text(FinishRun::Submit(0).step(reply(sys::MFX_ERR_DEVICE_LOST, 0))),
        Error::from_mfx(sys::MFX_ERR_DEVICE_LOST, "MFXVideoENCODE_EncodeFrameAsync").to_string()
    );
}

#[test]
fn members_that_the_device_filled_go_through() {
    let plan = plan(h264());
    let (reading, mut block) = plan.initialized(NONE, p_param()).expect("initialised");
    block.codec_level = 41;
    block.num_thread = 3;
    block.encoded_order = 1;
    block.protected = 5;
    block.alloc_id = 6;
    block.frame_info.shift = 1;
    block.frame_info.crop_x = 2;
    block.frame_info.crop_y = 4;
    block.frame_info.temporal_id = 7;
    block.frame_info.priority_id = 8;
    block.frame_info.dependency_id = 9;
    block.frame_info.quality_id = 10;
    let ready = reading.read_back(NONE, block).expect("read back");
    let mut encoder = ready.started(None).expect("started");
    assert_eq!(encoder.get_video_param(NONE, block).expect("read"), block);
    let mut expected = block;
    expected.target_kbps = 700;
    let reset = encoder
        .reconfigure(ReconfigureParams {
            target_kbps: Some(700),
            ..ReconfigureParams::default()
        })
        .expect("accepted");
    assert_eq!(reset, expected);
}

/// Encodes a frame, whose output comes at once, and returns what the worker is told.
fn encode_one(encoder: &mut Encoder, user_data: char) -> (u64, PendingFrame<char>) {
    let (run, _) = encoder
        .encode(&[0u8; 768], user_data, &options())
        .expect("accepted");
    let (run, _) = drive(run, &filled());
    let EncodeProgress::Queue(queue, frame_seq, frame) = run.step(reply(NONE, 9)) else {
        panic!("the frame was taken");
    };
    let QueueProgress::Sync(sync, _) = queue.queued(true) else {
        panic!("there is an output");
    };
    assert!(matches!(sync.sent(true), QueueProgress::Accepted(_)));
    encoder.frame_accepted().expect("counted");
    (frame_seq, frame)
}

#[test]
fn frames_come_back_once_with_their_timestamps() {
    let mut encoder = encoder();
    let mut commands = VecDeque::new();
    for (k, user_data) in ['a', 'b', 'c', 'd'].into_iter().enumerate() {
        let (frame_seq, pending_frame) = encode_one(&mut encoder, user_data);
        assert_eq!(frame_seq, k as u64);
        commands.push_back(WorkerCommand::QueueFrame {
            frame_seq,
            pending_frame,
        });
        // A frame that the device does not take uses up no number.
        assert!(matches!(
            drive(start(&encoder, 0), &filled())
                .0
                .step(reply(sys::MFX_ERR_DEVICE_FAILED, 0)),
            EncodeProgress::Failed(_, Some(_))
        ));
    }
    for time_stamp in [2, 0, 3, 1] {
        commands.push_back(WorkerCommand::Sync(SyncData {
            sync_point: 9,
            status: NONE,
            data_offset: 0,
            data_length: 1,
            time_stamp,
            frame_type: frame_type::P,
            buffer: vec![time_stamp as u8],
        }));
    }
    commands.push_back(WorkerCommand::WaitIdle);
    let mut outs = run_sync_worker(commands);
    let end = outs.pop().expect("an answer to the barrier");
    assert!(matches!(end.reply, Some(Ok(()))));
    let got: Vec<(char, u64)> = outs
        .into_iter()
        .flat_map(|out| out.notices)
        .map(|notice| {
            let frame = notice.expect("a frame");
            (*frame.user_data(), frame.timestamp())
        })
        .collect();
    assert_eq!(got, vec![('c', 2002), ('a', 0), ('d', 3003), ('b', 1001)]);
}

#[test]
fn numbers_go_on_across_a_reconfiguration() {
    let mut encoder = encoder();
    let mut queued = Vec::new();
    let set = |encoder: &mut Encoder, framerate_den: Option<u32>| {
        let params = ReconfigureParams {
            framerate_den,
            ..ReconfigureParams::default()
        };
        let block = encoder.reconfigure(params).expect("accepted");
        encoder.finish_reconfigure(NONE, block).expect("reset");
    };
    queued.push(encode_one(&mut encoder, 'a'));
    queued.push(encode_one(&mut encoder, 'b'));
    set(&mut encoder, Some(10));
    queued.push(encode_one(&mut encoder, 'c'));
    // Zero is refused, and nothing set changes nothing.
    let zero = ReconfigureParams {
        framerate_den: Some(0),
        ..ReconfigureParams::default()
    };
    assert!(encoder.reconfigure(zero).is_err());
    set(&mut encoder, None);
    queued.push(encode_one(&mut encoder, 'd'));
    let got: Vec<(u64, u64, char)> = queued
        .iter()
        .map(|(frame_seq, frame)| (*frame_seq, frame.presentation_timestamp, frame.user_data))
        .collect();
    assert_eq!(
        got,
        vec![(0, 0, 'a'), (1, 1001, 'b'), (2, 20, 'c'), (3, 30, 'd')]
    );
}
