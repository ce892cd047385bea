//! The workers that pair outputs with pending frames.
use std::collections::VecDeque;
use std::sync::mpsc;

use shiguredo_vpl::decode_worker;
use shiguredo_vpl::decode_worker::DecodeSyncData;
use shiguredo_vpl::decode_worker::SurfaceInfo;
use shiguredo_vpl::encode_worker;
use shiguredo_vpl::encode_worker::PendingFrame;
use shiguredo_vpl::encode_worker::SyncData;
use shiguredo_vpl::frame_type;
use shiguredo_vpl::pending::PendingFrameStore;
use shiguredo_vpl::sys;
use shiguredo_vpl::DecodeHandler;
use shiguredo_vpl::DecodedFrame;
use shiguredo_vpl::EncodeHandler;
use shiguredo_vpl::EncodedFrame;
use shiguredo_vpl::Error;
use shiguredo_vpl::FnDecodeHandler;
use shiguredo_vpl::FnEncodeHandler;
use shiguredo_vpl::PictureType;

fn make_pending(presentation_timestamp: u64, user_data: u32) -> PendingFrame<u32> {
    PendingFrame {
        presentation_timestamp,
        user_data,
    }
}

/// Feeds the commands to an encode worker and its notices to a handler; returns the answers to the
/// barriers.
fn run_encode_worker<H: EncodeHandler>(
    commands: Vec<encode_worker::WorkerCommand<H::UserData>>,
    handler: &mut H,
) -> Vec<Result<(), Error>> {
    let mut replies = Vec::new();
    for output in encode_worker::run_sync_worker(VecDeque::from(commands)) {
        for notice in output.notices {
            handler.on_encoded(notice.map_err(Into::into));
        }
        replies.extend(output.reply);
    }
    replies
}

/// Feeds the commands to a decode worker and its notices to a handler, with planes of zeros; returns
/// the answers to the barriers.
fn run_decode_worker<H: DecodeHandler>(
    commands: Vec<decode_worker::WorkerCommand<H::UserData>>,
    handler: &mut H,
) -> Vec<Result<(), Error>> {
    let mut replies = Vec::new();
    for output in decode_worker::run_sync_worker(VecDeque::from(commands)) {
        for notice in output.notices {
            match notice {
                Ok(decoded) => {
                    let y = vec![0u8; decoded.layout.y_size];
                    let uv = vec![0u8; decoded.layout.uv_size];
                    handler.on_decoded(Ok(DecodedFrame::from_planes(&y, &uv, decoded)));
                }
                Err(error) => handler.on_decoded(Err(error.into())),
            }
        }
        replies.extend(output.reply);
    }
    replies
}

#[test]
fn pending_frame_store_takes_by_frame_seq() {
    let mut store = PendingFrameStore::new();
    store.insert(10, make_pending(1000, 1));
    store.insert(20, make_pending(2000, 2));

    let second = store
        .take_by_frame_seq(20)
        .expect("pending frame for frame sequence 20 should exist");
    assert_eq!(second.presentation_timestamp, 2000);
    assert_eq!(second.user_data, 2);
    let first = store
        .take_by_frame_seq(10)
        .expect("pending frame for frame sequence 10 should exist");
    assert_eq!(first.presentation_timestamp, 1000);
    assert_eq!(first.user_data, 1);
    assert_eq!(store.len(), 0);
}

#[test]
fn pending_frame_store_drains_everything() {
    let mut store = PendingFrameStore::new();
    assert!(store.is_empty());
    assert!(store.insert(3, 'a').is_none());
    assert!(store.insert(1, 'b').is_none());
    assert_eq!(store.insert(3, 'c'), Some('a'));
    assert!(!store.is_empty());
    assert_eq!(store.take_by_frame_seq(2), None);
    let mut drained = store.drain_all();
    drained.sort();
    assert_eq!(drained, vec![(1, 'b'), (3, 'c')]);
    assert!(store.is_empty());
    assert!(store.drain_all().is_empty());
}

// --- Encoding ---

#[test]
fn encode_worker_wait_idle_returns_error_when_pending_remains() {
    let (callback_tx, callback_rx) = mpsc::channel::<Result<(), Error>>();
    let mut handler = FnEncodeHandler::new(move |result: Result<EncodedFrame<u32>, Error>| {
        callback_tx
            .send(result.map(|_| ()))
            .expect("failed to forward callback result");
    });
    let mut replies = run_encode_worker(
        vec![
            encode_worker::WorkerCommand::QueueFrame {
                frame_seq: 77,
                pending_frame: make_pending(7700, 7),
            },
            encode_worker::WorkerCommand::WaitIdle,
            encode_worker::WorkerCommand::Stop,
        ],
        &mut handler,
    );
    let wait_result = replies.remove(0);
    assert!(
        wait_result.is_err(),
        "WaitIdle should fail when pending frames remain"
    );
    let callback_result = callback_rx
        .try_recv()
        .expect("failed to receive callback result");
    assert!(
        callback_result.is_err(),
        "pending frames on WaitIdle must be reported as callback error"
    );
    let error = callback_result.expect_err("an error");
    assert_eq!(error.function(), "Encoder::finish");
    assert_eq!(
        error.status_message(),
        Some("pending frames remained after flush for frame sequence 77 (pending count: 1)")
    );
    assert_eq!(
        wait_result.expect_err("an error").status_message(),
        Some("finish completed but 1 pending frames remained")
    );
    assert!(callback_rx.try_recv().is_err());
}

#[test]
fn encode_worker_stop_returns_aborted_for_all_pending() {
    let (callback_tx, callback_rx) = mpsc::channel::<Result<(), Error>>();
    let mut handler = FnEncodeHandler::new(move |result: Result<EncodedFrame<u32>, Error>| {
        callback_tx
            .send(result.map(|_| ()))
            .expect("failed to forward callback result");
    });
    run_encode_worker(
        vec![
            encode_worker::WorkerCommand::QueueFrame {
                frame_seq: 1,
                pending_frame: make_pending(100, 10),
            },
            encode_worker::WorkerCommand::QueueFrame {
                frame_seq: 2,
                pending_frame: make_pending(200, 20),
            },
            encode_worker::WorkerCommand::Stop,
        ],
        &mut handler,
    );
    let mut callback_count = 0;
    while let Ok(result) = callback_rx.try_recv() {
        callback_count += 1;
        let error = result.expect_err("stop callback must be an error");
        assert_eq!(
            error.status_code(),
            Some(sys::MFX_ERR_ABORTED),
            "stop callback must return MFX_ERR_ABORTED",
        );
    }
    assert_eq!(
        callback_count, 2,
        "expected callbacks for all pending frames"
    );
}

fn output(time_stamp: u64, buffer: &[u8], data_offset: u32, data_length: u32) -> SyncData {
    SyncData {
        sync_point: 1,
        status: sys::MFX_ERR_NONE,
        data_offset,
        data_length,
        time_stamp,
        frame_type: frame_type::P,
        buffer: buffer.to_vec(),
    }
}

#[test]
fn encode_worker_pairs_outputs_with_inputs_in_any_order() {
    let outs = encode_worker::run_sync_worker(VecDeque::from(vec![
        encode_worker::WorkerCommand::QueueFrame {
            frame_seq: 0,
            pending_frame: make_pending(0, 100),
        },
        encode_worker::WorkerCommand::QueueFrame {
            frame_seq: 1,
            pending_frame: make_pending(1001, 101),
        },
        encode_worker::WorkerCommand::Sync(output(1, &[9, 8, 7, 6], 1, 2)),
        encode_worker::WorkerCommand::Sync(output(0, &[5], 0, 1)),
        encode_worker::WorkerCommand::WaitIdle,
    ]));
    assert_eq!(outs.len(), 5);
    let first = outs[2].notices[0].as_ref().expect("a frame");
    assert_eq!(first.data(), &[8, 7]);
    assert_eq!(first.timestamp(), 1001);
    assert_eq!(*first.user_data(), 101);
    assert_eq!(first.picture_type(), PictureType::P);
    let second = outs[3].notices[0].as_ref().expect("a frame");
    assert_eq!(second.clone().into_data(), vec![5]);
    assert_eq!(second.clone().into_user_data(), 100);
    assert!(matches!(outs[4].reply, Some(Ok(()))));
    assert!(outs[4].notices.is_empty());
}

#[test]
fn encode_worker_checks_outputs() {
    let message = |sync: SyncData| {
        let error = encode_worker::sync_and_collect(sync).expect_err("an error");
        (
            error.function().to_string(),
            error.status_message().unwrap_or("").to_string(),
        )
    };
    let mut null = output(0, &[1], 0, 1);
    null.sync_point = 0;
    assert_eq!(
        message(null),
        (
            "Encoder::sync_worker".to_string(),
            "sync point is null".to_string()
        )
    );
    let mut failed = output(0, &[1], 0, 1);
    failed.status = sys::MFX_ERR_GPU_HANG;
    assert_eq!(message(failed).0, "MFXVideoCORE_SyncOperation");
    assert_eq!(
        message(output(0, &[1, 2, 3], 2, 2)).1,
        "bitstream range 2..4 exceeds buffer size 3"
    );
    let exact = encode_worker::sync_and_collect(output(6, &[1, 2, 3], 1, 2)).expect("in range");
    assert_eq!(exact.data, vec![2, 3]);
    assert_eq!(exact.frame_seq, 6);
    let empty = encode_worker::sync_and_collect(output(7, &[], 99, 0)).expect("empty is fine");
    assert!(empty.data.is_empty());
    assert_eq!(empty.frame_seq, 7);
}

#[test]
fn encode_worker_reports_outputs_without_input_and_duplicates() {
    let outs = encode_worker::run_sync_worker(VecDeque::from(vec![
        encode_worker::WorkerCommand::QueueFrame {
            frame_seq: 4,
            pending_frame: make_pending(0, 1),
        },
        encode_worker::WorkerCommand::Sync(output(5, &[1], 0, 1)),
        encode_worker::WorkerCommand::QueueFrame {
            frame_seq: 4,
            pending_frame: make_pending(0, 2),
        },
        encode_worker::WorkerCommand::Sync(output(4, &[1], 0, 1)),
    ]));
    let error = outs[1].notices[0].as_ref().expect_err("no such frame");
    assert_eq!(
        error.status_message(),
        Some("no pending frame for bitstream timestamp 5 (pending count: 1)")
    );
    let error = outs[2].notices[0].as_ref().expect_err("a duplicate");
    assert_eq!(
        error.status_message(),
        Some("duplicate frame sequence in pending frames: 4")
    );
    assert_eq!(*outs[3].notices[0].as_ref().expect("a frame").user_data(), 2);
}

#[test]
fn encode_worker_accounts_for_every_frame() {
    let mut commands = Vec::new();
    for frame_seq in 0..10u64 {
        commands.push(encode_worker::WorkerCommand::QueueFrame {
            frame_seq,
            pending_frame: make_pending(frame_seq, frame_seq as u32),
        });
        if frame_seq % 3 == 0 {
            commands.push(encode_worker::WorkerCommand::Sync(output(
                frame_seq,
                &[0],
                0,
                1,
            )));
        }
    }
    commands.push(encode_worker::WorkerCommand::Stop);
    commands.push(encode_worker::WorkerCommand::WaitIdle);
    let outs = encode_worker::run_sync_worker(VecDeque::from(commands));
    assert_eq!(outs.len(), 15, "nothing is answered after a stop");
    let told: usize = outs.iter().map(|out| out.notices.len()).sum();
    assert_eq!(told, 10);
    assert!(outs[14].stop);
    assert_eq!(outs[14].notices.len(), 6);
}

// --- Decoding ---

#[test]
fn decode_worker_wait_idle_returns_error_when_pending_remains() {
    let (callback_tx, callback_rx) = mpsc::channel::<Result<(), Error>>();
    let mut handler = FnDecodeHandler::new(move |result: Result<DecodedFrame<'_, u32>, Error>| {
        callback_tx
            .send(result.map(|_| ()))
            .expect("デコード結果の送信に失敗した");
    });
    let mut replies = run_decode_worker(
        vec![
            decode_worker::WorkerCommand::QueueFrame {
                frame_seq: 77,
                user_data: 7,
            },
            decode_worker::WorkerCommand::WaitIdle,
            decode_worker::WorkerCommand::Stop,
        ],
        &mut handler,
    );
    let wait_result = replies.remove(0);
    let wait_error = wait_result.expect_err("残留 pending があるのに WaitIdle が成功した");
    assert_eq!(wait_error.function(), "Decoder::finish");
    assert_eq!(
        wait_error.status_message(),
        Some("finish completed but 1 pending frames remained"),
        "残留 pending の件数を示すエラーメッセージであること"
    );

    let callback_result = callback_rx
        .try_recv()
        .expect("残留通知コールバックの受信に失敗した");
    let callback_error = callback_result.expect_err("残留 pending はエラー通知されること");
    assert_eq!(callback_error.function(), "Decoder::finish");
    assert_eq!(
        callback_error.status_message(),
        Some("decode pending frame seq=77 (pending count: 1)"),
        "frame_seq と残留件数を含むエラーメッセージであること"
    );
}

#[test]
fn decode_worker_stop_returns_aborted_for_all_pending() {
    let (callback_tx, callback_rx) = mpsc::channel::<Result<(), Error>>();
    let mut handler = FnDecodeHandler::new(move |result: Result<DecodedFrame<'_, u32>, Error>| {
        callback_tx
            .send(result.map(|_| ()))
            .expect("デコード結果の送信に失敗した");
    });
    run_decode_worker(
        vec![
            decode_worker::WorkerCommand::QueueFrame {
                frame_seq: 1,
                user_data: 10,
            },
            decode_worker::WorkerCommand::QueueFrame {
                frame_seq: 2,
                user_data: 20,
            },
            decode_worker::WorkerCommand::Stop,
        ],
        &mut handler,
    );
    let mut callback_count = 0;
    while let Ok(result) = callback_rx.try_recv() {
        callback_count += 1;
        let error = result.expect_err("Stop 時のコールバックはエラーであること");
        assert_eq!(
            error.status_code(),
            Some(sys::MFX_ERR_ABORTED),
            "Stop 時のコールバックは MFX_ERR_ABORTED を返すこと"
        );
    }
    assert_eq!(
        callback_count, 2,
        "全ての残留 pending 分のコールバックが通知されること"
    );
}

#[test]
fn worker_reports_duplicate_frame_sequence() {
    let (callback_tx, callback_rx) = mpsc::channel::<Result<(), Error>>();
    let mut handler = FnDecodeHandler::new(move |result: Result<DecodedFrame<'_, u32>, Error>| {
        callback_tx
            .send(result.map(|_| ()))
            .expect("デコード結果の送信に失敗した");
    });
    run_decode_worker(
        vec![
            decode_worker::WorkerCommand::QueueFrame {
                frame_seq: 42,
                user_data: 1,
            },
            decode_worker::WorkerCommand::QueueFrame {
                frame_seq: 42,
                user_data: 2,
            },
            decode_worker::WorkerCommand::Stop,
        ],
        &mut handler,
    );
    let callback_result = callback_rx
        .try_recv()
        .expect("重複通知コールバックの受信に失敗した");
    let error = callback_result.expect_err("重複 frame_seq はエラー通知されること");
    assert_eq!(error.function(), "Decoder::sync_worker");
    assert_eq!(
        error.status_message(),
        Some("duplicate frame sequence in pending frames: 42"),
        "重複した frame_seq を含むエラーメッセージであること"
    );

    let stop_result = callback_rx
        .try_recv()
        .expect("残留 pending の ABORTED 通知の受信に失敗した");
    let stop_error = stop_result.expect_err("Stop 時のコールバックはエラーであること");
    assert_eq!(
        stop_error.status_code(),
        Some(sys::MFX_ERR_ABORTED),
        "残留 pending は MFX_ERR_ABORTED で通知されること"
    );
    assert!(callback_rx.try_recv().is_err(), "通知は 2 回だけであること");
}

fn mapped(time_stamp: u64) -> DecodeSyncData {
    DecodeSyncData {
        sync_point: 1,
        sync_status: sys::MFX_ERR_NONE,
        map_status: sys::MFX_ERR_NONE,
        surface: SurfaceInfo {
            time_stamp,
            crop_w: 318,
            crop_h: 238,
            pitch: 320,
            y_null: false,
            uv_null: false,
        },
    }
}

#[test]
fn decode_worker_hands_out_frames_with_their_user_data() {
    let (tx, rx) = mpsc::channel();
    let mut handler = FnDecodeHandler::new(move |result: Result<DecodedFrame<'_, u32>, Error>| {
        let frame = result.expect("a frame");
        tx.send((
            *frame.user_data(),
            frame.y().len(),
            frame.uv().len(),
            (frame.pitch(), frame.width(), frame.height()),
            frame.into_user_data(),
        ))
        .expect("the test listens");
    });
    let replies = run_decode_worker(
        vec![
            decode_worker::WorkerCommand::QueueFrame {
                frame_seq: 0,
                user_data: 50,
            },
            decode_worker::WorkerCommand::QueueFrame {
                frame_seq: 1,
                user_data: 51,
            },
            decode_worker::WorkerCommand::Sync(mapped(1)),
            // An output that belongs to no input is passed over.
            decode_worker::WorkerCommand::Sync(mapped(9)),
            decode_worker::WorkerCommand::Sync(mapped(0)),
            decode_worker::WorkerCommand::WaitIdle,
        ],
        &mut handler,
    );
    assert!(replies[0].is_ok());
    let size = (320, 318, 238);
    assert_eq!(rx.try_recv(), Ok((51, 320 * 238, 320 * 238 / 2, size, 51)));
    assert_eq!(rx.try_recv(), Ok((50, 320 * 238, 320 * 238 / 2, size, 50)));
    assert!(rx.try_recv().is_err());
}

#[test]
fn decode_worker_checks_surfaces() {
    let message = |change: fn(&mut DecodeSyncData)| {
        let mut store = PendingFrameStore::new();
        store.insert(0, 'x');
        let mut sync = mapped(0);
        change(&mut sync);
        let notice = decode_worker::sync_and_callback(&sync, &mut store).expect("a notice");
        let error = notice.expect_err("an error");
        (
            error.function().to_string(),
            error.status_message().unwrap_or("").to_string(),
            store.len(),
        )
    };
    let text = |(_, text, _): (String, String, usize)| text;
    let left = |(_, _, left): (String, String, usize)| left;
    assert_eq!(text(message(|s| s.sync_point = 0)), "sync point is null");
    assert_eq!(left(message(|s| s.sync_point = 0)), 1);
    assert_eq!(
        message(|s| s.sync_status = sys::MFX_ERR_DEVICE_LOST).0,
        "MFXVideoCORE_SyncOperation"
    );
    assert_eq!(
        message(|s| s.map_status = sys::MFX_ERR_LOCK_MEMORY).0,
        "mfxFrameSurfaceInterface::Map"
    );
    let nulls = "decoded surface has null plane pointers";
    assert_eq!(text(message(|s| s.surface.y_null = true)), nulls);
    assert_eq!(text(message(|s| s.surface.uv_null = true)), nulls);
    assert_eq!(left(message(|s| s.surface.uv_null = true)), 0);
    let zero = "decoded surface has zero crop dimensions";
    assert_eq!(text(message(|s| s.surface.crop_w = 0)), zero);
    assert_eq!(text(message(|s| s.surface.crop_h = 0)), zero);
    assert_eq!(
        text(message(|s| s.surface.pitch = 317)),
        "pitch (317) is less than crop width (318)"
    );
}

#[test]
fn decoded_planes_of_an_odd_height() {
    let surface = SurfaceInfo {
        time_stamp: 0,
        crop_w: 5,
        crop_h: 3,
        pitch: 8,
        y_null: false,
        uv_null: false,
    };
    let layout = decode_worker::read_decoded_surface(&surface).expect("a layout");
    assert_eq!(layout.y_size, 24);
    assert_eq!(layout.uv_size, 12);
    let largest = SurfaceInfo {
        crop_w: u16::MAX,
        crop_h: u16::MAX,
        pitch: u16::MAX,
        ..surface
    };
    let layout = decode_worker::read_decoded_surface(&largest).expect("a layout");
    assert_eq!(layout.y_size, 65535 * 65535);
}

#[test]
fn decode_worker_hands_out_each_frame_once() {
    let queue = |frame_seq: u64| decode_worker::WorkerCommand::QueueFrame {
        frame_seq,
        user_data: frame_seq as u32 + 50,
    };
    let sync = |time_stamp: u64| decode_worker::WorkerCommand::Sync(mapped(time_stamp));
    let outs = decode_worker::run_sync_worker(VecDeque::from(vec![
        queue(0),
        queue(1),
        sync(1),
        // A second output of one input is passed over.
        sync(1),
        queue(2),
        sync(0),
        sync(2),
        sync(0),
        decode_worker::WorkerCommand::WaitIdle,
    ]));
    assert!(matches!(outs[8].reply, Some(Ok(()))));
    let got: Vec<u32> = outs
        .into_iter()
        .flat_map(|out| out.notices)
        .map(|notice| notice.expect("a frame").user_data)
        .collect();
    assert_eq!(got, vec![51, 50, 52]);
}
