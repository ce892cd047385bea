//! The decoder: how it is set up, how a bitstream goes through the device, and how it is flushed.
//!
//! Calls of the device and of the worker are named here and made elsewhere: a procedure names the
//! next call, is stepped with the reply, and says in the end what came of it.
use vstd::prelude::*;

use crate::adapter::AdapterSelector;
use crate::decode_worker::delivered_at;
use crate::decode_worker::gave_frame_at;
use crate::decode_worker::goes_well;
use crate::decode_worker::law_ascending_frames_make_ascending_commands;
use crate::decode_worker::law_frame_is_delivered_at_most_once;
use crate::decode_worker::law_successful_flush_delivered_every_frame_once;
use crate::decode_worker::numbers_ascend;
use crate::decode_worker::queued_at;
use crate::decode_worker::queued_frames;
use crate::decode_worker::worker_run;
use crate::decode_worker::WorkerCommand;
use crate::decode_worker::WorkerOutputView;
use crate::encode::flush_answer;
use crate::encode::worker_gone;
use crate::encode::DEVICE_BUSY_MAX_RETRIES;
use crate::error::answer;
use crate::error::check;
use crate::error::check_allow_warn;
use crate::error::Error;
use crate::error::ErrorView;
use crate::loader::session_start;
use crate::loader::LoaderCall;
use crate::loader::SessionSetup;
use crate::param::or_default;
use crate::param::VideoParam;
use crate::sys;
use crate::text::decimal;
use crate::text::push_decimal;
use crate::vpl::FrameSurface;
use crate::vpl::SurfaceView;
use crate::vpl::VplLibrary;

verus! {

/// The codec of the bitstream to decode.
#[derive(Debug, Clone, Copy, PartialEq, Eq, Structural)]
pub enum DecoderCodec {
    /// H.264 / AVC
    H264,
    /// H.265 / HEVC
    Hevc,
    Vp9,
    Av1,
}

impl DecoderCodec {
    /// The codec identifier of VPL.
    pub open spec fn spec_codec_id(self) -> u32 {
        match self {
            DecoderCodec::H264 => sys::MFX_CODEC_AVC,
            DecoderCodec::Hevc => sys::MFX_CODEC_HEVC,
            DecoderCodec::Vp9 => sys::MFX_CODEC_VP9,
            DecoderCodec::Av1 => sys::MFX_CODEC_AV1,
        }
    }

    /// The codec identifier of VPL.
    #[verifier::when_used_as_spec(spec_codec_id)]
    pub fn codec_id(self) -> (r: u32)
        ensures
            r == self.spec_codec_id(),
    {
        match self {
            DecoderCodec::H264 => sys::MFX_CODEC_AVC,
            DecoderCodec::Hevc => sys::MFX_CODEC_HEVC,
            DecoderCodec::Vp9 => sys::MFX_CODEC_VP9,
            DecoderCodec::Av1 => sys::MFX_CODEC_AV1,
        }
    }
}

/// The settings of a decoder. Size and frame rate come from the bitstream.
#[derive(Debug, Clone)]
#[non_exhaustive]
pub struct DecoderConfig {
    /// The adapter to decode on.
    pub adapter: AdapterSelector,
    pub codec: DecoderCodec,
    /// How many operations may be in flight: 1 takes the least memory, 4 is recommended. `None`
    /// stands for 4.
    pub async_depth: Option<u16>,
}

impl DecoderConfig {
    /// Settings with everything optional left to its default.
    pub fn new(adapter: AdapterSelector, codec: DecoderCodec) -> (r: DecoderConfig)
        ensures
            r == (DecoderConfig { adapter, codec, async_depth: None }),
    {
        DecoderConfig { adapter, codec, async_depth: None }
    }
}

/// A decoder.
#[derive(Debug)]
pub struct Decoder {
    codec: DecoderCodec,
    async_depth: u16,
    initialized: bool,
    frame_count: u64,
}

/// The state of a [`Decoder`].
pub struct DecoderView {
    pub codec: DecoderCodec,
    pub async_depth: u16,
    /// Whether the device's decoder is open.
    pub initialized: bool,
    /// The number of inputs queued, which is the sequence number of the next.
    pub frame_count: u64,
}

impl View for Decoder {
    type V = DecoderView;

    closed spec fn view(&self) -> DecoderView {
        DecoderView {
            codec: self.codec,
            async_depth: self.async_depth,
            initialized: self.initialized,
            frame_count: self.frame_count,
        }
    }
}

impl DecoderView {
    /// What is queued with the worker for a bitstream of which so many bytes are to be decoded.
    pub open spec fn queue_input<T>(self, left: u32, user_data: T) -> QueueInputView<T> {
        QueueInputView {
            stage: FeedStageView::Queue(left),
            frame_seq: self.frame_count,
            user_data,
        }
    }

    /// The block for `MFXVideoDECODE_DecodeHeader`: NV12 frames in system memory.
    pub open spec fn header_block(self) -> VideoParam {
        let zero = VideoParam::spec_zeroed();
        VideoParam {
            io_pattern: sys::MFX_IOPATTERN_OUT_SYSTEM_MEMORY,
            async_depth: self.async_depth,
            codec_id: self.codec.codec_id(),
            frame_info: crate::param::FrameInfo {
                fourcc: sys::MFX_FOURCC_NV12,
                chroma_format: sys::MFX_CHROMAFORMAT_YUV420,
                pic_struct: sys::MFX_PICSTRUCT_PROGRESSIVE,
                ..zero.frame_info
            },
            ..zero
        }
    }
}

/// A decoder whose session is open and whose worker is being started.
#[derive(Debug)]
pub struct DecoderPlan {
    decoder: Decoder,
}

impl View for DecoderPlan {
    type V = DecoderView;

    closed spec fn view(&self) -> DecoderView {
        self.decoder@
    }
}

impl DecoderPlan {
    /// Takes what starting the worker came to: nothing, or the text of the error.
    pub fn started(self, spawn_error: Option<String>) -> (r: Result<Decoder, Error>)
        ensures
            match r {
                Ok(decoder) => spawn_error is None && decoder@ == self@,
                Err(error) => {
                    &&& spawn_error is Some
                    &&& error@ == ErrorView::custom(
                        "Decoder::new"@,
                        "failed to spawn sync worker thread: "@ + spawn_error->0@,
                    )
                },
            },
    {
        match spawn_error {
            None => Ok(self.decoder),
            Some(text) => {
                let mut message = "failed to spawn sync worker thread: ".to_owned();
                message.append(text.as_str());
                Err(Error::new_custom_owned("Decoder::new", message))
            },
        }
    }
}

/// What the device made of the bitstream.
#[derive(Debug, Clone, Copy, PartialEq, Eq, Structural)]
pub enum Decoded {
    /// It is busy, or has no surface to decode to; try again.
    Retry,
    /// It took what there was and needs more.
    MoreData,
    /// It failed.
    Failed,
    /// It went on, possibly with a warning, possibly with an output.
    Ahead,
}

/// What the status of `MFXVideoDECODE_DecodeFrameAsync` means.
pub open spec fn decoded(status: i32) -> Decoded {
    if status == sys::MFX_WRN_DEVICE_BUSY || status == sys::MFX_ERR_MORE_SURFACE {
        Decoded::Retry
    } else if status == sys::MFX_ERR_MORE_DATA {
        Decoded::MoreData
    } else if status < 0 {
        Decoded::Failed
    } else {
        Decoded::Ahead
    }
}

/// What the status of `MFXVideoDECODE_DecodeFrameAsync` means.
pub fn decode_frame_async(status: i32) -> (r: Decoded)
    ensures
        r == decoded(status),
{
    if status == sys::MFX_WRN_DEVICE_BUSY || status == sys::MFX_ERR_MORE_SURFACE {
        Decoded::Retry
    } else if status == sys::MFX_ERR_MORE_DATA {
        Decoded::MoreData
    } else if status < 0 {
        Decoded::Failed
    } else {
        Decoded::Ahead
    }
}

/// The error for a device that has to be tried too often; `status` is what it said last.
pub open spec fn gave_up(status: i32) -> ErrorView {
    ErrorView::custom(
        "MFXVideoDECODE_DecodeFrameAsync"@,
        if status == sys::MFX_ERR_MORE_SURFACE {
            "more surface after max retries"@
        } else {
            "device busy after max retries"@
        },
    )
}

fn gave_up_error(status: i32) -> (r: Error)
    ensures
        r@ == gave_up(status),
{
    if status == sys::MFX_ERR_MORE_SURFACE {
        Error::new_custom("MFXVideoDECODE_DecodeFrameAsync", "more surface after max retries")
    } else {
        Error::new_custom("MFXVideoDECODE_DecodeFrameAsync", "device busy after max retries")
    }
}

/// The error for an output without a surface.
pub open spec fn no_surface() -> ErrorView {
    ErrorView::custom("FrameSurface::new"@, "surface pointer is null"@)
}

// --- Decoding a bitstream ---

/// A call that feeding the device takes.
#[derive(Debug, Clone, Copy, PartialEq, Eq, Structural)]
pub enum FeedCall {
    /// `MFXVideoDECODE_DecodeFrameAsync`; the reply has the output, if there is one, and how many
    /// bytes of the bitstream are left.
    Submit,
    /// Wait for one millisecond.
    Wait,
    /// Have the worker wait for the output at this sync point, in this surface; the reply says
    /// whether it took it.
    Sync { sync_point: usize, surface: usize },
}

/// The reply to a call of the device or of the worker.
#[derive(Debug, Clone, Copy, PartialEq, Eq, Structural)]
pub struct FeedReply {
    /// The status returned; `MFX_ERR_NONE` for a call that returns none.
    pub status: i32,
    /// The sync point stored; 0 for a null one.
    pub sync_point: usize,
    /// The surface stored; 0 for a null one.
    pub surface: usize,
    /// `mfxBitstream.DataLength` after the call.
    pub data_length: u32,
    /// Whether the worker took the command.
    pub accepted: bool,
}

#[derive(Debug)]
enum FeedStage {
    Queue(u32),
    Submit(u32),
    Wait(u32, i32),
    Sync(u32, FrameSurface),
}

/// The call whose reply a [`FeedRun`] waits for.
pub enum FeedStageView {
    /// The worker is to queue the input; so many bytes are to be decoded.
    Queue(u32),
    /// The device is tried for the `n`-th time, counted from 0.
    Submit(u32),
    /// A wait after the `n`-th time, which ended with this status.
    Wait(u32, i32),
    /// The worker is to wait for an output in this surface; so many bytes are left.
    Sync(u32, SurfaceView),
}

impl View for FeedStage {
    type V = FeedStageView;

    closed spec fn view(&self) -> FeedStageView {
        match self {
            FeedStage::Queue(data_length) => FeedStageView::Queue(*data_length),
            FeedStage::Submit(n) => FeedStageView::Submit(*n),
            FeedStage::Wait(n, status) => FeedStageView::Wait(*n, *status),
            FeedStage::Sync(data_length, surface) => FeedStageView::Sync(*data_length, surface@),
        }
    }
}

/// A bitstream on its way into the device.
#[derive(Debug)]
pub struct FeedRun {
    stage: FeedStage,
}

impl View for FeedRun {
    type V = FeedStageView;

    closed spec fn view(&self) -> FeedStageView {
        self.stage@
    }
}

/// How far a bitstream has come.
#[derive(Debug)]
pub enum FeedProgress {
    /// Make this call, then step with its reply.
    Call(FeedRun, FeedCall),
    /// The device has taken all of it.
    Done,
    /// Decoding failed. Give back the surface, if there is one.
    Failed(Error, Option<FrameSurface>),
}

/// The content of a [`FeedProgress`].
pub enum FeedProgressView {
    Call(FeedStageView, FeedCall),
    Done,
    Failed(ErrorView, Option<SurfaceView>),
}

impl View for FeedProgress {
    type V = FeedProgressView;

    open spec fn view(&self) -> FeedProgressView {
        match self {
            FeedProgress::Call(run, call) => FeedProgressView::Call(run@, *call),
            FeedProgress::Done => FeedProgressView::Done,
            FeedProgress::Failed(error, surface) => FeedProgressView::Failed(
                error@,
                match surface {
                    Some(surface) => Some(surface@),
                    None => None,
                },
            ),
        }
    }
}

/// Feeding goes on with the next call of the device as long as bytes are left.
pub open spec fn feed_rest(data_length: u32) -> FeedProgressView {
    if data_length > 0 {
        FeedProgressView::Call(FeedStageView::Submit(0), FeedCall::Submit)
    } else {
        FeedProgressView::Done
    }
}

impl FeedStageView {
    /// What the reply to the awaited call leads to, and what it does to the decoder.
    ///
    /// The sequence number is used up as soon as the input is queued, so that it is not given out
    /// again if decoding fails. A device that asks for it is tried again after a wait, thirty times
    /// in all.
    pub open spec fn after(self, decoder: DecoderView, reply: FeedReply) -> (
        DecoderView,
        FeedProgressView,
    ) {
        let status = reply.status;
        match self {
            FeedStageView::Queue(data_length) => if !reply.accepted {
                (decoder, FeedProgressView::Failed(worker_gone("Decoder::decode"@), None))
            } else if decoder.frame_count == u64::MAX {
                (
                    decoder,
                    FeedProgressView::Failed(
                        ErrorView::custom("Decoder::decode"@, "frame sequence overflowed"@),
                        None,
                    ),
                )
            } else {
                (
                    DecoderView { frame_count: (decoder.frame_count + 1) as u64, ..decoder },
                    feed_rest(data_length),
                )
            },
            FeedStageView::Submit(n) => (
                decoder,
                match decoded(status) {
                    Decoded::Retry => FeedProgressView::Call(
                        FeedStageView::Wait(n, status),
                        FeedCall::Wait,
                    ),
                    Decoded::MoreData => FeedProgressView::Done,
                    Decoded::Failed => FeedProgressView::Failed(
                        ErrorView::mfx(status, "MFXVideoDECODE_DecodeFrameAsync"@),
                        None,
                    ),
                    Decoded::Ahead => if reply.sync_point == 0 {
                        feed_rest(reply.data_length)
                    } else if reply.surface == 0 {
                        FeedProgressView::Failed(no_surface(), None)
                    } else {
                        FeedProgressView::Call(
                            FeedStageView::Sync(
                                reply.data_length,
                                SurfaceView { address: reply.surface, mapped: false },
                            ),
                            FeedCall::Sync {
                                sync_point: reply.sync_point,
                                surface: reply.surface,
                            },
                        )
                    },
                },
            ),
            FeedStageView::Wait(n, last) => (
                decoder,
                if n + 1 >= DEVICE_BUSY_MAX_RETRIES {
                    FeedProgressView::Failed(gave_up(last), None)
                } else {
                    FeedProgressView::Call(FeedStageView::Submit((n + 1) as u32), FeedCall::Submit)
                },
            ),
            FeedStageView::Sync(data_length, surface) => (
                decoder,
                if reply.accepted {
                    feed_rest(data_length)
                } else {
                    FeedProgressView::Failed(worker_gone("Decoder::decode"@), Some(surface))
                },
            ),
        }
    }
}

impl FeedRun {
    fn rest(data_length: u32) -> (r: FeedProgress)
        ensures
            r@ == feed_rest(data_length),
    {
        if data_length > 0 {
            FeedProgress::Call(FeedRun { stage: FeedStage::Submit(0) }, FeedCall::Submit)
        } else {
            FeedProgress::Done
        }
    }

    /// Takes the reply to the call named last. The first reply is whether the worker has queued the
    /// input; when it took an output, the surface is the worker's.
    pub fn step(self, decoder: &mut Decoder, reply: FeedReply) -> (r: FeedProgress)
        ensures
            (final(decoder)@, r@) == self@.after(old(decoder)@, reply),
    {
        let status = reply.status;
        match self.stage {
            FeedStage::Queue(data_length) => {
                if !reply.accepted {
                    return FeedProgress::Failed(
                        Error::new_custom("Decoder::decode", "sync worker thread is not running"),
                        None,
                    );
                }
                match decoder.frame_count.checked_add(1) {
                    Some(count) => {
                        decoder.frame_count = count;
                        Self::rest(data_length)
                    },
                    None => FeedProgress::Failed(
                        Error::new_custom("Decoder::decode", "frame sequence overflowed"),
                        None,
                    ),
                }
            },
            FeedStage::Submit(n) => match decode_frame_async(status) {
                Decoded::Retry => FeedProgress::Call(
                    FeedRun { stage: FeedStage::Wait(n, status) },
                    FeedCall::Wait,
                ),
                Decoded::MoreData => FeedProgress::Done,
                Decoded::Failed => FeedProgress::Failed(
                    Error::from_mfx(status, "MFXVideoDECODE_DecodeFrameAsync"),
                    None,
                ),
                Decoded::Ahead => {
                    if reply.sync_point == 0 {
                        return Self::rest(reply.data_length);
                    }
                    match FrameSurface::new(reply.surface) {
                        Ok(surface) => FeedProgress::Call(
                            FeedRun { stage: FeedStage::Sync(reply.data_length, surface) },
                            FeedCall::Sync {
                                sync_point: reply.sync_point,
                                surface: reply.surface,
                            },
                        ),
                        Err(error) => FeedProgress::Failed(error, None),
                    }
                },
            },
            FeedStage::Wait(n, last) => if n >= DEVICE_BUSY_MAX_RETRIES - 1 {
                FeedProgress::Failed(gave_up_error(last), None)
            } else {
                FeedProgress::Call(FeedRun { stage: FeedStage::Submit(n + 1) }, FeedCall::Submit)
            },
            FeedStage::Sync(data_length, surface) => if reply.accepted {
                Self::rest(data_length)
            } else {
                FeedProgress::Failed(
                    Error::new_custom("Decoder::decode", "sync worker thread is not running"),
                    Some(surface),
                )
            },
        }
    }
}

/// A first bitstream whose header is being read.
#[derive(Debug)]
pub struct HeaderRun<T> {
    user_data: T,
}

impl<T> HeaderRun<T> {
    /// What the caller handed in with the bitstream.
    pub closed spec fn data(self) -> T {
        self.user_data
    }

    /// Takes the status of `MFXVideoDECODE_DecodeHeader`, the block that it filled and the bytes that
    /// are left. Names the block for `MFXVideoDECODE_Init`: the one that was filled, unchanged.
    pub fn parsed(self, status: i32, param: VideoParam, data_length: u32) -> (r: Result<
        (InitRun<T>, VideoParam),
        Error,
    >)
        ensures
            match r {
                Ok((next, block)) => {
                    &&& check(status, "MFXVideoDECODE_DecodeHeader"@) is Ok
                    &&& next.data() == self.data()
                    &&& next.left() == data_length
                    &&& block == param
                },
                Err(error) => check(status, "MFXVideoDECODE_DecodeHeader"@) == Err::<
                    (),
                    ErrorView,
                >(error@),
            },
    {
        match VplLibrary.mfx_video_decode_decode_header(status) {
            Ok(()) => Ok((InitRun { user_data: self.user_data, data_length }, param)),
            Err(error) => Err(error),
        }
    }
}

/// A first bitstream for which the device's decoder is being opened.
#[derive(Debug)]
pub struct InitRun<T> {
    user_data: T,
    data_length: u32,
}

impl<T> InitRun<T> {
    /// What the caller handed in with the bitstream.
    pub closed spec fn data(self) -> T {
        self.user_data
    }

    /// The bytes that are left.
    pub closed spec fn left(self) -> u32 {
        self.data_length
    }

    /// Takes the status of `MFXVideoDECODE_Init`. If the device's decoder is open, the input is
    /// queued with the worker next.
    pub fn initialized(self, decoder: &mut Decoder, status: i32) -> (r: Result<
        QueueInput<T>,
        Error,
    >)
        ensures
            match check_allow_warn(status, "MFXVideoDECODE_Init"@) {
                Ok(()) => {
                    &&& r is Ok
                    &&& final(decoder)@ == (DecoderView { initialized: true, ..old(decoder)@ })
                    &&& r->Ok_0@ == (QueueInputView {
                        stage: FeedStageView::Queue(self.left()),
                        frame_seq: old(decoder)@.frame_count,
                        user_data: self.data(),
                    })
                    &&& r->Ok_0@ == old(decoder)@.queue_input(self.left(), self.data())
                },
                Err(error) => {
                    &&& r is Err
                    &&& r->Err_0@ == error
                    &&& final(decoder)@ == old(decoder)@
                },
            },
    {
        match VplLibrary.mfx_video_decode_init(status) {
            Ok(()) => {
                decoder.initialized = true;
                Ok(
                    QueueInput {
                        run: FeedRun { stage: FeedStage::Queue(self.data_length) },
                        frame_seq: decoder.frame_count,
                        user_data: self.user_data,
                    },
                )
            },
            Err(error) => Err(error),
        }
    }
}

/// An input to be queued with the worker: its number, which is also the time stamp of the bitstream,
/// and what the caller handed in with it. The run goes on with whether the worker took it.
#[derive(Debug)]
pub struct QueueInput<T> {
    pub run: FeedRun,
    pub frame_seq: u64,
    pub user_data: T,
}

/// The content of a [`QueueInput`].
pub struct QueueInputView<T> {
    pub stage: FeedStageView,
    pub frame_seq: u64,
    pub user_data: T,
}

impl<T> View for QueueInput<T> {
    type V = QueueInputView<T>;

    open spec fn view(&self) -> QueueInputView<T> {
        QueueInputView {
            stage: self.run@,
            frame_seq: self.frame_seq,
            user_data: self.user_data,
        }
    }
}

/// How decoding a bitstream starts.
#[derive(Debug)]
pub enum DecodeStart<T> {
    /// Call `MFXVideoDECODE_DecodeHeader` with this block, then go on with the run.
    Header(HeaderRun<T>, VideoParam),
    /// Queue this input with the worker.
    Queue(QueueInput<T>),
}

impl Decoder {
    /// Starts to open a session for a decoder. The worker is started once it is open.
    pub fn new(config: &DecoderConfig) -> (r: Result<(DecoderPlan, SessionSetup, LoaderCall), Error>)
        ensures
            match session_start(config.adapter) {
                Ok((setup, call)) => {
                    &&& r is Ok
                    &&& r->Ok_0.0@ == (DecoderView {
                        codec: config.codec,
                        async_depth: or_default(config.async_depth, 4),
                        initialized: false,
                        frame_count: 0,
                    })
                    &&& r->Ok_0.1 == setup
                    &&& r->Ok_0.2 == call
                },
                Err(error) => r is Err && r->Err_0@ == error,
            },
    {
        match VplLibrary.create_session(config.adapter) {
            Ok((setup, call)) => {
                let decoder = Decoder {
                    codec: config.codec,
                    async_depth: config.async_depth.unwrap_or(4),
                    initialized: false,
                    frame_count: 0,
                };
                Ok((DecoderPlan { decoder }, setup, call))
            },
            Err(error) => Err(error),
        }
    }

    /// Whether the device's decoder is open, and has to be closed in the end.
    pub fn is_initialized(&self) -> (r: bool)
        ensures
            r == self@.initialized,
    {
        self.initialized
    }

    fn initialize(&self) -> (r: VideoParam)
        ensures
            r == self@.header_block(),
    {
        let mut param = VideoParam::zeroed();
        param.io_pattern = sys::MFX_IOPATTERN_OUT_SYSTEM_MEMORY;
        param.async_depth = self.async_depth;
        param.codec_id = self.codec.codec_id();
        param.frame_info.fourcc = sys::MFX_FOURCC_NV12;
        param.frame_info.chroma_format = sys::MFX_CHROMAFORMAT_YUV420;
        param.frame_info.pic_struct = sys::MFX_PICSTRUCT_PROGRESSIVE;
        param
    }

    /// Starts to decode a bitstream. The first one opens the device's decoder.
    pub fn decode<T>(&self, data: &[u8], user_data: T) -> (r: Result<DecodeStart<T>, Error>)
        ensures
            match r {
                Ok(DecodeStart::Header(run, block)) => {
                    &&& data@.len() <= u32::MAX
                    &&& !self@.initialized
                    &&& run.data() == user_data
                    &&& block == self@.header_block()
                },
                Ok(DecodeStart::Queue(input)) => {
                    &&& data@.len() <= u32::MAX
                    &&& self@.initialized
                    &&& input@ == (QueueInputView {
                        stage: FeedStageView::Queue(data@.len() as u32),
                        frame_seq: self@.frame_count,
                        user_data,
                    })
                    &&& input@ == self@.queue_input(data@.len() as u32, user_data)
                },
                Err(error) => {
                    &&& data@.len() > u32::MAX
                    &&& error@ == ErrorView::custom(
                        "Decoder::decode"@,
                        "bitstream length "@ + decimal(data@.len()) + " exceeds u32::MAX"@,
                    )
                },
            },
    {
        let len: usize = data.len();
        if len as u64 > u32::MAX as u64 {
            let mut message = "bitstream length ".to_owned();
            push_decimal(&mut message, len as u64);
            message.append(" exceeds u32::MAX");
            return Err(Error::new_custom_owned("Decoder::decode", message));
        }
        if !self.initialized {
            return Ok(DecodeStart::Header(HeaderRun { user_data }, self.initialize()));
        }
        Ok(
            DecodeStart::Queue(
                QueueInput {
                    run: FeedRun { stage: FeedStage::Queue(len as u32) },
                    frame_seq: self.frame_count,
                    user_data,
                },
            ),
        )
    }
}

// --- Flushing ---

#[derive(Debug)]
enum DrainStage {
    Submit(u32),
    Wait(u32, i32),
    Pause,
    Sync(FrameSurface),
}

/// The call whose reply a [`DrainRun`] waits for.
pub enum DrainStageView {
    /// The device is tried for the `n`-th time, counted from 0.
    Submit(u32),
    /// A wait after the `n`-th time, which ended with this status.
    Wait(u32, i32),
    /// A wait because the device went on without an output.
    Pause,
    /// The worker is to wait for an output in this surface.
    Sync(SurfaceView),
}

impl View for DrainStage {
    type V = DrainStageView;

    closed spec fn view(&self) -> DrainStageView {
        match self {
            DrainStage::Submit(n) => DrainStageView::Submit(*n),
            DrainStage::Wait(n, status) => DrainStageView::Wait(*n, *status),
            DrainStage::Pause => DrainStageView::Pause,
            DrainStage::Sync(surface) => DrainStageView::Sync(surface@),
        }
    }
}

/// The flushing of the decoder: the device is called without a bitstream until it has no more.
#[derive(Debug)]
pub struct DrainRun {
    stage: DrainStage,
}

impl View for DrainRun {
    type V = DrainStageView;

    closed spec fn view(&self) -> DrainStageView {
        self.stage@
    }
}

/// How far flushing has come.
#[derive(Debug)]
pub enum DrainProgress {
    /// Make this call, then step with its reply.
    Call(DrainRun, FeedCall),
    /// Everything was flushed. Have the worker answer whether nothing is pending.
    WaitIdle,
    /// Flushing failed. Give back the surface, if there is one.
    Failed(Error, Option<FrameSurface>),
}

/// The content of a [`DrainProgress`].
pub enum DrainProgressView {
    Call(DrainStageView, FeedCall),
    WaitIdle,
    Failed(ErrorView, Option<SurfaceView>),
}

impl View for DrainProgress {
    type V = DrainProgressView;

    open spec fn view(&self) -> DrainProgressView {
        match self {
            DrainProgress::Call(run, call) => DrainProgressView::Call(run@, *call),
            DrainProgress::WaitIdle => DrainProgressView::WaitIdle,
            DrainProgress::Failed(error, surface) => DrainProgressView::Failed(
                error@,
                match surface {
                    Some(surface) => Some(surface@),
                    None => None,
                },
            ),
        }
    }
}

impl DrainStageView {
    /// What the reply to the awaited call leads to.
    pub open spec fn after(self, reply: FeedReply) -> DrainProgressView {
        let status = reply.status;
        match self {
            DrainStageView::Submit(n) => match decoded(status) {
                Decoded::Retry => DrainProgressView::Call(
                    DrainStageView::Wait(n, status),
                    FeedCall::Wait,
                ),
                Decoded::MoreData => DrainProgressView::WaitIdle,
                Decoded::Failed => DrainProgressView::Failed(
                    ErrorView::mfx(status, "MFXVideoDECODE_DecodeFrameAsync"@),
                    None,
                ),
                Decoded::Ahead => if reply.sync_point == 0 {
                    DrainProgressView::Call(DrainStageView::Pause, FeedCall::Wait)
                } else if reply.surface == 0 {
                    DrainProgressView::Failed(no_surface(), None)
                } else {
                    DrainProgressView::Call(
                        DrainStageView::Sync(
                            SurfaceView { address: reply.surface, mapped: false },
                        ),
                        FeedCall::Sync { sync_point: reply.sync_point, surface: reply.surface },
                    )
                },
            },
            DrainStageView::Wait(n, last) => if n + 1 >= DEVICE_BUSY_MAX_RETRIES {
                DrainProgressView::Failed(gave_up(last), None)
            } else {
                DrainProgressView::Call(DrainStageView::Submit((n + 1) as u32), FeedCall::Submit)
            },
            DrainStageView::Pause => DrainProgressView::Call(
                DrainStageView::Submit(0),
                FeedCall::Submit,
            ),
            DrainStageView::Sync(surface) => if reply.accepted {
                DrainProgressView::Call(DrainStageView::Submit(0), FeedCall::Submit)
            } else {
                DrainProgressView::Failed(worker_gone("Decoder::finish"@), Some(surface))
            },
        }
    }
}

impl DrainRun {
    /// Takes the reply to the call named last. When the worker took an output, the surface is the
    /// worker's.
    pub fn step(self, reply: FeedReply) -> (r: DrainProgress)
        ensures
            r@ == self@.after(reply),
    {
        let status = reply.status;
        match self.stage {
            DrainStage::Submit(n) => match decode_frame_async(status) {
                Decoded::Retry => DrainProgress::Call(
                    DrainRun { stage: DrainStage::Wait(n, status) },
                    FeedCall::Wait,
                ),
                Decoded::MoreData => DrainProgress::WaitIdle,
                Decoded::Failed => DrainProgress::Failed(
                    Error::from_mfx(status, "MFXVideoDECODE_DecodeFrameAsync"),
                    None,
                ),
                Decoded::Ahead => {
                    if reply.sync_point == 0 {
                        return DrainProgress::Call(
                            DrainRun { stage: DrainStage::Pause },
                            FeedCall::Wait,
                        );
                    }
                    match FrameSurface::new(reply.surface) {
                        Ok(surface) => DrainProgress::Call(
                            DrainRun { stage: DrainStage::Sync(surface) },
                            FeedCall::Sync {
                                sync_point: reply.sync_point,
                                surface: reply.surface,
                            },
                        ),
                        Err(error) => DrainProgress::Failed(error, None),
                    }
                },
            },
            DrainStage::Wait(n, last) => if n >= DEVICE_BUSY_MAX_RETRIES - 1 {
                DrainProgress::Failed(gave_up_error(last), None)
            } else {
                DrainProgress::Call(
                    DrainRun { stage: DrainStage::Submit(n + 1) },
                    FeedCall::Submit,
                )
            },
            DrainStage::Pause => DrainProgress::Call(
                DrainRun { stage: DrainStage::Submit(0) },
                FeedCall::Submit,
            ),
            DrainStage::Sync(surface) => if reply.accepted {
                DrainProgress::Call(DrainRun { stage: DrainStage::Submit(0) }, FeedCall::Submit)
            } else {
                DrainProgress::Failed(
                    Error::new_custom("Decoder::finish", "sync worker thread is not running"),
                    Some(surface),
                )
            },
        }
    }
}

impl Decoder {
    /// Starts to flush the decoder. There is nothing to do (`None`) if nothing was ever decoded.
    pub fn finish(&self) -> (r: Option<(DrainRun, FeedCall)>)
        ensures
            match r {
                Some((run, call)) => {
                    &&& self@.initialized
                    &&& run@ == DrainStageView::Submit(0)
                    &&& call == FeedCall::Submit
                },
                None => !self@.initialized,
            },
    {
        if !self.initialized {
            return None;
        }
        Some((DrainRun { stage: DrainStage::Submit(0) }, FeedCall::Submit))
    }

    /// Takes what the worker answered to the barrier: whether it took the command, and its answer,
    /// which is absent if it ended without one.
    pub fn finish_idle(&self, accepted: bool, reply: Option<Result<(), Error>>) -> (r: Result<
        (),
        Error,
    >)
        ensures
            answer(r) == flush_answer(accepted, reply, "Decoder::finish"@),
    {
        if !accepted {
            return Err(Error::new_custom("Decoder::finish", "sync worker thread is not running"));
        }
        match reply {
            Some(result) => result,
            None => Err(
                Error::new_custom("Decoder::finish", "sync worker thread stopped unexpectedly"),
            ),
        }
    }
}

// --- Laws ---

/// A sequence number is given out once: it is used up exactly when the worker has queued its input,
/// whatever becomes of decoding; nothing else about the decoder changes on the way.
pub proof fn law_sequence_number_is_used_once(
    stage: FeedStageView,
    decoder: DecoderView,
    reply: FeedReply,
)
    ensures
        ({
            let after = stage.after(decoder, reply).0;
            &&& after == (DecoderView { frame_count: after.frame_count, ..decoder })
            &&& after.frame_count == (if stage is Queue && reply.accepted && decoder.frame_count
                < u64::MAX {
                decoder.frame_count + 1
            } else {
                decoder.frame_count as int
            })
        }),
{
}

/// The surface of an output goes to the worker or, if the worker does not take it, to whoever gives
/// it back; no other surface is ever handed out.
pub proof fn law_output_surface_goes_to_the_worker_or_back(
    stage: FeedStageView,
    decoder: DecoderView,
    reply: FeedReply,
)
    ensures
        match stage.after(decoder, reply).1 {
            FeedProgressView::Call(FeedStageView::Sync(left, surface), call) => {
                &&& call == (FeedCall::Sync {
                    sync_point: reply.sync_point,
                    surface: surface.address,
                })
                &&& surface.address == reply.surface
                &&& surface.address != 0
                &&& !surface.mapped
                &&& left == reply.data_length
            },
            FeedProgressView::Failed(_, surface) => (surface is Some <==> stage is Sync) && (
            stage matches FeedStageView::Sync(_, held) ==> surface == Some(held)),
            _ => stage is Sync ==> reply.accepted,
        },
{
}

/// The same holds of flushing: the surface of an output goes to the worker or, if the worker does not
/// take it, to whoever gives it back; no other surface is ever handed out.
pub proof fn law_flushed_surface_goes_to_the_worker_or_back(
    stage: DrainStageView,
    reply: FeedReply,
)
    ensures
        match stage.after(reply) {
            DrainProgressView::Call(DrainStageView::Sync(surface), call) => {
                &&& call == (FeedCall::Sync {
                    sync_point: reply.sync_point,
                    surface: surface.address,
                })
                &&& surface.address == reply.surface
                &&& surface.address != 0
                &&& !surface.mapped
            },
            DrainProgressView::Failed(_, surface) => (surface is Some <==> stage is Sync) && (
            stage matches DrainStageView::Sync(held) ==> surface == Some(held)),
            _ => stage is Sync ==> reply.accepted,
        },
{
}

/// What feeding comes to when the device asks so many times in a row to be tried again.
pub open spec fn retry_rounds(decoder: DecoderView, status: i32, rounds: nat) -> FeedProgressView
    decreases rounds,
{
    let again = FeedReply { status, sync_point: 0, surface: 0, data_length: 0, accepted: false };
    if rounds == 0 {
        FeedProgressView::Call(FeedStageView::Submit(0), FeedCall::Submit)
    } else {
        match retry_rounds(decoder, status, (rounds - 1) as nat) {
            FeedProgressView::Call(submitting, _) => match submitting.after(decoder, again).1 {
                FeedProgressView::Call(waiting, _) => waiting.after(decoder, again).1,
                other => other,
            },
            other => other,
        }
    }
}

/// A device that is busy, or short of surfaces, is tried thirty times, and the error says which it
/// was.
pub proof fn law_retrying_device_is_tried_thirty_times(
    decoder: DecoderView,
    status: i32,
    rounds: nat,
)
    requires
        status == sys::MFX_WRN_DEVICE_BUSY || status == sys::MFX_ERR_MORE_SURFACE,
        rounds <= DEVICE_BUSY_MAX_RETRIES,
    ensures
        retry_rounds(decoder, status, rounds) == (if rounds < DEVICE_BUSY_MAX_RETRIES {
            FeedProgressView::Call(FeedStageView::Submit(rounds as u32), FeedCall::Submit)
        } else {
            FeedProgressView::Failed(gave_up(status), None)
        }),
    decreases rounds,
{
    if rounds > 0 {
        law_retrying_device_is_tried_thirty_times(decoder, status, (rounds - 1) as nat);
    }
}

/// What flushing comes to when the device asks so many times in a row to be tried again.
pub open spec fn drain_retry_rounds(status: i32, rounds: nat) -> DrainProgressView
    decreases rounds,
{
    let again = FeedReply { status, sync_point: 0, surface: 0, data_length: 0, accepted: false };
    if rounds == 0 {
        DrainProgressView::Call(DrainStageView::Submit(0), FeedCall::Submit)
    } else {
        match drain_retry_rounds(status, (rounds - 1) as nat) {
            DrainProgressView::Call(submitting, _) => match submitting.after(again) {
                DrainProgressView::Call(waiting, _) => waiting.after(again),
                other => other,
            },
            other => other,
        }
    }
}

/// The same holds of flushing: thirty times, and the error says what it was.
pub proof fn law_retrying_device_is_flushed_thirty_times(status: i32, rounds: nat)
    requires
        status == sys::MFX_WRN_DEVICE_BUSY || status == sys::MFX_ERR_MORE_SURFACE,
        rounds <= DEVICE_BUSY_MAX_RETRIES,
    ensures
        drain_retry_rounds(status, rounds) == (if rounds < DEVICE_BUSY_MAX_RETRIES {
            DrainProgressView::Call(DrainStageView::Submit(rounds as u32), FeedCall::Submit)
        } else {
            DrainProgressView::Failed(gave_up(status), None)
        }),
    decreases rounds,
{
    if rounds > 0 {
        law_retrying_device_is_flushed_thirty_times(status, (rounds - 1) as nat);
    }
}

/// An output of the device: its sync point, its surface, and the bytes of the bitstream left.
pub struct Output {
    pub sync_point: usize,
    pub surface: usize,
    pub left: u32,
}

/// How a device that has these outputs left, and a worker that takes them, reply.
pub open spec fn output_reply(outputs: Seq<Output>, call: FeedCall) -> FeedReply {
    match call {
        FeedCall::Submit => if outputs.len() > 0 {
            FeedReply {
                status: sys::MFX_ERR_NONE,
                sync_point: outputs.first().sync_point,
                surface: outputs.first().surface,
                data_length: outputs.first().left,
                accepted: false,
            }
        } else {
            FeedReply {
                status: sys::MFX_ERR_MORE_DATA,
                sync_point: 0,
                surface: 0,
                data_length: 0,
                accepted: false,
            }
        },
        _ => FeedReply {
            status: sys::MFX_ERR_NONE,
            sync_point: 0,
            surface: 0,
            data_length: 0,
            accepted: true,
        },
    }
}

/// The outputs that remain after a call.
pub open spec fn outputs_after(outputs: Seq<Output>, call: FeedCall) -> Seq<Output> {
    if call == FeedCall::Submit && outputs.len() > 0 {
        outputs.drop_first()
    } else {
        outputs
    }
}

/// The sync points and surfaces that are handed to the worker in a call.
pub open spec fn handed_in(call: FeedCall) -> Seq<(usize, usize)> {
    match call {
        FeedCall::Sync { sync_point, surface } => seq![(sync_point, surface)],
        _ => Seq::empty(),
    }
}

/// The sync points and surfaces of outputs.
pub open spec fn handles(outputs: Seq<Output>) -> Seq<(usize, usize)> {
    outputs.map_values(|output: Output| (output.sync_point, output.surface))
}

/// Whether every output has its handles, and only the last may leave nothing of the bitstream.
pub open spec fn are_outputs(outputs: Seq<Output>) -> bool {
    forall|i: int|
        0 <= i < outputs.len() ==> {
            &&& (#[trigger] outputs[i]).sync_point != 0
            &&& outputs[i].surface != 0
            &&& i < outputs.len() - 1 ==> outputs[i].left > 0
        }
}

/// What feeding hands to the worker, and what it comes to, with so many calls.
pub open spec fn feed_run(
    at: FeedProgressView,
    decoder: DecoderView,
    outputs: Seq<Output>,
    calls: nat,
) -> (Seq<(usize, usize)>, FeedProgressView)
    decreases calls,
{
    match at {
        FeedProgressView::Call(stage, call) => if calls == 0 {
            (Seq::empty(), at)
        } else {
            let (handed, end) = feed_run(
                stage.after(decoder, output_reply(outputs, call)).1,
                decoder,
                outputs_after(outputs, call),
                (calls - 1) as nat,
            );
            (handed_in(call) + handed, end)
        },
        _ => (Seq::empty(), at),
    }
}

/// Feeding hands every output that the device gives for a bitstream to the worker, in order and once.
pub proof fn law_feeding_hands_over_every_output(decoder: DecoderView, outputs: Seq<Output>)
    requires
        are_outputs(outputs),
    ensures
        feed_run(
            FeedProgressView::Call(FeedStageView::Submit(0), FeedCall::Submit),
            decoder,
            outputs,
            2 * outputs.len() + 1,
        ) == (handles(outputs), FeedProgressView::Done),
    decreases outputs.len(),
{
    reveal_with_fuel(feed_run, 3);
    if outputs.len() > 0 {
        let rest = outputs.drop_first();
        assert forall|i: int| 0 <= i < rest.len() implies {
            &&& (#[trigger] rest[i]).sync_point != 0
            &&& rest[i].surface != 0
            &&& i < rest.len() - 1 ==> rest[i].left > 0
        } by {
            assert(rest[i] == outputs[i + 1]);
        }
        law_feeding_hands_over_every_output(decoder, rest);
        assert(outputs.first() == outputs[0]);
        assert(seq![(outputs[0].sync_point, outputs[0].surface)] + handles(rest) =~= handles(
            outputs,
        ));
        if rest.len() == 0 {
            assert(handles(rest) =~= Seq::empty());
        }
    } else {
        assert(handles(outputs) =~= Seq::empty());
    }
}

/// What flushing hands to the worker, and what it comes to, with so many calls.
pub open spec fn drain_run(at: DrainProgressView, outputs: Seq<Output>, calls: nat) -> (
    Seq<(usize, usize)>,
    DrainProgressView,
)
    decreases calls,
{
    match at {
        DrainProgressView::Call(stage, call) => if calls == 0 {
            (Seq::empty(), at)
        } else {
            let (handed, end) = drain_run(
                stage.after(output_reply(outputs, call)),
                outputs_after(outputs, call),
                (calls - 1) as nat,
            );
            (handed_in(call) + handed, end)
        },
        _ => (Seq::empty(), at),
    }
}

/// Flushing hands every output that the device has left to the worker, in order and once, and then
/// asks the worker whether nothing is pending.
pub proof fn law_flush_hands_over_every_output(outputs: Seq<Output>)
    requires
        forall|i: int|
            0 <= i < outputs.len() ==> (#[trigger] outputs[i]).sync_point != 0
                && outputs[i].surface != 0,
    ensures
        drain_run(
            DrainProgressView::Call(DrainStageView::Submit(0), FeedCall::Submit),
            outputs,
            2 * outputs.len() + 1,
        ) == (handles(outputs), DrainProgressView::WaitIdle),
    decreases outputs.len(),
{
    reveal_with_fuel(drain_run, 3);
    if outputs.len() > 0 {
        let rest = outputs.drop_first();
        assert(outputs.first() == outputs[0]);
        law_flush_hands_over_every_output(rest);
        assert(seq![(outputs[0].sync_point, outputs[0].surface)] + handles(rest) =~= handles(
            outputs,
        ));
    } else {
        assert(handles(outputs) =~= Seq::empty());
    }
}

/// A call of [`Decoder::decode`], and what is replied to the calls that it takes.
pub struct DecodeAttempt<T> {
    /// The length of the bitstream.
    pub len: nat,
    pub user_data: T,
    /// The status of `MFXVideoDECODE_DecodeHeader`, which a decoder that is not open calls first.
    pub header_status: i32,
    /// How many bytes that call leaves.
    pub left: u32,
    /// The status of `MFXVideoDECODE_Init`, which it calls next.
    pub init_status: i32,
    /// The replies from the worker's to the input on.
    pub replies: Seq<FeedReply>,
}

/// What feeding comes to with these replies, and what it does to the decoder.
pub open spec fn feed_replies(
    decoder: DecoderView,
    at: FeedProgressView,
    replies: Seq<FeedReply>,
) -> (DecoderView, FeedProgressView)
    decreases replies.len(),
{
    match at {
        FeedProgressView::Call(stage, _) => if replies.len() == 0 {
            (decoder, at)
        } else {
            let (after, next) = stage.after(decoder, replies.first());
            feed_replies(after, next, replies.drop_first())
        },
        _ => (decoder, at),
    }
}

impl DecoderView {
    /// Whether an attempt gets as far as handing its input to the worker.
    pub open spec fn starts<T>(self, attempt: DecodeAttempt<T>) -> bool {
        &&& attempt.len <= u32::MAX
        &&& self.initialized || {
            &&& check(attempt.header_status, "MFXVideoDECODE_DecodeHeader"@) is Ok
            &&& check_allow_warn(attempt.init_status, "MFXVideoDECODE_Init"@) is Ok
        }
    }

    /// What the worker takes into its queue in an attempt: nothing if the input does not get there.
    pub open spec fn queues<T>(self, attempt: DecodeAttempt<T>) -> Option<(u64, T)> {
        if self.starts(attempt) && attempt.replies.len() > 0 && attempt.replies.first().accepted {
            let input = self.queue_input(attempt.left, attempt.user_data);
            Some((input.frame_seq, input.user_data))
        } else {
            None
        }
    }

    /// The decoder after an attempt, however it ends.
    pub open spec fn attempted<T>(self, attempt: DecodeAttempt<T>) -> DecoderView {
        if self.starts(attempt) && attempt.replies.len() > 0 {
            let left = if self.initialized {
                attempt.len as u32
            } else {
                attempt.left
            };
            let (after, next) = FeedStageView::Queue(left).after(
                DecoderView { initialized: true, ..self },
                attempt.replies.first(),
            );
            feed_replies(after, next, attempt.replies.drop_first()).0
        } else {
            DecoderView { initialized: self.initialized || self.starts(attempt), ..self }
        }
    }

    /// What the worker takes into its queue in the course of these attempts.
    pub open spec fn queues_in_turn<T>(self, attempts: Seq<DecodeAttempt<T>>) -> Seq<(u64, T)>
        decreases attempts.len(),
    {
        if attempts.len() == 0 {
            Seq::empty()
        } else {
            let rest = self.attempted(attempts.first()).queues_in_turn(attempts.drop_first());
            match self.queues(attempts.first()) {
                Some(queued) => seq![queued] + rest,
                None => rest,
            }
        }
    }
}

proof fn lemma_feeding_uses_no_number(
    decoder: DecoderView,
    at: FeedProgressView,
    replies: Seq<FeedReply>,
)
    requires
        at is Call ==> at->Call_0 !is Queue,
    ensures
        feed_replies(decoder, at, replies).0 == decoder,
    decreases replies.len(),
{
    if at is Call && replies.len() > 0 {
        let (after, next) = at->Call_0.after(decoder, replies.first());
        lemma_feeding_uses_no_number(after, next, replies.drop_first());
    }
}

/// However an attempt ends, it uses up one sequence number if the worker took its input into the
/// queue, and none otherwise.
pub proof fn law_attempt_uses_one_number_if_queued<T>(
    decoder: DecoderView,
    attempt: DecodeAttempt<T>,
)
    requires
        decoder.frame_count < u64::MAX,
    ensures
        decoder.attempted(attempt).frame_count == decoder.frame_count + (if decoder.queues(
            attempt,
        ) is Some {
            1int
        } else {
            0int
        }),
{
    if decoder.starts(attempt) && attempt.replies.len() > 0 {
        let left = if decoder.initialized {
            attempt.len as u32
        } else {
            attempt.left
        };
        let (after, next) = FeedStageView::Queue(left).after(
            DecoderView { initialized: true, ..decoder },
            attempt.replies.first(),
        );
        lemma_feeding_uses_no_number(after, next, attempt.replies.drop_first());
    }
}

/// Over any sequence of attempts, and however each of them ends, the inputs that are queued are
/// numbered one after the other: a number is never given out twice.
pub proof fn law_inputs_are_numbered_in_turn<T>(
    decoder: DecoderView,
    attempts: Seq<DecodeAttempt<T>>,
    k: int,
)
    requires
        decoder.frame_count + attempts.len() <= u64::MAX,
        0 <= k < decoder.queues_in_turn(attempts).len(),
    ensures
        decoder.queues_in_turn(attempts)[k].0 == decoder.frame_count + k,
    decreases attempts.len(),
{
    let next = decoder.attempted(attempts.first());
    let rest = attempts.drop_first();
    law_attempt_uses_one_number_if_queued(decoder, attempts.first());
    match decoder.queues(attempts.first()) {
        Some(_) => {
            if k > 0 {
                law_inputs_are_numbered_in_turn(next, rest, k - 1);
                assert(decoder.queues_in_turn(attempts)[k] == next.queues_in_turn(rest)[k - 1]);
            }
        },
        None => {
            law_inputs_are_numbered_in_turn(next, rest, k);
        },
    }
}

/// The numbers of the inputs that a decoder queues strictly ascend.
pub proof fn law_decoder_queues_ascending_numbers<T>(
    decoder: DecoderView,
    attempts: Seq<DecodeAttempt<T>>,
    commands: Seq<WorkerCommand<T>>,
)
    requires
        decoder.frame_count + attempts.len() <= u64::MAX,
        queued_frames(commands) == decoder.queues_in_turn(attempts),
    ensures
        numbers_ascend(commands),
{
    let queued = queued_frames(commands);
    assert forall|k: int, l: int| 0 <= k < l < queued.len() implies (#[trigger] queued[k]).0 < (
    #[trigger] queued[l]).0 by {
        law_inputs_are_numbered_in_turn(decoder, attempts, k);
        law_inputs_are_numbered_in_turn(decoder, attempts, l);
    }
    law_ascending_frames_make_ascending_commands(commands);
}

/// If flushing succeeds, an input that the decoder had queued before, and that gave no error, has come
/// out exactly once, with the user data that was handed in with it.
pub proof fn law_finish_has_returned_every_input<T>(
    decoder: DecoderView,
    attempts: Seq<DecodeAttempt<T>>,
    stores: Seq<Map<u64, T>>,
    commands: Seq<WorkerCommand<T>>,
    outs: Seq<WorkerOutputView<T>>,
    i: int,
    n: int,
)
    requires
        decoder.frame_count + attempts.len() <= u64::MAX,
        worker_run(stores, commands, outs),
        queued_frames(commands) == decoder.queues_in_turn(attempts),
        0 <= i < n < outs.len(),
        commands[i] is QueueFrame,
        commands[n] is WaitIdle,
        outs[n].reply == Some(Ok::<(), ErrorView>(())),
        goes_well(commands, outs, i, n, commands[i]->QueueFrame_frame_seq),
    ensures
        ({
            let frame_seq = commands[i]->QueueFrame_frame_seq;
            let user_data = commands[i]->QueueFrame_user_data;
            &&& exists|at: int|
                i < at < n && #[trigger] delivered_at(commands, outs, at, frame_seq, user_data)
            &&& forall|at: int, other: int|
                0 <= at < outs.len() && 0 <= other < outs.len() && #[trigger] gave_frame_at(
                    commands,
                    outs,
                    at,
                    frame_seq,
                ) && #[trigger] gave_frame_at(commands, outs, other, frame_seq) ==> at == other
        }),
{
    let frame_seq = commands[i]->QueueFrame_frame_seq;
    let user_data = commands[i]->QueueFrame_user_data;
    law_decoder_queues_ascending_numbers(decoder, attempts, commands);
    assert(queued_at(commands, i, frame_seq, user_data));
    law_successful_flush_delivered_every_frame_once(
        stores,
        commands,
        outs,
        i,
        n,
        frame_seq,
        user_data,
    );
    assert forall|at: int, other: int|
        0 <= at < outs.len() && 0 <= other < outs.len() && #[trigger] gave_frame_at(
            commands,
            outs,
            at,
            frame_seq,
        ) && #[trigger] gave_frame_at(commands, outs, other, frame_seq) implies at == other by {
        law_frame_is_delivered_at_most_once(stores, commands, outs, frame_seq, at, other);
    }
}

/// A decoder names its codec by the four-character code.
pub proof fn law_decoders_name_their_codec(codec: DecoderCodec)
    ensures
        codec == DecoderCodec::H264 <==> codec.codec_id() == sys::four_characters('A', 'V', 'C', ' '),
        codec == DecoderCodec::Hevc <==> codec.codec_id() == sys::four_characters('H', 'E', 'V', 'C'),
        codec == DecoderCodec::Vp9 <==> codec.codec_id() == sys::four_characters('V', 'P', '9', ' '),
        codec == DecoderCodec::Av1 <==> codec.codec_id() == sys::four_characters('A', 'V', '1', ' '),
{
}

/// A header is read for the codec and the depth of the settings, into NV12 frames in system memory;
/// everything else is left to the header.
pub proof fn law_header_is_read_for_the_settings(decoder: DecoderView)
    ensures
        ({
            let block = decoder.header_block();
            let info = block.frame_info;
            &&& block.codec_id == decoder.codec.codec_id()
            &&& block.async_depth == decoder.async_depth
            &&& block.io_pattern == 0x20
            &&& info.fourcc == sys::MFX_FOURCC_NV12
            &&& info.chroma_format == 1
            &&& info.pic_struct == 1
            &&& block.codec_profile == 0 && block.codec_level == 0 && block.num_thread == 0
            &&& block.alloc_id == 0 && block.protected == 0
            &&& block.low_power == 0 && block.brc_param_multiplier == 0
            &&& block.target_usage == 0 && block.gop_pic_size == 0 && block.gop_ref_dist == 0
            &&& block.gop_opt_flag == 0 && block.idr_interval == 0
            &&& block.rate_control_method == 0 && block.initial_delay_in_kb == 0
            &&& block.buffer_size_in_kb == 0 && block.target_kbps == 0 && block.max_kbps == 0
            &&& block.num_slice == 0 && block.num_ref_frame == 0 && block.encoded_order == 0
            &&& block.look_ahead_depth is None && block.qvbr_quality is None
            &&& block.write_ivf_headers is None
            &&& info.width == 0 && info.height == 0
            &&& info.crop_x == 0 && info.crop_y == 0 && info.crop_w == 0 && info.crop_h == 0
            &&& info.frame_rate_ext_n == 0 && info.frame_rate_ext_d == 0
            &&& info.aspect_ratio_w == 0 && info.aspect_ratio_h == 0
            &&& info.bit_depth_luma == 0 && info.bit_depth_chroma == 0 && info.shift == 0
            &&& info.temporal_id == 0 && info.priority_id == 0
            &&& info.dependency_id == 0 && info.quality_id == 0
        }),
{
}

/// The device is to be tried again, needs more, failed, or went on, by its status: any other negative
/// one is an error, and a warning is none.
pub proof fn law_decoding_goes_by_the_status(status: i32)
    ensures
        decoded(status) == Decoded::Retry <==> status == 2 || status == -11,
        decoded(status) == Decoded::MoreData <==> status == -10,
        decoded(status) == Decoded::Failed <==> status < 0 && status != -10 && status != -11,
        decoded(status) == Decoded::Ahead <==> status >= 0 && status != 2,
{
}

/// A device that had to be tried too often is complained about by what it said last.
pub proof fn law_giving_up_says_why(status: i32)
    ensures
        gave_up(status).function == "MFXVideoDECODE_DecodeFrameAsync"@,
        gave_up(status).status_code is None,
        status == -11 ==> gave_up(status).status_message == Some("more surface after max retries"@),
        status != -11 ==> gave_up(status).status_message == Some("device busy after max retries"@),
        no_surface() == ErrorView::custom("FrameSurface::new"@, "surface pointer is null"@),
{
}

/// An input that the worker has queued uses up its number, whatever becomes of it, and is then decoded
/// as long as bytes are left; one that the worker did not take fails and uses up nothing.
pub proof fn law_queued_input_is_decoded(decoder: DecoderView, left: u32, reply: FeedReply)
    ensures
        ({
            let (after, progress) = FeedStageView::Queue(left).after(decoder, reply);
            let counts = reply.accepted && decoder.frame_count < u64::MAX;
            &&& after.codec == decoder.codec
            &&& after.async_depth == decoder.async_depth
            &&& after.initialized == decoder.initialized
            &&& after.frame_count == decoder.frame_count + (if counts {
                1int
            } else {
                0int
            })
            &&& counts && left > 0 ==> progress == FeedProgressView::Call(
                FeedStageView::Submit(0),
                FeedCall::Submit,
            )
            &&& counts && left == 0 ==> progress is Done
            &&& !reply.accepted ==> progress == FeedProgressView::Failed(
                ErrorView::custom("Decoder::decode"@, "sync worker thread is not running"@),
                None,
            )
            &&& reply.accepted && !counts ==> progress == FeedProgressView::Failed(
                ErrorView::custom("Decoder::decode"@, "frame sequence overflowed"@),
                None,
            )
        }),
{
}

/// Feeding goes on as long as bytes are left: a device that asks for it is tried again after a wait,
/// an output goes to the worker with its surface, and an output that is none is passed over. It is done
/// when the device needs more or nothing is left. The decoder does not change on the way.
pub proof fn law_feeding_goes_on_while_bytes_are_left(
    stage: FeedStageView,
    decoder: DecoderView,
    reply: FeedReply,
)
    requires
        stage !is Queue,
    ensures
        ({
            let (after, progress) = stage.after(decoder, reply);
            let status = reply.status;
            let submit = FeedProgressView::Call(FeedStageView::Submit(0), FeedCall::Submit);
            &&& after == decoder
            &&& match stage {
                FeedStageView::Queue(_) => true,
                FeedStageView::Submit(n) => {
                    let ahead = status >= 0 && status != 2;
                    &&& status == 2 || status == -11 ==> progress == FeedProgressView::Call(
                        FeedStageView::Wait(n, status),
                        FeedCall::Wait,
                    )
                    &&& status == -10 ==> progress is Done
                    &&& status < 0 && status != -10 && status != -11 ==> progress
                        == FeedProgressView::Failed(
                        ErrorView::mfx(status, "MFXVideoDECODE_DecodeFrameAsync"@),
                        None,
                    )
                    &&& ahead && reply.sync_point == 0 ==> progress == (if reply.data_length > 0 {
                        submit
                    } else {
                        FeedProgressView::Done
                    })
                    &&& ahead && reply.sync_point != 0 && reply.surface != 0 ==> progress
                        == FeedProgressView::Call(
                        FeedStageView::Sync(
                            reply.data_length,
                            SurfaceView { address: reply.surface, mapped: false },
                        ),
                        FeedCall::Sync { sync_point: reply.sync_point, surface: reply.surface },
                    )
                    &&& ahead && reply.sync_point != 0 && reply.surface == 0 ==> progress
                        == FeedProgressView::Failed(
                        ErrorView::custom("FrameSurface::new"@, "surface pointer is null"@),
                        None,
                    )
                },
                FeedStageView::Wait(n, last) => progress == (if n < 29 {
                    FeedProgressView::Call(FeedStageView::Submit((n + 1) as u32), FeedCall::Submit)
                } else {
                    FeedProgressView::Failed(gave_up(last), None)
                }),
                FeedStageView::Sync(left, surface) => progress == (if !reply.accepted {
                    FeedProgressView::Failed(
                        ErrorView::custom(
                            "Decoder::decode"@,
                            "sync worker thread is not running"@,
                        ),
                        Some(surface),
                    )
                } else if left > 0 {
                    submit
                } else {
                    FeedProgressView::Done
                }),
            }
        }),
{
}

/// Flushing asks the device for outputs until it has no more: a device that asks for it is tried again
/// after a wait, an output goes to the worker with its surface, and without an output the device is
/// asked again after a wait.
pub proof fn law_flushing_goes_on_until_nothing_is_left(stage: DrainStageView, reply: FeedReply)
    ensures
        ({
            let progress = stage.after(reply);
            let status = reply.status;
            let submit = DrainProgressView::Call(DrainStageView::Submit(0), FeedCall::Submit);
            match stage {
                DrainStageView::Submit(n) => {
                    let ahead = status >= 0 && status != 2;
                    &&& status == 2 || status == -11 ==> progress == DrainProgressView::Call(
                        DrainStageView::Wait(n, status),
                        FeedCall::Wait,
                    )
                    &&& status == -10 <==> progress is WaitIdle
                    &&& status < 0 && status != -10 && status != -11 ==> progress
                        == DrainProgressView::Failed(
                        ErrorView::mfx(status, "MFXVideoDECODE_DecodeFrameAsync"@),
                        None,
                    )
                    &&& ahead && reply.sync_point == 0 ==> progress == DrainProgressView::Call(
                        DrainStageView::Pause,
                        FeedCall::Wait,
                    )
                    &&& ahead && reply.sync_point != 0 && reply.surface != 0 ==> progress
                        == DrainProgressView::Call(
                        DrainStageView::Sync(
                            SurfaceView { address: reply.surface, mapped: false },
                        ),
                        FeedCall::Sync { sync_point: reply.sync_point, surface: reply.surface },
                    )
                    &&& ahead && reply.sync_point != 0 && reply.surface == 0 ==> progress
                        == DrainProgressView::Failed(
                        ErrorView::custom("FrameSurface::new"@, "surface pointer is null"@),
                        None,
                    )
                },
                DrainStageView::Wait(n, last) => progress == (if n < 29 {
                    DrainProgressView::Call(
                        DrainStageView::Submit((n + 1) as u32),
                        FeedCall::Submit,
                    )
                } else {
                    DrainProgressView::Failed(gave_up(last), None)
                }),
                DrainStageView::Pause => progress == submit,
                DrainStageView::Sync(surface) => progress == (if reply.accepted {
                    submit
                } else {
                    DrainProgressView::Failed(
                        ErrorView::custom(
                            "Decoder::finish"@,
                            "sync worker thread is not running"@,
                        ),
                        Some(surface),
                    )
                }),
            }
        }),
{
}

/// An input is queued under the number of inputs before it, with the caller's user data, and all of its
/// bytes are to be decoded.
pub proof fn law_input_is_queued_as_handed_in<T>(decoder: DecoderView, left: u32, user_data: T)
    ensures
        ({
            let input = decoder.queue_input(left, user_data);
            &&& input.frame_seq == decoder.frame_count
            &&& input.user_data == user_data
            &&& input.stage == FeedStageView::Queue(left)
        }),
{
}

} // verus!
