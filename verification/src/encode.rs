//! The encoder: how it is set up, how a frame goes through the device, and how it is flushed.
//!
//! Calls of the device and of the worker are named here and made elsewhere: a procedure names the
//! next call, is stepped with the reply, and says in the end what came of it.
use vstd::prelude::*;

use crate::config::coding_option_name;
use crate::config::coding_option_text;
use crate::config::CodecConfig;
use crate::config::EncodeOptions;
use crate::config::EncoderConfig;
use crate::config::EncoderStats;
use crate::config::ReconfigureParams;
use crate::encode_worker::delivered_at;
use crate::encode_worker::flushes_succeed;
use crate::encode_worker::gave_frame_at;
use crate::encode_worker::law_ascending_frames_make_ascending_commands;
use crate::encode_worker::law_encoded_frame_carries_what_was_queued;
use crate::encode_worker::law_frame_is_delivered_at_most_once;
use crate::encode_worker::law_successful_flush_delivered_every_frame_once;
use crate::encode_worker::lemma_queued_place;
use crate::encode_worker::numbers_ascend;
use crate::encode_worker::queued_at;
use crate::encode_worker::queued_frames;
use crate::encode_worker::worker_run;
use crate::encode_worker::EncodedFrameView;
use crate::encode_worker::PendingFrame;
use crate::encode_worker::WorkerCommand;
use crate::encode_worker::WorkerOutputView;
use crate::error::answer;
use crate::error::check;
use crate::error::check_allow_warn;
use crate::error::Error;
use crate::error::ErrorView;
use crate::format::FrameFormat;
use crate::loader::session_start;
use crate::loader::LoaderCall;
use crate::loader::SessionSetup;
use crate::param::encoder_plan;
use crate::param::or_default;
use crate::param::plan_encoder;
use crate::param::FrameInfo;
use crate::param::VideoParam;
use crate::sequence::lemma_present_at;
use crate::sequence::lemma_present_from;
use crate::sequence::lemma_present_order;
use crate::sequence::present;
use crate::sequence::present_before;
use crate::sys;
use crate::text::decimal;
use crate::text::push_decimal;
use crate::vpl::FrameSurface;
use crate::vpl::SurfaceCall;
use crate::vpl::SurfaceView;
use crate::vpl::VplLibrary;

verus! {

/// How often a frame is handed to a busy device before giving up.
pub const DEVICE_BUSY_MAX_RETRIES: u32 = 30;

/// The reply to a call of the device or of the worker.
#[derive(Debug, Clone, Copy, PartialEq, Eq, Structural)]
pub struct DriverReply {
    /// The status returned; `MFX_ERR_NONE` for a call that returns none.
    pub status: i32,
    /// The surface or the sync point stored; 0 for a null one.
    pub handle: usize,
    /// Whether the worker took the command.
    pub accepted: bool,
}

// --- Setting up ---

/// Why an encoder could not be set up.
#[derive(Debug)]
pub struct SetupFailure {
    pub error: Error,
    /// Whether the device's encoder is open and has to be closed.
    pub close: bool,
}

/// An encoder whose settings were accepted and whose session is being opened.
#[derive(Debug)]
pub struct EncoderPlan {
    param: VideoParam,
    frame_format: FrameFormat,
    framerate_den: u32,
}

/// What an [`EncoderPlan`] is.
pub struct EncoderPlanView {
    /// The parameter block for the device's encoder.
    pub param: VideoParam,
    pub frame_format: FrameFormat,
    pub framerate_den: u32,
}

/// The plan of settings that became this block.
pub open spec fn plan_view_of(config: EncoderConfig, param: VideoParam) -> EncoderPlanView {
    EncoderPlanView {
        param,
        frame_format: config.frame_format,
        framerate_den: config.framerate_den,
    }
}

impl View for EncoderPlan {
    type V = EncoderPlanView;

    closed spec fn view(&self) -> EncoderPlanView {
        EncoderPlanView {
            param: self.param,
            frame_format: self.frame_format,
            framerate_den: self.framerate_den,
        }
    }
}

impl EncoderPlanView {
    /// The block that effective parameters are read back into: what initialisation left, with an
    /// empty extension buffer for VP9.
    pub open spec fn read_back_block(self, param: VideoParam) -> VideoParam {
        VideoParam {
            write_ivf_headers: if self.param.write_ivf_headers is Some {
                Some(sys::MFX_CODINGOPTION_UNKNOWN)
            } else {
                None
            },
            ..param.without_extensions()
        }
    }

    /// What is wrong with the parameters that were read back, if anything: VP9 stream headers have
    /// to be as they were asked for.
    pub open spec fn complaint(self, status: i32, param: VideoParam) -> Option<ErrorView> {
        if status != sys::MFX_ERR_NONE {
            Some(ErrorView::mfx(status, "MFXVideoENCODE_GetVideoParam"@))
        } else {
            match self.param.write_ivf_headers {
                Some(expected) => {
                    let effective = or_default(
                        param.write_ivf_headers,
                        sys::MFX_CODINGOPTION_UNKNOWN,
                    );
                    if effective != expected {
                        Some(
                            ErrorView::custom(
                                "Encoder::new"@,
                                "VP9 WriteIVFHeaders mismatch: requested "@ + coding_option_text(
                                    expected,
                                ) + " but got "@ + coding_option_text(effective),
                            ),
                        )
                    } else {
                        None
                    }
                },
                None => None,
            }
        }
    }

    /// The encoder that the plan becomes with these effective parameters.
    pub open spec fn encoder(self, param: VideoParam) -> EncoderView {
        EncoderView {
            video_param: param.without_extensions(),
            frame_info: param.frame_info,
            frame_format: self.frame_format,
            write_ivf_headers: self.param.write_ivf_headers == Some(sys::MFX_CODINGOPTION_ON),
            bitstream_buffer_size: self.param.buffer_size_in_kb as nat * 1024,
            frame_count: 0,
            framerate_den: self.framerate_den as u64,
        }
    }
}

impl EncoderPlan {
    #[verifier::type_invariant]
    spec fn inv(self) -> bool {
        self.framerate_den > 0
    }

    /// The block for `MFXVideoENCODE_Init`.
    pub fn init_param(&self) -> (r: VideoParam)
        ensures
            r == self@.param,
    {
        self.param
    }

    /// Takes the status of `MFXVideoENCODE_Init` and the block that it left. Names the block for
    /// `MFXVideoENCODE_GetVideoParam`.
    pub fn initialized(self, status: i32, param: VideoParam) -> (r: Result<
        (EncoderReadBack, VideoParam),
        SetupFailure,
    >)
        ensures
            match r {
                Ok((next, block)) => {
                    &&& check_allow_warn(status, "MFXVideoENCODE_Init"@) is Ok
                    &&& next@ == self@
                    &&& block == self@.read_back_block(param)
                },
                Err(failure) => {
                    &&& check_allow_warn(status, "MFXVideoENCODE_Init"@) == Err::<(), ErrorView>(
                        failure.error@,
                    )
                    &&& !failure.close
                },
            },
    {
        if let Err(error) = VplLibrary.mfx_video_encode_init(status) {
            return Err(SetupFailure { error, close: false });
        }
        let mut block = param.without_extensions();
        if self.param.write_ivf_headers.is_some() {
            block.write_ivf_headers = Some(sys::MFX_CODINGOPTION_UNKNOWN);
        }
        Ok((EncoderReadBack { plan: self }, block))
    }
}

/// An encoder whose effective parameters are being read back.
#[derive(Debug)]
pub struct EncoderReadBack {
    plan: EncoderPlan,
}

impl View for EncoderReadBack {
    type V = EncoderPlanView;

    closed spec fn view(&self) -> EncoderPlanView {
        self.plan@
    }
}

impl EncoderReadBack {
    /// Takes the status of `MFXVideoENCODE_GetVideoParam` and the block that it filled. If all is
    /// well, the worker is started next.
    pub fn read_back(self, status: i32, param: VideoParam) -> (r: Result<
        EncoderReady,
        SetupFailure,
    >)
        ensures
            match r {
                Ok(ready) => {
                    &&& self@.complaint(status, param) is None
                    &&& ready@ == self@.encoder(param)
                },
                Err(failure) => {
                    &&& self@.complaint(status, param) == Some(failure.error@)
                    &&& failure.close
                },
            },
    {
        let EncoderReadBack { plan } = self;
        proof {
            use_type_invariant(&plan);
        }
        if let Err(error) = VplLibrary.mfx_video_encode_get_video_param(status) {
            return Err(SetupFailure { error, close: true });
        }
        if let Some(expected) = plan.param.write_ivf_headers {
            let effective: u16 = param.write_ivf_headers.unwrap_or(sys::MFX_CODINGOPTION_UNKNOWN);
            if effective != expected {
                let mut message = "VP9 WriteIVFHeaders mismatch: requested ".to_owned();
                message.append(coding_option_name(expected).as_str());
                message.append(" but got ");
                message.append(coding_option_name(effective).as_str());
                return Err(
                    SetupFailure {
                        error: Error::new_custom_owned("Encoder::new", message),
                        close: true,
                    },
                );
            }
        }
        let write_ivf_headers = match plan.param.write_ivf_headers {
            Some(value) => value == sys::MFX_CODINGOPTION_ON,
            None => false,
        };
        Ok(
            EncoderReady {
                encoder: Encoder {
                    video_param: param.without_extensions(),
                    frame_info: param.frame_info,
                    frame_format: plan.frame_format,
                    write_ivf_headers,
                    bitstream_buffer_size: plan.param.buffer_size_in_kb as usize * 1024,
                    frame_count: 0,
                    framerate_den: plan.framerate_den as u64,
                },
            },
        )
    }
}

/// An encoder whose worker is being started.
#[derive(Debug)]
pub struct EncoderReady {
    encoder: Encoder,
}

impl View for EncoderReady {
    type V = EncoderView;

    closed spec fn view(&self) -> EncoderView {
        self.encoder@
    }
}

impl EncoderReady {
    /// Takes what starting the worker came to: nothing, or the text of the error.
    pub fn started(self, spawn_error: Option<String>) -> (r: Result<Encoder, SetupFailure>)
        ensures
            match r {
                Ok(encoder) => spawn_error is None && encoder@ == self@ && encoder@.wf(),
                Err(failure) => {
                    &&& spawn_error is Some
                    &&& failure.error@ == ErrorView::custom(
                        "Encoder::new"@,
                        "failed to spawn sync worker thread: "@ + spawn_error->0@,
                    )
                    &&& failure.close
                },
            },
    {
        proof {
            use_type_invariant(&self.encoder);
        }
        match spawn_error {
            None => Ok(self.encoder),
            Some(text) => {
                let mut message = "failed to spawn sync worker thread: ".to_owned();
                message.append(text.as_str());
                Err(
                    SetupFailure {
                        error: Error::new_custom_owned("Encoder::new", message),
                        close: true,
                    },
                )
            },
        }
    }
}

// --- The encoder ---

/// A running encoder.
#[derive(Debug)]
pub struct Encoder {
    video_param: VideoParam,
    frame_info: FrameInfo,
    frame_format: FrameFormat,
    write_ivf_headers: bool,
    bitstream_buffer_size: usize,
    frame_count: u64,
    framerate_den: u64,
}

/// The state of an [`Encoder`].
pub struct EncoderView {
    /// The parameter block, as the device reported it and as it was changed since.
    pub video_param: VideoParam,
    /// The frame description that the device reported.
    pub frame_info: FrameInfo,
    pub frame_format: FrameFormat,
    pub write_ivf_headers: bool,
    /// The size of the buffer that an output is written to.
    pub bitstream_buffer_size: nat,
    /// The number of frames taken, which is the sequence number of the next.
    pub frame_count: u64,
    /// The time from one frame to the next.
    pub framerate_den: u64,
}

impl View for Encoder {
    type V = EncoderView;

    closed spec fn view(&self) -> EncoderView {
        EncoderView {
            video_param: self.video_param,
            frame_info: self.frame_info,
            frame_format: self.frame_format,
            write_ivf_headers: self.write_ivf_headers,
            bitstream_buffer_size: self.bitstream_buffer_size as nat,
            frame_count: self.frame_count,
            framerate_den: self.framerate_den,
        }
    }
}

impl EncoderView {
    /// What always holds of an encoder: time goes on from frame to frame, and the length of the
    /// output buffer fits 32 bits.
    pub open spec fn wf(self) -> bool {
        &&& 0 < self.framerate_den <= u32::MAX
        &&& self.bitstream_buffer_size <= u16::MAX * 1024
    }

    /// The size of the frames that the device wants.
    pub open spec fn coded_size(self) -> (nat, nat) {
        (self.frame_info.width as nat, self.frame_info.height as nat)
    }

    /// The bytes that a frame takes.
    pub open spec fn frame_bytes(self) -> nat {
        self.frame_format.frame_bytes(self.coded_size().0, self.coded_size().1)
    }

    /// The timestamp of the next frame if `len` bytes are handed in for it, or the first complaint.
    pub open spec fn next_timestamp(self, len: nat) -> Result<u64, ErrorView> {
        let (width, height) = self.coded_size();
        if self.frame_format.frame_bytes_peak(width, height) > usize::MAX {
            Err(ErrorView::custom("Encoder::encode"@, "frame size calculation overflowed"@))
        } else if len < self.frame_bytes() {
            Err(
                ErrorView::custom(
                    "Encoder::encode"@,
                    "frame data is too small for coded size "@ + decimal(width) + "x"@ + decimal(
                        height,
                    ) + " (got "@ + decimal(len) + ", need at least "@ + decimal(
                        self.frame_bytes(),
                    ) + ")"@,
                ),
            )
        } else if self.frame_count * self.framerate_den > u64::MAX {
            Err(ErrorView::custom("Encoder::encode"@, "timestamp overflowed"@))
        } else {
            Ok((self.frame_count * self.framerate_den) as u64)
        }
    }

    /// The encoder after one more frame was encoded.
    pub open spec fn counted(self) -> EncoderView {
        EncoderView { frame_count: (self.frame_count + 1) as u64, ..self }
    }

    /// What encoding a frame of so many bytes starts with, or the first complaint about it.
    pub open spec fn start_run<T>(self, len: nat, frame_type: u16, user_data: T) -> Result<
        EncodeRunView<T>,
        ErrorView,
    > {
        match self.next_timestamp(len) {
            Ok(timestamp) => Ok(
                EncodeRunView {
                    input: FrameInput { frame_seq: self.frame_count, timestamp, frame_type },
                    user_data,
                    stage: EncodeStageView::GetSurface,
                },
            ),
            Err(error) => Err(error),
        }
    }

    /// The parameter block with the changes applied.
    pub open spec fn reconfigured_param(self, params: ReconfigureParams) -> VideoParam {
        let old_info = self.video_param.frame_info;
        VideoParam {
            target_kbps: or_default(params.target_kbps, self.video_param.target_kbps),
            max_kbps: or_default(params.max_kbps, self.video_param.max_kbps),
            frame_info: FrameInfo {
                frame_rate_ext_n: or_default(params.framerate_num, old_info.frame_rate_ext_n),
                frame_rate_ext_d: or_default(params.framerate_den, old_info.frame_rate_ext_d),
                ..old_info
            },
            ..self.video_param
        }
    }

    /// The encoder with the changes applied.
    pub open spec fn reconfigured(self, params: ReconfigureParams) -> EncoderView {
        EncoderView {
            video_param: self.reconfigured_param(params),
            framerate_den: match params.framerate_den {
                Some(den) => den as u64,
                None => self.framerate_den,
            },
            ..self
        }
    }
}

impl Encoder {
    #[verifier::type_invariant]
    spec fn inv(self) -> bool {
        self@.wf()
    }

    /// Checks the settings and starts to open a session for them.
    ///
    /// The setup goes on with [`EncoderPlan::initialized`] once the session is open.
    pub fn new(config: &EncoderConfig) -> (r: Result<
        (EncoderPlan, SessionSetup, LoaderCall),
        Error,
    >)
        ensures
            match encoder_plan(*config) {
                Err(error) => r is Err && r->Err_0@ == error,
                Ok(param) => match session_start(config.adapter) {
                    Err(error) => r is Err && r->Err_0@ == error,
                    Ok((setup, call)) => {
                        &&& r is Ok
                        &&& r->Ok_0.0@ == (EncoderPlanView {
                            param,
                            frame_format: config.frame_format,
                            framerate_den: config.framerate_den,
                        })
                        &&& r->Ok_0.0@ == plan_view_of(*config, param)
                        &&& r->Ok_0.1 == setup
                        &&& r->Ok_0.2 == call
                    },
                },
            },
    {
        let param = match plan_encoder(config) {
            Ok(param) => param,
            Err(error) => {
                return Err(error);
            },
        };
        match VplLibrary.create_session(config.adapter) {
            Ok((setup, call)) => Ok(
                (
                    EncoderPlan {
                        param,
                        frame_format: config.frame_format,
                        framerate_den: config.framerate_den,
                    },
                    setup,
                    call,
                ),
            ),
            Err(error) => Err(error),
        }
    }

    /// What the status of `MFXVideoENCODE_Query` says: success, possibly with corrected parameters,
    /// or that they are not supported.
    pub fn query(&self, status: i32) -> (r: Result<(), Error>)
        ensures
            answer(r) == check_allow_warn(status, "MFXVideoENCODE_Query"@),
    {
        VplLibrary.mfx_video_encode_query(status)
    }

    /// Changes parameters. Names the block for `MFXVideoENCODE_Reset`, whose result
    /// [`Encoder::finish_reconfigure`] takes: every other member is as the device reported it. A
    /// denominator of zero is refused and changes nothing.
    pub fn reconfigure(&mut self, params: ReconfigureParams) -> (r: Result<VideoParam, Error>)
        ensures
            final(self)@.wf(),
            match r {
                Ok(block) => {
                    &&& params.framerate_den != Some(0u32)
                    &&& final(self)@ == old(self)@.reconfigured(params)
                    &&& block == final(self)@.video_param
                },
                Err(error) => {
                    &&& params.framerate_den == Some(0u32)
                    &&& final(self)@ == old(self)@
                    &&& error@ == ErrorView::custom(
                        "Encoder::reconfigure"@,
                        "framerate_den must be non-zero"@,
                    )
                },
            },
    {
        proof {
            use_type_invariant(&*self);
        }
        if let Some(den) = params.framerate_den {
            if den == 0 {
                return Err(
                    Error::new_custom("Encoder::reconfigure", "framerate_den must be non-zero"),
                );
            }
        }
        let mut param = self.video_param;
        if let Some(target_kbps) = params.target_kbps {
            param.target_kbps = target_kbps;
        }
        if let Some(max_kbps) = params.max_kbps {
            param.max_kbps = max_kbps;
        }
        if let Some(num) = params.framerate_num {
            param.frame_info.frame_rate_ext_n = num;
        }
        if let Some(den) = params.framerate_den {
            param.frame_info.frame_rate_ext_d = den;
            self.framerate_den = den as u64;
        }
        self.video_param = param;
        Ok(param)
    }

    /// Takes the status of `MFXVideoENCODE_Reset` and the block that it left.
    pub fn finish_reconfigure(&mut self, status: i32, param: VideoParam) -> (r: Result<(), Error>)
        ensures
            answer(r) == check_allow_warn(status, "MFXVideoENCODE_Reset"@),
            final(self)@ == (EncoderView { video_param: param, ..old(self)@ }),
            final(self)@.wf(),
    {
        proof {
            use_type_invariant(&*self);
        }
        self.video_param = param;
        VplLibrary.mfx_video_encode_reset(status)
    }

    /// The block to ask for the effective parameters with.
    pub fn video_param_request(&self) -> (r: VideoParam)
        ensures
            r == (VideoParam {
                io_pattern: self@.video_param.io_pattern,
                ..VideoParam::spec_zeroed()
            }),
    {
        let mut param = VideoParam::zeroed();
        param.io_pattern = self.video_param.io_pattern;
        param
    }

    /// The effective parameters, out of the status of `MFXVideoENCODE_GetVideoParam` and the block
    /// that it filled: all of that block, unchanged.
    pub fn get_video_param(&self, status: i32, param: VideoParam) -> (r: Result<VideoParam, Error>)
        ensures
            answer(r) == (match check(status, "MFXVideoENCODE_GetVideoParam"@) {
                Ok(()) => Ok(param),
                Err(error) => Err(error),
            }),
    {
        match VplLibrary.mfx_video_encode_get_video_param(status) {
            Ok(()) => Ok(param),
            Err(error) => Err(error),
        }
    }

    /// The size of the frames that the device wants.
    pub fn coded_size(&self) -> (r: (usize, usize))
        ensures
            (r.0 as nat, r.1 as nat) == self@.coded_size(),
    {
        (self.frame_info.width as usize, self.frame_info.height as usize)
    }

    /// Whether VP9 frames come with IVF headers; `false` for the other codecs.
    pub fn write_ivf_headers(&self) -> (r: bool)
        ensures
            r == self@.write_ivf_headers,
    {
        self.write_ivf_headers
    }

    /// Statistics, out of the status of `MFXVideoENCODE_GetEncodeStat` and the numbers that it
    /// stored.
    pub fn get_encode_stat(&self, status: i32, stat: EncoderStats) -> (r: Result<
        EncoderStats,
        Error,
    >)
        ensures
            answer(r) == (match check(status, "MFXVideoENCODE_GetEncodeStat"@) {
                Ok(()) => Ok(stat),
                Err(error) => Err(error),
            }),
    {
        match VplLibrary.mfx_video_encode_get_encode_stat(status) {
            Ok(()) => Ok(stat),
            Err(error) => Err(error),
        }
    }

    /// The buffer that an output is written to.
    pub fn create_bitstream(&self) -> (r: Vec<u8>)
        ensures
            r@.len() == self@.bitstream_buffer_size,
            r@.len() <= u32::MAX,
            forall|i: int| 0 <= i < r@.len() ==> r@[i] == 0,
    {
        proof {
            use_type_invariant(self);
        }
        vec![0u8; self.bitstream_buffer_size]
    }
}

// --- Encoding a frame ---

/// What the device made of a frame handed to it.
#[derive(Debug, Clone, Copy, PartialEq, Eq, Structural)]
pub enum Submitted {
    /// It is busy; the frame was not taken.
    Busy,
    /// The frame was taken, and there is no output yet.
    NoOutput,
    /// There is an output to wait for.
    Output,
    /// It failed.
    Failed,
}

/// What the status of `MFXVideoENCODE_EncodeFrameAsync` means.
pub open spec fn submitted(status: i32) -> Submitted {
    if status == sys::MFX_WRN_DEVICE_BUSY {
        Submitted::Busy
    } else if status == sys::MFX_ERR_MORE_DATA {
        Submitted::NoOutput
    } else if status == sys::MFX_ERR_NONE {
        Submitted::Output
    } else {
        Submitted::Failed
    }
}

/// What the status of `MFXVideoENCODE_EncodeFrameAsync` means.
pub fn encode_frame_async(status: i32) -> (r: Submitted)
    ensures
        r == submitted(status),
{
    if status == sys::MFX_WRN_DEVICE_BUSY {
        Submitted::Busy
    } else if status == sys::MFX_ERR_MORE_DATA {
        Submitted::NoOutput
    } else if status == sys::MFX_ERR_NONE {
        Submitted::Output
    } else {
        Submitted::Failed
    }
}

/// The error for a device that stays busy.
pub open spec fn stayed_busy() -> ErrorView {
    ErrorView::custom("MFXVideoENCODE_EncodeFrameAsync"@, "device busy after max retries"@)
}

fn stayed_busy_error() -> (r: Error)
    ensures
        r@ == stayed_busy(),
{
    Error::new_custom("MFXVideoENCODE_EncodeFrameAsync", "device busy after max retries")
}

/// The error for a worker that takes no commands.
pub open spec fn worker_gone(function: Seq<char>) -> ErrorView {
    ErrorView::custom(function, "sync worker thread is not running"@)
}

/// What is known of a frame that is being encoded.
#[derive(Debug, Clone, Copy, PartialEq, Eq, Structural)]
pub struct FrameInput {
    /// The sequence number.
    pub frame_seq: u64,
    /// The presentation timestamp.
    pub timestamp: u64,
    /// The frame type asked for; 0 leaves it to the device.
    pub frame_type: u16,
}

impl FrameInput {
    /// The frame type that goes into `mfxEncodeCtrl`; without one there is no control.
    pub open spec fn control(self) -> Option<u16> {
        if self.frame_type != 0 {
            Some(self.frame_type)
        } else {
            None
        }
    }
}

/// A call that encoding a frame takes.
#[derive(Debug, Clone, Copy, PartialEq, Eq, Structural)]
pub enum EncodeCall {
    /// `MFXMemory_GetSurfaceForEncode`; the reply has the surface.
    GetSurface,
    /// A call of the surface's interface.
    Surface(SurfaceCall),
    /// Store this time stamp and the frame in the mapped surface.
    Fill { surface: usize, time_stamp: u64 },
    /// `MFXVideoENCODE_EncodeFrameAsync`, with a control if a frame type is asked for; the reply has
    /// the sync point.
    Submit { surface: usize, frame_type: Option<u16> },
    /// Wait for one millisecond.
    Wait,
}

/// The call whose reply an [`EncodeRun`] waits for, and the surface that it holds. A frame is
/// submitted for the `n`-th time, counted from 0.
#[derive(Debug)]
enum EncodeStage {
    GetSurface,
    MapSurface(FrameSurface),
    Fill(FrameSurface),
    Unmap(FrameSurface),
    Submit(FrameSurface, u32),
    Wait(FrameSurface, u32),
}

/// The stage of an [`EncodeRun`].
pub enum EncodeStageView {
    GetSurface,
    MapSurface(SurfaceView),
    Fill(SurfaceView),
    Unmap(SurfaceView),
    Submit(SurfaceView, u32),
    Wait(SurfaceView, u32),
}

impl View for EncodeStage {
    type V = EncodeStageView;

    closed spec fn view(&self) -> EncodeStageView {
        match self {
            EncodeStage::GetSurface => EncodeStageView::GetSurface,
            EncodeStage::MapSurface(surface) => EncodeStageView::MapSurface(surface@),
            EncodeStage::Fill(surface) => EncodeStageView::Fill(surface@),
            EncodeStage::Unmap(surface) => EncodeStageView::Unmap(surface@),
            EncodeStage::Submit(surface, n) => EncodeStageView::Submit(surface@, *n),
            EncodeStage::Wait(surface, n) => EncodeStageView::Wait(surface@, *n),
        }
    }
}

impl EncodeStageView {
    /// The surface that is held at this stage.
    pub open spec fn surface(self) -> Option<SurfaceView> {
        match self {
            EncodeStageView::GetSurface => None,
            EncodeStageView::MapSurface(surface) => Some(surface),
            EncodeStageView::Fill(surface) => Some(surface),
            EncodeStageView::Unmap(surface) => Some(surface),
            EncodeStageView::Submit(surface, _) => Some(surface),
            EncodeStageView::Wait(surface, _) => Some(surface),
        }
    }

    /// The surface is mapped while it is filled and until it is unmapped.
    pub open spec fn wf(self) -> bool {
        match self.surface() {
            Some(surface) => surface.mapped == (self is Fill || self is Unmap),
            None => true,
        }
    }

    /// The call that is awaited at this stage.
    pub open spec fn call(self, input: FrameInput) -> EncodeCall {
        match self {
            EncodeStageView::GetSurface => EncodeCall::GetSurface,
            EncodeStageView::MapSurface(surface) => EncodeCall::Surface(
                SurfaceCall::MapPlanes { surface: surface.address, flags: sys::MFX_MAP_WRITE },
            ),
            EncodeStageView::Fill(surface) => EncodeCall::Fill {
                surface: surface.address,
                time_stamp: input.frame_seq,
            },
            EncodeStageView::Unmap(surface) => EncodeCall::Surface(
                SurfaceCall::Unmap { surface: surface.address },
            ),
            EncodeStageView::Submit(surface, _) => EncodeCall::Submit {
                surface: surface.address,
                frame_type: input.control(),
            },
            EncodeStageView::Wait(_, _) => EncodeCall::Wait,
        }
    }
}

/// A frame on its way into the device.
#[derive(Debug)]
pub struct EncodeRun<T> {
    input: FrameInput,
    user_data: T,
    stage: EncodeStage,
}

/// The state of an [`EncodeRun`].
pub struct EncodeRunView<T> {
    pub input: FrameInput,
    pub user_data: T,
    pub stage: EncodeStageView,
}

impl<T> View for EncodeRun<T> {
    type V = EncodeRunView<T>;

    closed spec fn view(&self) -> EncodeRunView<T> {
        EncodeRunView { input: self.input, user_data: self.user_data, stage: self.stage@ }
    }
}

/// How far a frame has come.
#[derive(Debug)]
pub enum EncodeProgress<T> {
    /// Make this call, then step with its reply.
    Call(EncodeRun<T>, EncodeCall),
    /// The device has taken the frame. Queue it with the worker under this number, then go on.
    Queue(QueueRun, u64, PendingFrame<T>),
    /// The frame was not taken. Give back the surface, if there is one.
    Failed(Error, Option<FrameSurface>),
}

/// The content of an [`EncodeProgress`].
pub enum EncodeProgressView<T> {
    Call(EncodeRunView<T>, EncodeCall),
    Queue(QueueRunView, u64, PendingFrame<T>),
    Failed(ErrorView, Option<SurfaceView>),
}

impl<T> View for EncodeProgress<T> {
    type V = EncodeProgressView<T>;

    open spec fn view(&self) -> EncodeProgressView<T> {
        match self {
            EncodeProgress::Call(run, call) => EncodeProgressView::Call(run@, *call),
            EncodeProgress::Queue(run, frame_seq, frame) => EncodeProgressView::Queue(
                run@,
                *frame_seq,
                *frame,
            ),
            EncodeProgress::Failed(error, surface) => EncodeProgressView::Failed(
                error@,
                match surface {
                    Some(surface) => Some(surface@),
                    None => None,
                },
            ),
        }
    }
}

impl<T> EncodeRunView<T> {
    /// The run at another stage.
    pub open spec fn at(self, stage: EncodeStageView) -> EncodeProgressView<T> {
        EncodeProgressView::Call(EncodeRunView { stage, ..self }, stage.call(self.input))
    }

    /// The frame fails with this error.
    pub open spec fn fails(self, error: ErrorView) -> EncodeProgressView<T> {
        EncodeProgressView::Failed(error, self.stage.surface())
    }

    /// The device has taken the frame, with or without an output.
    pub open spec fn is_taken(
        self,
        surface: SurfaceView,
        sync_point: Option<usize>,
    ) -> EncodeProgressView<T> {
        EncodeProgressView::Queue(
            QueueRunView { surface, sync_point },
            self.input.frame_seq,
            PendingFrame {
                presentation_timestamp: self.input.timestamp,
                user_data: self.user_data,
            },
        )
    }

    /// What the reply to the awaited call leads to.
    ///
    /// A frame is handed to a busy device again after a wait, thirty times in all.
    pub open spec fn after(self, reply: DriverReply) -> EncodeProgressView<T> {
        let status = reply.status;
        match self.stage {
            EncodeStageView::GetSurface => if status != sys::MFX_ERR_NONE {
                self.fails(ErrorView::mfx(status, "MFXMemory_GetSurfaceForEncode"@))
            } else if reply.handle == 0 {
                self.fails(
                    ErrorView::custom("FrameSurface::new"@, "surface pointer is null"@),
                )
            } else {
                self.at(
                    EncodeStageView::MapSurface(
                        SurfaceView { address: reply.handle, mapped: false },
                    ),
                )
            },
            EncodeStageView::MapSurface(surface) => if status != sys::MFX_ERR_NONE {
                self.fails(ErrorView::mfx(status, "mfxFrameSurfaceInterface::Map"@))
            } else {
                self.at(EncodeStageView::Fill(SurfaceView { mapped: true, ..surface }))
            },
            EncodeStageView::Fill(surface) => self.at(EncodeStageView::Unmap(surface)),
            EncodeStageView::Unmap(surface) => if status != sys::MFX_ERR_NONE {
                self.fails(ErrorView::mfx(status, "mfxFrameSurfaceInterface::Unmap"@))
            } else {
                self.at(EncodeStageView::Submit(SurfaceView { mapped: false, ..surface }, 0))
            },
            EncodeStageView::Submit(surface, n) => match submitted(status) {
                Submitted::Busy => self.at(EncodeStageView::Wait(surface, n)),
                Submitted::NoOutput => self.is_taken(surface, None),
                Submitted::Output => self.is_taken(surface, Some(reply.handle)),
                Submitted::Failed => self.fails(
                    ErrorView::mfx(status, "MFXVideoENCODE_EncodeFrameAsync"@),
                ),
            },
            EncodeStageView::Wait(surface, n) => if n + 1 >= DEVICE_BUSY_MAX_RETRIES {
                self.fails(stayed_busy())
            } else {
                self.at(EncodeStageView::Submit(surface, (n + 1) as u32))
            },
        }
    }
}

impl<T> EncodeRun<T> {
    #[verifier::type_invariant]
    spec fn inv(self) -> bool {
        self.stage@.wf()
    }

    fn goes_on(input: FrameInput, user_data: T, stage: EncodeStage) -> (r: EncodeProgress<T>)
        requires
            stage@.wf(),
        ensures
            r@ == (EncodeRunView { input, user_data, stage: stage@ }).at(stage@),
    {
        let call = match &stage {
            EncodeStage::GetSurface => EncodeCall::GetSurface,
            EncodeStage::MapSurface(surface) => EncodeCall::Surface(
                SurfaceCall::MapPlanes { surface: surface.as_ptr(), flags: sys::MFX_MAP_WRITE },
            ),
            EncodeStage::Fill(surface) => EncodeCall::Fill {
                surface: surface.as_ptr(),
                time_stamp: input.frame_seq,
            },
            EncodeStage::Unmap(surface) => EncodeCall::Surface(
                SurfaceCall::Unmap { surface: surface.as_ptr() },
            ),
            EncodeStage::Submit(surface, _) => EncodeCall::Submit {
                surface: surface.as_ptr(),
                frame_type: if input.frame_type != 0 {
                    Some(input.frame_type)
                } else {
                    None
                },
            },
            EncodeStage::Wait(_, _) => EncodeCall::Wait,
        };
        EncodeProgress::Call(EncodeRun { input, user_data, stage }, call)
    }

    fn taken(
        input: FrameInput,
        user_data: T,
        surface: FrameSurface,
        sync_point: Option<usize>,
    ) -> (r: EncodeProgress<T>)
        ensures
            r@ == EncodeProgressView::Queue(
                QueueRunView { surface: surface@, sync_point },
                input.frame_seq,
                PendingFrame { presentation_timestamp: input.timestamp, user_data },
            ),
    {
        EncodeProgress::Queue(
            QueueRun { surface, sync_point },
            input.frame_seq,
            PendingFrame { presentation_timestamp: input.timestamp, user_data },
        )
    }

    /// Takes the reply to the call named last.
    pub fn step(self, reply: DriverReply) -> (r: EncodeProgress<T>)
        ensures
            r@ == self@.after(reply),
    {
        proof {
            use_type_invariant(&self);
        }
        let EncodeRun { input, user_data, stage } = self;
        let status = reply.status;
        match stage {
            EncodeStage::GetSurface => {
                if status != sys::MFX_ERR_NONE {
                    return EncodeProgress::Failed(
                        Error::from_mfx(status, "MFXMemory_GetSurfaceForEncode"),
                        None,
                    );
                }
                match FrameSurface::new(reply.handle) {
                    Ok(surface) => Self::goes_on(
                        input,
                        user_data,
                        EncodeStage::MapSurface(surface),
                    ),
                    Err(error) => EncodeProgress::Failed(error, None),
                }
            },
            EncodeStage::MapSurface(surface) => {
                let mut surface = surface;
                match surface.finish_map(status) {
                    Ok(()) => Self::goes_on(input, user_data, EncodeStage::Fill(surface)),
                    Err(error) => EncodeProgress::Failed(error, Some(surface)),
                }
            },
            EncodeStage::Fill(surface) => Self::goes_on(
                input,
                user_data,
                EncodeStage::Unmap(surface),
            ),
            EncodeStage::Unmap(surface) => {
                let mut surface = surface;
                match surface.finish_unmap(status) {
                    Ok(()) => Self::goes_on(input, user_data, EncodeStage::Submit(surface, 0)),
                    Err(error) => EncodeProgress::Failed(error, Some(surface)),
                }
            },
            EncodeStage::Submit(surface, n) => match encode_frame_async(status) {
                Submitted::Busy => Self::goes_on(
                    input,
                    user_data,
                    EncodeStage::Wait(surface, n),
                ),
                Submitted::NoOutput => Self::taken(input, user_data, surface, None),
                Submitted::Output => Self::taken(
                    input,
                    user_data,
                    surface,
                    Some(reply.handle),
                ),
                Submitted::Failed => EncodeProgress::Failed(
                    Error::from_mfx(status, "MFXVideoENCODE_EncodeFrameAsync"),
                    Some(surface),
                ),
            },
            EncodeStage::Wait(surface, n) => if n >= DEVICE_BUSY_MAX_RETRIES - 1 {
                EncodeProgress::Failed(stayed_busy_error(), Some(surface))
            } else {
                Self::goes_on(input, user_data, EncodeStage::Submit(surface, n + 1))
            },
        }
    }
}

/// A frame that the device has taken and that is being queued with the worker.
#[derive(Debug)]
pub struct QueueRun {
    surface: FrameSurface,
    sync_point: Option<usize>,
}

/// The state of a [`QueueRun`].
pub struct QueueRunView {
    pub surface: SurfaceView,
    /// The sync point of the output, if there is one.
    pub sync_point: Option<usize>,
}

impl View for QueueRun {
    type V = QueueRunView;

    closed spec fn view(&self) -> QueueRunView {
        QueueRunView { surface: self.surface@, sync_point: self.sync_point }
    }
}

/// How far queueing a frame has come.
#[derive(Debug)]
pub enum QueueProgress {
    /// Have the worker wait for this output, then go on.
    Sync(SyncRun, usize),
    /// All is done. Give back the surface, and count the frame.
    Accepted(FrameSurface),
    /// The worker is gone. Give back the surface.
    Failed(Error, FrameSurface),
}

/// The content of a [`QueueProgress`].
pub enum QueueProgressView {
    Sync(SurfaceView, usize),
    Accepted(SurfaceView),
    Failed(ErrorView, SurfaceView),
}

impl View for QueueProgress {
    type V = QueueProgressView;

    open spec fn view(&self) -> QueueProgressView {
        match self {
            QueueProgress::Sync(run, sync_point) => QueueProgressView::Sync(run@, *sync_point),
            QueueProgress::Accepted(surface) => QueueProgressView::Accepted(surface@),
            QueueProgress::Failed(error, surface) => QueueProgressView::Failed(error@, surface@),
        }
    }
}

impl QueueRun {
    /// Takes whether the worker took the frame.
    pub fn queued(self, accepted: bool) -> (r: QueueProgress)
        ensures
            r@ == (if !accepted {
                QueueProgressView::Failed(worker_gone("Encoder::encode"@), self@.surface)
            } else {
                match self@.sync_point {
                    Some(sync_point) => QueueProgressView::Sync(self@.surface, sync_point),
                    None => QueueProgressView::Accepted(self@.surface),
                }
            }),
    {
        if !accepted {
            return QueueProgress::Failed(
                Error::new_custom("Encoder::encode", "sync worker thread is not running"),
                self.surface,
            );
        }
        match self.sync_point {
            Some(sync_point) => QueueProgress::Sync(SyncRun { surface: self.surface }, sync_point),
            None => QueueProgress::Accepted(self.surface),
        }
    }
}

/// A frame whose output the worker is asked to wait for.
#[derive(Debug)]
pub struct SyncRun {
    surface: FrameSurface,
}

impl View for SyncRun {
    type V = SurfaceView;

    closed spec fn view(&self) -> SurfaceView {
        self.surface@
    }
}

impl SyncRun {
    /// Takes whether the worker took the output.
    pub fn sent(self, accepted: bool) -> (r: QueueProgress)
        ensures
            r@ == (if accepted {
                QueueProgressView::Accepted(self@)
            } else {
                QueueProgressView::Failed(worker_gone("Encoder::encode"@), self@)
            }),
    {
        if accepted {
            QueueProgress::Accepted(self.surface)
        } else {
            QueueProgress::Failed(
                Error::new_custom("Encoder::encode", "sync worker thread is not running"),
                self.surface,
            )
        }
    }
}

impl Encoder {
    /// Checks a frame and starts to encode it.
    ///
    /// When the worker has accepted it, [`Encoder::frame_accepted`] counts it.
    pub fn encode<T>(&self, frame_data: &[u8], user_data: T, options: &EncodeOptions) -> (r: Result<
        (EncodeRun<T>, EncodeCall),
        Error,
    >)
        ensures
            self@.wf(),
            match self@.next_timestamp(frame_data@.len()) {
                Ok(timestamp) => {
                    &&& r is Ok
                    &&& r->Ok_0.0@ == (EncodeRunView {
                        input: FrameInput {
                            frame_seq: self@.frame_count,
                            timestamp,
                            frame_type: options.frame_type,
                        },
                        user_data,
                        stage: EncodeStageView::GetSurface,
                    })
                    &&& r->Ok_0.1 == EncodeCall::GetSurface
                },
                Err(error) => r is Err && r->Err_0@ == error,
            },
            match self@.start_run(frame_data@.len(), options.frame_type, user_data) {
                Ok(run) => {
                    &&& r is Ok
                    &&& r->Ok_0.0@ == run
                    &&& r->Ok_0.1 == EncodeCall::GetSurface
                },
                Err(error) => r is Err && r->Err_0@ == error,
            },
    {
        proof {
            use_type_invariant(self);
        }
        let (coded_width, coded_height) = self.coded_size();
        let expected: usize = match self.frame_format.frame_size(coded_width, coded_height) {
            Some(expected) => expected,
            None => {
                return Err(
                    Error::new_custom("Encoder::encode", "frame size calculation overflowed"),
                );
            },
        };
        if frame_data.len() < expected {
            let mut message = "frame data is too small for coded size ".to_owned();
            push_decimal(&mut message, coded_width as u64);
            message.append("x");
            push_decimal(&mut message, coded_height as u64);
            message.append(" (got ");
            push_decimal(&mut message, frame_data.len() as u64);
            message.append(", need at least ");
            push_decimal(&mut message, expected as u64);
            message.append(")");
            return Err(Error::new_custom_owned("Encoder::encode", message));
        }
        let frame_seq: u64 = self.frame_count;
        match frame_seq.checked_mul(self.framerate_den) {
            Some(timestamp) => Ok(
                (
                    EncodeRun {
                        input: FrameInput { frame_seq, timestamp, frame_type: options.frame_type },
                        user_data,
                        stage: EncodeStage::GetSurface,
                    },
                    EncodeCall::GetSurface,
                ),
            ),
            None => Err(Error::new_custom("Encoder::encode", "timestamp overflowed")),
        }
    }

    /// Copies a frame that [`Encoder::encode`] accepted to the planes of a mapped surface whose rows
    /// start `pitch` bytes apart.
    pub fn fill(
        &self,
        frame_data: &[u8],
        primary: &mut [u8],
        chroma: &mut [u8],
        pitch: usize,
    )
        requires
            self@.frame_format.frame_bytes_peak(self@.coded_size().0, self@.coded_size().1)
                <= usize::MAX,
            self@.frame_bytes() <= frame_data@.len(),
            self@.frame_format.planes_fit(
                old(primary)@.len(),
                old(chroma)@.len(),
                pitch as nat,
                self@.coded_size().0,
                self@.coded_size().1,
            ),
        ensures
            final(primary)@ == self@.frame_format.primary_after(
                old(primary)@,
                frame_data@,
                pitch as nat,
                self@.coded_size().0,
                self@.coded_size().1,
            ),
            final(chroma)@ == self@.frame_format.chroma_after(
                old(chroma)@,
                frame_data@,
                pitch as nat,
                self@.coded_size().0,
                self@.coded_size().1,
            ),
    {
        let (coded_width, coded_height) = self.coded_size();
        self.frame_format.copy_to_surface_planes(
            frame_data,
            primary,
            chroma,
            pitch,
            coded_width,
            coded_height,
        );
    }

    /// Counts a frame that was encoded: the next gets the next sequence number.
    pub fn frame_accepted(&mut self) -> (r: Result<(), Error>)
        ensures
            final(self)@.wf(),
            match r {
                Ok(()) => {
                    &&& old(self)@.frame_count < u64::MAX
                    &&& final(self)@ == (EncoderView {
                        frame_count: (old(self)@.frame_count + 1) as u64,
                        ..old(self)@
                    })
                    &&& final(self)@ == old(self)@.counted()
                },
                Err(error) => {
                    &&& old(self)@.frame_count == u64::MAX
                    &&& final(self)@ == old(self)@
                    &&& error@ == ErrorView::custom(
                        "Encoder::encode"@,
                        "frame sequence overflowed"@,
                    )
                },
            },
    {
        proof {
            use_type_invariant(&*self);
        }
        match self.frame_count.checked_add(1) {
            Some(count) => {
                self.frame_count = count;
                Ok(())
            },
            None => Err(Error::new_custom("Encoder::encode", "frame sequence overflowed")),
        }
    }
}

// --- Flushing ---

/// A call that flushing the encoder takes.
#[derive(Debug, Clone, Copy, PartialEq, Eq, Structural)]
pub enum FinishCall {
    /// `MFXVideoENCODE_EncodeFrameAsync` without a surface; the reply has the sync point.
    Submit,
    /// Wait for one millisecond.
    Wait,
    /// Have the worker wait for this output; the reply says whether it took it.
    Sync { sync_point: usize },
}

/// The call whose reply a [`FinishRun`] waits for. The device is asked for the `n`-th time, counted
/// from 0.
#[derive(Debug, Clone, Copy, PartialEq, Eq, Structural)]
pub enum FinishRun {
    Submit(u32),
    Wait(u32),
    Sync,
}

/// How far flushing has come.
#[derive(Debug)]
pub enum FinishProgress {
    /// Make this call, then step with its reply.
    Call(FinishRun, FinishCall),
    /// Everything was flushed. Have the worker answer whether nothing is pending.
    WaitIdle,
    /// Flushing failed.
    Failed(Error),
}

/// The content of a [`FinishProgress`].
pub enum FinishProgressView {
    Call(FinishRun, FinishCall),
    WaitIdle,
    Failed(ErrorView),
}

impl View for FinishProgress {
    type V = FinishProgressView;

    open spec fn view(&self) -> FinishProgressView {
        match self {
            FinishProgress::Call(run, call) => FinishProgressView::Call(*run, *call),
            FinishProgress::WaitIdle => FinishProgressView::WaitIdle,
            FinishProgress::Failed(error) => FinishProgressView::Failed(error@),
        }
    }
}

impl FinishRun {
    /// What the reply to the awaited call leads to: outputs are drawn until there are no more.
    pub open spec fn after(self, reply: DriverReply) -> FinishProgressView {
        match self {
            FinishRun::Submit(n) => match submitted(reply.status) {
                Submitted::Busy => FinishProgressView::Call(FinishRun::Wait(n), FinishCall::Wait),
                Submitted::NoOutput => FinishProgressView::WaitIdle,
                Submitted::Output => FinishProgressView::Call(
                    FinishRun::Sync,
                    FinishCall::Sync { sync_point: reply.handle },
                ),
                Submitted::Failed => FinishProgressView::Failed(
                    ErrorView::mfx(reply.status, "MFXVideoENCODE_EncodeFrameAsync"@),
                ),
            },
            FinishRun::Wait(n) => if n + 1 >= DEVICE_BUSY_MAX_RETRIES {
                FinishProgressView::Failed(stayed_busy())
            } else {
                FinishProgressView::Call(FinishRun::Submit((n + 1) as u32), FinishCall::Submit)
            },
            FinishRun::Sync => if reply.accepted {
                FinishProgressView::Call(FinishRun::Submit(0), FinishCall::Submit)
            } else {
                FinishProgressView::Failed(worker_gone("Encoder::finish"@))
            },
        }
    }

    /// Takes the reply to the call named last.
    pub fn step(self, reply: DriverReply) -> (r: FinishProgress)
        ensures
            r@ == self.after(reply),
    {
        match self {
            FinishRun::Submit(n) => match encode_frame_async(reply.status) {
                Submitted::Busy => FinishProgress::Call(FinishRun::Wait(n), FinishCall::Wait),
                Submitted::NoOutput => FinishProgress::WaitIdle,
                Submitted::Output => FinishProgress::Call(
                    FinishRun::Sync,
                    FinishCall::Sync { sync_point: reply.handle },
                ),
                Submitted::Failed => FinishProgress::Failed(
                    Error::from_mfx(reply.status, "MFXVideoENCODE_EncodeFrameAsync"),
                ),
            },
            FinishRun::Wait(n) => if n >= DEVICE_BUSY_MAX_RETRIES - 1 {
                FinishProgress::Failed(stayed_busy_error())
            } else {
                FinishProgress::Call(FinishRun::Submit(n + 1), FinishCall::Submit)
            },
            FinishRun::Sync => if reply.accepted {
                FinishProgress::Call(FinishRun::Submit(0), FinishCall::Submit)
            } else {
                FinishProgress::Failed(
                    Error::new_custom("Encoder::finish", "sync worker thread is not running"),
                )
            },
        }
    }
}

/// The answer to flushing, out of what the worker said: `None` if it ended without an answer.
pub open spec fn flush_answer(
    accepted: bool,
    reply: Option<Result<(), Error>>,
    function: Seq<char>,
) -> Result<(), ErrorView> {
    if !accepted {
        Err(worker_gone(function))
    } else {
        match reply {
            Some(result) => answer(result),
            None => Err(
                ErrorView::custom(function, "sync worker thread stopped unexpectedly"@),
            ),
        }
    }
}

impl Encoder {
    /// Starts to flush the encoder: the device is asked for outputs until it has no more, and the
    /// worker has to settle every frame.
    pub fn finish(&self) -> (r: (FinishRun, FinishCall))
        ensures
            r == (FinishRun::Submit(0), FinishCall::Submit),
    {
        (FinishRun::Submit(0), FinishCall::Submit)
    }

    /// Takes what the worker answered to the barrier: whether it took the command, and its answer,
    /// which is absent if it ended without one.
    pub fn finish_idle(&self, accepted: bool, reply: Option<Result<(), Error>>) -> (r: Result<
        (),
        Error,
    >)
        ensures
            answer(r) == flush_answer(accepted, reply, "Encoder::finish"@),
    {
        if !accepted {
            return Err(Error::new_custom("Encoder::finish", "sync worker thread is not running"));
        }
        match reply {
            Some(result) => result,
            None => Err(
                Error::new_custom("Encoder::finish", "sync worker thread stopped unexpectedly"),
            ),
        }
    }
}

// --- Laws ---

/// An encoder that was set up reports IVF headers exactly if they were configured, which only VP9
/// can, and the device has confirmed what was asked of it.
pub proof fn law_ivf_headers_are_as_configured(
    config: EncoderConfig,
    status: i32,
    effective: VideoParam,
)
    requires
        encoder_plan(config) is Ok,
        (EncoderPlanView {
            param: encoder_plan(config)->Ok_0,
            frame_format: config.frame_format,
            framerate_den: config.framerate_den,
        }).complaint(status, effective) is None,
    ensures
        ({
            let plan = EncoderPlanView {
                param: encoder_plan(config)->Ok_0,
                frame_format: config.frame_format,
                framerate_den: config.framerate_den,
            };
            let asked = config.codec matches CodecConfig::Vp9(vp9) && vp9.write_ivf_headers;
            &&& plan.encoder(effective).write_ivf_headers == asked
            &&& config.codec is Vp9 ==> effective.write_ivf_headers == Some(
                if asked {
                    sys::MFX_CODINGOPTION_ON
                } else {
                    sys::MFX_CODINGOPTION_OFF
                },
            )
        }),
{
}

/// Changing nothing changes nothing.
pub proof fn law_empty_reconfiguration_changes_nothing(encoder: EncoderView)
    ensures
        encoder.reconfigured(
            ReconfigureParams {
                target_kbps: None,
                max_kbps: None,
                framerate_num: None,
                framerate_den: None,
            },
        ) == encoder,
{
}

/// The block that a change of parameters hands to the device holds what the device reported, but for
/// the two bit rates and the frame rate.
pub proof fn law_reconfiguration_keeps_every_other_member(
    encoder: EncoderView,
    params: ReconfigureParams,
)
    ensures
        ({
            let before = encoder.video_param;
            let after = encoder.reconfigured_param(params);
            &&& after == (VideoParam {
                target_kbps: after.target_kbps,
                max_kbps: after.max_kbps,
                frame_info: after.frame_info,
                ..before
            })
            &&& after.frame_info == (FrameInfo {
                frame_rate_ext_n: after.frame_info.frame_rate_ext_n,
                frame_rate_ext_d: after.frame_info.frame_rate_ext_d,
                ..before.frame_info
            })
            &&& params.target_kbps is None ==> after.target_kbps == before.target_kbps
            &&& params.max_kbps is None ==> after.max_kbps == before.max_kbps
        }),
{
}

/// No change of parameters that is accepted stops time or alters the sequence of frames.
pub proof fn law_reconfiguration_keeps_time_going(encoder: EncoderView, params: ReconfigureParams)
    requires
        encoder.wf(),
        params.framerate_den != Some(0u32),
    ensures
        encoder.reconfigured(params).wf(),
        encoder.reconfigured(params).frame_count == encoder.frame_count,
        encoder.reconfigured(params).coded_size() == encoder.coded_size(),
{
}

/// The timestamp of a frame is its sequence number times the denominator of the frame rate, so
/// timestamps ascend with the sequence numbers.
pub proof fn law_timestamps_ascend(encoder: EncoderView, later: EncoderView, len: nat)
    requires
        encoder.wf(),
        later == (EncoderView { frame_count: later.frame_count, ..encoder }),
        encoder.frame_count < later.frame_count,
        encoder.next_timestamp(len) is Ok,
        later.next_timestamp(len) is Ok,
    ensures
        encoder.next_timestamp(len)->Ok_0 == encoder.frame_count * encoder.framerate_den,
        encoder.next_timestamp(len)->Ok_0 < later.next_timestamp(len)->Ok_0,
{
    let a = encoder.frame_count as int;
    let b = later.frame_count as int;
    let den = encoder.framerate_den as int;
    assert(0 <= a * den < b * den) by (nonlinear_arith)
        requires
            0 <= a < b,
            0 < den,
    ;
}

/// Whatever the device replies, a surface that was taken stays the run's until the run ends, and then
/// goes to whoever gives it back; the frame's number, timestamp and user data do not change on the
/// way, and the surface is not mapped when the frame is submitted or queued.
pub proof fn law_encode_step_keeps_frame_and_surface<T>(run: EncodeRunView<T>, reply: DriverReply)
    requires
        run.stage.wf(),
    ensures
        match run.after(reply) {
            EncodeProgressView::Call(next, call) => {
                &&& next.input == run.input
                &&& next.user_data == run.user_data
                &&& next.stage.wf()
                &&& call == next.stage.call(next.input)
                &&& next.stage.surface() is Some
                &&& next.stage.surface()->0.address == (match run.stage.surface() {
                    Some(surface) => surface.address,
                    None => reply.handle,
                })
            },
            EncodeProgressView::Queue(queue, frame_seq, frame) => {
                &&& Some(queue.surface) == run.stage.surface()
                &&& !queue.surface.mapped
                &&& frame_seq == run.input.frame_seq
                &&& frame.presentation_timestamp == run.input.timestamp
                &&& frame.user_data == run.user_data
            },
            EncodeProgressView::Failed(_, surface) => surface == run.stage.surface(),
        },
{
}

/// A frame is queued exactly when the device has taken it: when it was submitted and the device gave
/// an output or asked for more.
pub proof fn law_frame_is_queued_exactly_if_taken<T>(run: EncodeRunView<T>, reply: DriverReply)
    ensures
        run.after(reply) is Queue <==> run.stage is Submit && (reply.status == sys::MFX_ERR_NONE
            || reply.status == sys::MFX_ERR_MORE_DATA),
{
}

/// What a submission comes to when the device is busy so many times in a row.
pub open spec fn busy_rounds<T>(run: EncodeRunView<T>, rounds: nat) -> EncodeProgressView<T>
    decreases rounds,
{
    let busy = DriverReply { status: sys::MFX_WRN_DEVICE_BUSY, handle: 0, accepted: false };
    if rounds == 0 {
        run.at(run.stage)
    } else {
        match busy_rounds(run, (rounds - 1) as nat) {
            EncodeProgressView::Call(submitting, _) => match submitting.after(busy) {
                EncodeProgressView::Call(waiting, _) => waiting.after(busy),
                other => other,
            },
            other => other,
        }
    }
}

/// A busy device is offered the frame thirty times: up to then it is submitted again after each
/// wait, and then the frame fails.
pub proof fn law_busy_device_is_tried_thirty_times<T>(
    run: EncodeRunView<T>,
    surface: SurfaceView,
    rounds: nat,
)
    requires
        run.stage == EncodeStageView::Submit(surface, 0),
        rounds <= DEVICE_BUSY_MAX_RETRIES,
    ensures
        busy_rounds(run, rounds) == (if rounds < DEVICE_BUSY_MAX_RETRIES {
            run.at(EncodeStageView::Submit(surface, rounds as u32))
        } else {
            EncodeProgressView::Failed(stayed_busy(), Some(surface))
        }),
    decreases rounds,
{
    if rounds > 0 {
        law_busy_device_is_tried_thirty_times(run, surface, (rounds - 1) as nat);
    }
}

/// What a frame comes to with one more reply.
pub open spec fn with_reply<T>(
    at: EncodeProgressView<T>,
    status: i32,
    handle: usize,
) -> EncodeProgressView<T> {
    match at {
        EncodeProgressView::Call(run, _) => run.after(
            DriverReply { status, handle, accepted: false },
        ),
        other => other,
    }
}

/// A frame is taken, and queued under its number with its timestamp and user data, if the device has
/// a surface that can be mapped and unmapped and becomes free before it was tried thirty times.
pub proof fn law_frame_is_taken_once_the_device_is_free<T>(
    run: EncodeRunView<T>,
    surface: usize,
    rounds: nat,
    sync_point: usize,
)
    requires
        run.stage is GetSurface,
        surface != 0,
        rounds < DEVICE_BUSY_MAX_RETRIES,
    ensures
        ({
            let taken = with_reply(run.at(run.stage), sys::MFX_ERR_NONE, surface);
            let mapped = with_reply(taken, sys::MFX_ERR_NONE, 0);
            let filled = with_reply(mapped, sys::MFX_ERR_NONE, 0);
            let unmapped = with_reply(filled, sys::MFX_ERR_NONE, 0);
            &&& unmapped is Call
            &&& with_reply(
                busy_rounds(unmapped->Call_0, rounds),
                sys::MFX_ERR_NONE,
                sync_point,
            ) == run.is_taken(SurfaceView { address: surface, mapped: false }, Some(sync_point))
            &&& with_reply(
                busy_rounds(unmapped->Call_0, rounds),
                sys::MFX_ERR_MORE_DATA,
                0,
            ) == run.is_taken(SurfaceView { address: surface, mapped: false }, None)
        }),
{
    let taken = with_reply(run.at(run.stage), sys::MFX_ERR_NONE, surface);
    let mapped = with_reply(taken, sys::MFX_ERR_NONE, 0);
    let filled = with_reply(mapped, sys::MFX_ERR_NONE, 0);
    let unmapped = with_reply(filled, sys::MFX_ERR_NONE, 0);
    law_busy_device_is_tried_thirty_times(
        unmapped->Call_0,
        SurfaceView { address: surface, mapped: false },
        rounds,
    );
}

/// How a device that has these outputs left, and a worker that takes them, reply.
pub open spec fn flush_reply(outputs: Seq<usize>, call: FinishCall) -> DriverReply {
    match call {
        FinishCall::Submit => if outputs.len() > 0 {
            DriverReply {
                status: sys::MFX_ERR_NONE,
                handle: outputs.first(),
                accepted: false,
            }
        } else {
            DriverReply { status: sys::MFX_ERR_MORE_DATA, handle: 0, accepted: false }
        },
        _ => DriverReply { status: sys::MFX_ERR_NONE, handle: 0, accepted: true },
    }
}

/// The outputs that are handed to the worker, and what flushing comes to, with so many calls.
pub open spec fn flush_run(at: FinishProgressView, outputs: Seq<usize>, calls: nat) -> (
    Seq<usize>,
    FinishProgressView,
)
    decreases calls,
{
    match at {
        FinishProgressView::Call(run, call) => if calls == 0 {
            (Seq::empty(), at)
        } else {
            let reply = flush_reply(outputs, call);
            let rest = if call == FinishCall::Submit && outputs.len() > 0 {
                outputs.drop_first()
            } else {
                outputs
            };
            let (handed, end) = flush_run(run.after(reply), rest, (calls - 1) as nat);
            (
                match call {
                    FinishCall::Sync { sync_point } => seq![sync_point] + handed,
                    _ => handed,
                },
                end,
            )
        },
        _ => (Seq::empty(), at),
    }
}

/// Flushing hands every output that the device has left to the worker, in order and once, and then
/// asks the worker whether nothing is pending.
pub proof fn law_flush_hands_over_every_output(outputs: Seq<usize>)
    ensures
        flush_run(
            FinishProgressView::Call(FinishRun::Submit(0), FinishCall::Submit),
            outputs,
            2 * outputs.len() + 1,
        ) == (outputs, FinishProgressView::WaitIdle),
    decreases outputs.len(),
{
    reveal_with_fuel(flush_run, 3);
    if outputs.len() > 0 {
        law_flush_hands_over_every_output(outputs.drop_first());
        assert(seq![outputs.first()] + outputs.drop_first() =~= outputs);
    } else {
        assert(outputs =~= Seq::empty());
    }
}

/// What flushing comes to when the device is busy so many times in a row.
pub open spec fn busy_flush_rounds(rounds: nat) -> FinishProgressView
    decreases rounds,
{
    let busy = DriverReply { status: sys::MFX_WRN_DEVICE_BUSY, handle: 0, accepted: false };
    if rounds == 0 {
        FinishProgressView::Call(FinishRun::Submit(0), FinishCall::Submit)
    } else {
        match busy_flush_rounds((rounds - 1) as nat) {
            FinishProgressView::Call(submitting, _) => match submitting.after(busy) {
                FinishProgressView::Call(waiting, _) => waiting.after(busy),
                other => other,
            },
            other => other,
        }
    }
}

/// A busy device is asked for an output thirty times before flushing fails.
pub proof fn law_busy_device_is_asked_thirty_times(rounds: nat)
    requires
        rounds <= DEVICE_BUSY_MAX_RETRIES,
    ensures
        busy_flush_rounds(rounds) == (if rounds < DEVICE_BUSY_MAX_RETRIES {
            FinishProgressView::Call(FinishRun::Submit(rounds as u32), FinishCall::Submit)
        } else {
            FinishProgressView::Failed(stayed_busy())
        }),
    decreases rounds,
{
    if rounds > 0 {
        law_busy_device_is_asked_thirty_times((rounds - 1) as nat);
    }
}

/// A call of [`Encoder::encode`], and what is replied to the calls that it takes.
pub struct EncodeAttempt<T> {
    /// The length of the frame data.
    pub len: nat,
    pub frame_type: u16,
    pub user_data: T,
    pub replies: Seq<DriverReply>,
}

/// Something that is done with an encoder and changes it.
pub enum EncoderTurn<T> {
    /// A frame is handed in.
    Attempt(EncodeAttempt<T>),
    /// [`Encoder::reconfigure`] is called; if it is not refused, `MFXVideoENCODE_Reset` leaves this
    /// block.
    Reconfigure { params: ReconfigureParams, left: VideoParam },
}

impl<T> EncoderTurn<T> {
    /// Whether the turn sets the denominator of the frame rate. Zero is refused.
    pub open spec fn sets_denominator(self) -> bool {
        match self {
            EncoderTurn::Reconfigure { params, .. } => params.framerate_den is Some
                && params.framerate_den != Some(0u32),
            EncoderTurn::Attempt(_) => false,
        }
    }
}

/// What a frame comes to with these replies.
pub open spec fn encode_run<T>(
    at: EncodeProgressView<T>,
    replies: Seq<DriverReply>,
) -> EncodeProgressView<T>
    decreases replies.len(),
{
    match at {
        EncodeProgressView::Call(run, _) => if replies.len() == 0 {
            at
        } else {
            encode_run(run.after(replies.first()), replies.drop_first())
        },
        _ => at,
    }
}

impl EncoderView {
    /// What the worker is told to queue for an attempt: nothing if the frame is refused, or not taken
    /// by the device.
    pub open spec fn queues<T>(self, attempt: EncodeAttempt<T>) -> Option<(u64, PendingFrame<T>)> {
        match self.start_run(attempt.len, attempt.frame_type, attempt.user_data) {
            Ok(run) => match encode_run(run.at(run.stage), attempt.replies) {
                EncodeProgressView::Queue(_, frame_seq, frame) => Some((frame_seq, frame)),
                _ => None,
            },
            Err(_) => None,
        }
    }

    /// The encoder after a turn. A frame that was queued is counted before the next turn; flushing
    /// and asking for parameters, which change nothing, are no turns.
    pub open spec fn turned<T>(self, turn: EncoderTurn<T>) -> EncoderView {
        match turn {
            EncoderTurn::Attempt(attempt) => if self.queues(attempt) is Some {
                self.counted()
            } else {
                self
            },
            EncoderTurn::Reconfigure { params, left } => if params.framerate_den == Some(0u32) {
                self
            } else {
                EncoderView { video_param: left, ..self.reconfigured(params) }
            },
        }
    }

    /// The encoder after these turns.
    pub open spec fn after_turns<T>(self, turns: Seq<EncoderTurn<T>>) -> EncoderView
        decreases turns.len(),
    {
        if turns.len() == 0 {
            self
        } else {
            self.after_turns(turns.drop_last()).turned(turns.last())
        }
    }

    /// What the worker is told to queue in the `i`-th of these turns, if it is told to.
    pub open spec fn queues_at<T>(self, turns: Seq<EncoderTurn<T>>, i: int) -> Option<
        (u64, PendingFrame<T>),
    > {
        match turns[i] {
            EncoderTurn::Attempt(attempt) => self.after_turns(turns.take(i)).queues(attempt),
            EncoderTurn::Reconfigure { .. } => None,
        }
    }

    /// Whether a frame is queued under this number in the `i`-th of these turns.
    pub open spec fn takes_at<T>(
        self,
        turns: Seq<EncoderTurn<T>>,
        i: int,
        frame_seq: u64,
    ) -> bool {
        &&& 0 <= i < turns.len()
        &&& match self.queues_at(turns, i) {
            Some((number, _)) => number == frame_seq,
            None => false,
        }
    }

    /// What the worker is told to queue in each of these turns.
    pub open spec fn queue_items<T>(self, turns: Seq<EncoderTurn<T>>) -> Seq<
        Option<(u64, PendingFrame<T>)>,
    > {
        Seq::new(turns.len(), |i: int| self.queues_at(turns, i))
    }

    /// What the worker is told to queue in the course of these turns, if it takes every command.
    pub open spec fn queues_in_turn<T>(self, turns: Seq<EncoderTurn<T>>) -> Seq<
        (u64, PendingFrame<T>),
    > {
        present(self.queue_items(turns))
    }
}

/// The denominator of the frame rate that is in force after these turns: the last that was set.
pub open spec fn denominator_in_force<T>(first: u64, turns: Seq<EncoderTurn<T>>) -> u64
    decreases turns.len(),
{
    if turns.len() == 0 {
        first
    } else if turns.last().sets_denominator() {
        turns.last()->params.framerate_den->0 as u64
    } else {
        denominator_in_force(first, turns.drop_last())
    }
}

proof fn lemma_encode_run_keeps_frame<T>(at: EncodeProgressView<T>, replies: Seq<DriverReply>)
    requires
        at is Call,
    ensures
        encode_run(at, replies) matches EncodeProgressView::Queue(_, frame_seq, frame) ==> {
            let run = at->Call_0;
            &&& frame_seq == run.input.frame_seq
            &&& frame.presentation_timestamp == run.input.timestamp
            &&& frame.user_data == run.user_data
        },
    decreases replies.len(),
{
    if replies.len() > 0 {
        let next = at->Call_0.after(replies.first());
        if next is Call {
            lemma_encode_run_keeps_frame(next, replies.drop_first());
        }
    }
}

/// A frame that is queued has the number that the encoder has counted up to, its timestamp is that
/// number times the denominator of the frame rate, and its user data is the caller's.
pub proof fn law_frame_is_queued_with_number_and_timestamp<T>(
    encoder: EncoderView,
    attempt: EncodeAttempt<T>,
)
    ensures
        encoder.queues(attempt) matches Some((frame_seq, frame)) ==> {
            &&& frame_seq == encoder.frame_count
            &&& frame.presentation_timestamp == encoder.frame_count * encoder.framerate_den
            &&& frame.user_data == attempt.user_data
        },
{
    if let Ok(run) = encoder.start_run(attempt.len, attempt.frame_type, attempt.user_data) {
        lemma_encode_run_keeps_frame(run.at(run.stage), attempt.replies);
        assert(0 <= encoder.frame_count * encoder.framerate_den) by (nonlinear_arith);
    }
}

proof fn lemma_first_turns<T>(encoder: EncoderView, turns: Seq<EncoderTurn<T>>, i: int)
    requires
        0 <= i <= turns.len(),
    ensures
        encoder.queue_items(turns).take(i) == encoder.queue_items(turns.take(i)),
        present_before(encoder.queue_items(turns), i) == encoder.queues_in_turn(
            turns.take(i),
        ).len(),
{
    let first = turns.take(i);
    assert forall|j: int| 0 <= j < i implies #[trigger] encoder.queue_items(turns)[j]
        == encoder.queue_items(first)[j] by {
        assert(first.take(j) =~= turns.take(j));
        assert(first[j] == turns[j]);
    }
    assert(encoder.queue_items(turns).take(i) =~= encoder.queue_items(first));
}

proof fn lemma_turns_count_frames<T>(encoder: EncoderView, turns: Seq<EncoderTurn<T>>)
    requires
        encoder.frame_count + turns.len() <= u64::MAX,
    ensures
        encoder.queues_in_turn(turns).len() <= turns.len(),
        encoder.after_turns(turns).frame_count == encoder.frame_count + encoder.queues_in_turn(
            turns,
        ).len(),
        encoder.after_turns(turns).framerate_den == denominator_in_force(
            encoder.framerate_den,
            turns,
        ),
    decreases turns.len(),
{
    if turns.len() > 0 {
        let last = turns.len() - 1;
        assert(turns.take(last) =~= turns.drop_last());
        lemma_first_turns(encoder, turns, last);
        assert(encoder.queue_items(turns).drop_last() =~= encoder.queue_items(turns).take(last));
        lemma_turns_count_frames(encoder, turns.drop_last());
    }
}

/// However a reconfiguration ends, it keeps the number that the next frame gets and leaves a
/// denominator that is not zero.
pub proof fn law_turns_keep_an_encoder_well_formed<T>(
    encoder: EncoderView,
    turns: Seq<EncoderTurn<T>>,
)
    requires
        encoder.wf(),
    ensures
        encoder.after_turns(turns).wf(),
        turns.len() > 0 && turns.last() is Reconfigure ==> encoder.after_turns(turns).frame_count
            == encoder.after_turns(turns.drop_last()).frame_count,
    decreases turns.len(),
{
    if turns.len() > 0 {
        law_turns_keep_an_encoder_well_formed(encoder, turns.drop_last());
    }
}

/// Whatever the device replies, and however the encoder is reconfigured between frames, the frames
/// that are queued are numbered one after the other.
pub proof fn law_frames_are_numbered_in_turn<T>(
    encoder: EncoderView,
    turns: Seq<EncoderTurn<T>>,
    k: int,
)
    requires
        encoder.frame_count + turns.len() <= u64::MAX,
        0 <= k < encoder.queues_in_turn(turns).len(),
    ensures
        encoder.queues_in_turn(turns)[k].0 == encoder.frame_count + k,
{
    let i = lemma_present_from(encoder.queue_items(turns), k);
    lemma_first_turns(encoder, turns, i);
    lemma_turns_count_frames(encoder, turns.take(i));
    law_frame_is_queued_with_number_and_timestamp(
        encoder.after_turns(turns.take(i)),
        turns[i]->Attempt_0,
    );
}

/// A frame that is queued in a turn has as its number how many were queued before, and as its
/// timestamp that number times the denominator of the frame rate that was in force when it was taken.
pub proof fn law_frame_is_timed_by_the_denominator_in_force<T>(
    encoder: EncoderView,
    turns: Seq<EncoderTurn<T>>,
    i: int,
)
    requires
        encoder.frame_count + turns.len() <= u64::MAX,
        0 <= i < turns.len(),
        encoder.queues_at(turns, i) is Some,
    ensures
        ({
            let (frame_seq, frame) = encoder.queues_at(turns, i)->0;
            let place = encoder.queues_in_turn(turns.take(i)).len();
            let denominator = denominator_in_force(encoder.framerate_den, turns.take(i));
            &&& frame_seq == encoder.frame_count + place
            &&& frame.presentation_timestamp == frame_seq * denominator
            &&& frame.user_data == turns[i]->Attempt_0.user_data
            &&& place < encoder.queues_in_turn(turns).len()
            &&& encoder.queues_in_turn(turns)[place as int] == (frame_seq, frame)
        }),
{
    lemma_turns_count_frames(encoder, turns.take(i));
    lemma_first_turns(encoder, turns, i);
    lemma_present_at(encoder.queue_items(turns), i);
    law_frame_is_queued_with_number_and_timestamp(
        encoder.after_turns(turns.take(i)),
        turns[i]->Attempt_0,
    );
}

/// The numbers of the frames that an encoder queues ascend, also across reconfigurations.
pub proof fn law_encoder_queues_ascending_numbers<T>(
    encoder: EncoderView,
    turns: Seq<EncoderTurn<T>>,
    commands: Seq<WorkerCommand<T>>,
)
    requires
        encoder.frame_count + turns.len() <= u64::MAX,
        queued_frames(commands) == encoder.queues_in_turn(turns),
    ensures
        numbers_ascend(commands),
{
    let queued = queued_frames(commands);
    assert forall|k: int, l: int| 0 <= k < l < queued.len() implies (#[trigger] queued[k]).0 < (
    #[trigger] queued[l]).0 by {
        law_frames_are_numbered_in_turn(encoder, turns, k);
        law_frames_are_numbered_in_turn(encoder, turns, l);
    }
    law_ascending_frames_make_ascending_commands(commands);
}

/// Whether the `i`-th turn took the frame with this number, and an encoded frame is that frame: its
/// timestamp is the number times the denominator of the frame rate in force in that turn, and its user
/// data is what was handed in.
pub open spec fn is_frame_of_turn<T>(
    encoder: EncoderView,
    turns: Seq<EncoderTurn<T>>,
    i: int,
    frame_seq: u64,
    encoded: EncodedFrameView<T>,
) -> bool {
    &&& encoder.takes_at(turns, i, frame_seq)
    &&& encoded.timestamp == frame_seq * denominator_in_force(encoder.framerate_den, turns.take(i))
    &&& encoded.user_data == turns[i]->Attempt_0.user_data
}

/// An encoded frame that comes back under a number is the frame that was taken under that number, in
/// the one turn that took it.
pub proof fn law_frame_comes_back_as_it_was_taken<T>(
    encoder: EncoderView,
    turns: Seq<EncoderTurn<T>>,
    stores: Seq<Map<u64, PendingFrame<T>>>,
    commands: Seq<WorkerCommand<T>>,
    outs: Seq<WorkerOutputView<T>>,
    n: int,
    frame_seq: u64,
)
    requires
        encoder.frame_count + turns.len() <= u64::MAX,
        worker_run(stores, commands, outs),
        queued_frames(commands) == encoder.queues_in_turn(turns),
        0 <= n < outs.len(),
        gave_frame_at(commands, outs, n, frame_seq),
    ensures
        exists|i: int| #[trigger]
            is_frame_of_turn(encoder, turns, i, frame_seq, outs[n].notices[0]->Ok_0),
        forall|i: int, j: int|
            #[trigger] encoder.takes_at(turns, i, frame_seq) && #[trigger] encoder.takes_at(
                turns,
                j,
                frame_seq,
            ) ==> i == j,
{
    law_encoded_frame_carries_what_was_queued(stores, commands, outs, n);
    let (at, frame) = choose|at: int, frame: PendingFrame<T>|
        0 <= at < n && #[trigger] queued_at(commands, at, frame_seq, frame)
            && outs[n].notices[0]->Ok_0.user_data == frame.user_data
            && outs[n].notices[0]->Ok_0.timestamp == frame.presentation_timestamp;
    let place = lemma_queued_place(commands, at);
    let i = lemma_present_from(encoder.queue_items(turns), place);
    law_frame_is_timed_by_the_denominator_in_force(encoder, turns, i);
    assert(is_frame_of_turn(encoder, turns, i, frame_seq, outs[n].notices[0]->Ok_0));
    assert forall|i: int, j: int|
        #[trigger] encoder.takes_at(turns, i, frame_seq) && #[trigger] encoder.takes_at(
            turns,
            j,
            frame_seq,
        ) implies i == j by {
        law_number_is_taken_in_one_turn(encoder, turns, frame_seq, i, j);
    }
}

/// A number is given to a frame in one turn only.
pub proof fn law_number_is_taken_in_one_turn<T>(
    encoder: EncoderView,
    turns: Seq<EncoderTurn<T>>,
    frame_seq: u64,
    i: int,
    j: int,
)
    requires
        encoder.frame_count + turns.len() <= u64::MAX,
        encoder.takes_at(turns, i, frame_seq),
        encoder.takes_at(turns, j, frame_seq),
    ensures
        i == j,
{
    let first = if i < j { i } else { j };
    let second = if i < j { j } else { i };
    law_frame_is_timed_by_the_denominator_in_force(encoder, turns, i);
    law_frame_is_timed_by_the_denominator_in_force(encoder, turns, j);
    if first < second {
        lemma_first_turns(encoder, turns, first);
        lemma_first_turns(encoder, turns, second);
        lemma_present_order(encoder.queue_items(turns), first, second);
    }
}

/// As long as no reconfiguration sets another denominator of the frame rate, the frame with the number
/// `k`, counted from 0, that a new encoder has taken comes back with the timestamp `k` times the
/// denominator.
pub proof fn law_frame_comes_back_with_its_timestamp<T>(
    encoder: EncoderView,
    turns: Seq<EncoderTurn<T>>,
    stores: Seq<Map<u64, PendingFrame<T>>>,
    commands: Seq<WorkerCommand<T>>,
    outs: Seq<WorkerOutputView<T>>,
    n: int,
    k: u64,
)
    requires
        encoder.frame_count == 0,
        turns.len() <= u64::MAX,
        forall|i: int| 0 <= i < turns.len() ==> !(#[trigger] turns[i]).sets_denominator(),
        worker_run(stores, commands, outs),
        queued_frames(commands) == encoder.queues_in_turn(turns),
        0 <= n < outs.len(),
        gave_frame_at(commands, outs, n, k),
    ensures
        k < encoder.queues_in_turn(turns).len(),
        outs[n].notices[0]->Ok_0.timestamp == k * encoder.framerate_den,
        outs[n].notices[0]->Ok_0.user_data == encoder.queues_in_turn(turns)[k as int].1.user_data,
{
    law_frame_comes_back_as_it_was_taken(encoder, turns, stores, commands, outs, n, k);
    let i = choose|i: int| #[trigger]
        is_frame_of_turn(encoder, turns, i, k, outs[n].notices[0]->Ok_0);
    law_frame_is_timed_by_the_denominator_in_force(encoder, turns, i);
    lemma_denominator_stays(encoder.framerate_den, turns.take(i));
}

proof fn lemma_denominator_stays<T>(first: u64, turns: Seq<EncoderTurn<T>>)
    requires
        forall|i: int| 0 <= i < turns.len() ==> !(#[trigger] turns[i]).sets_denominator(),
    ensures
        denominator_in_force(first, turns) == first,
    decreases turns.len(),
{
    if turns.len() > 0 {
        assert(!turns.last().sets_denominator());
        lemma_denominator_stays(first, turns.drop_last());
    }
}

/// If flushing succeeds, a frame that the encoder had queued before has come back exactly once, with
/// its user data and with its timestamp, which goes by the frame rate that was in force when it was
/// taken.
pub proof fn law_finish_has_returned_every_frame<T>(
    encoder: EncoderView,
    turns: Seq<EncoderTurn<T>>,
    stores: Seq<Map<u64, PendingFrame<T>>>,
    commands: Seq<WorkerCommand<T>>,
    outs: Seq<WorkerOutputView<T>>,
    i: int,
    n: int,
    frame_seq: u64,
)
    requires
        encoder.frame_count + turns.len() <= u64::MAX,
        worker_run(stores, commands, outs),
        queued_frames(commands) == encoder.queues_in_turn(turns),
        0 <= i < n < outs.len(),
        commands[i] is QueueFrame,
        commands[i]->QueueFrame_frame_seq == frame_seq,
        commands[n] is WaitIdle,
        outs[n].reply == Some(Ok::<(), ErrorView>(())),
        flushes_succeed(commands, outs, i, n),
    ensures
        exists|at: int, turn: int|
            #![trigger gave_frame_at(commands, outs, at, frame_seq), encoder.takes_at(turns, turn, frame_seq)]
            i < at < n && gave_frame_at(commands, outs, at, frame_seq) && is_frame_of_turn(
                encoder,
                turns,
                turn,
                frame_seq,
                outs[at].notices[0]->Ok_0,
            ),
        forall|at: int, other: int|
            0 <= at < outs.len() && 0 <= other < outs.len() && #[trigger] gave_frame_at(
                commands,
                outs,
                at,
                frame_seq,
            ) && #[trigger] gave_frame_at(commands, outs, other, frame_seq) ==> at == other,
{
    let frame = commands[i]->QueueFrame_pending_frame;
    law_encoder_queues_ascending_numbers(encoder, turns, commands);
    law_successful_flush_delivered_every_frame_once(
        stores,
        commands,
        outs,
        i,
        n,
        frame_seq,
        frame,
    );
    let at = choose|at: int|
        i < at < n && #[trigger] delivered_at(commands, outs, at, frame_seq, frame);
    law_frame_comes_back_as_it_was_taken(encoder, turns, stores, commands, outs, at, frame_seq);
    let turn = choose|turn: int| #[trigger]
        is_frame_of_turn(encoder, turns, turn, frame_seq, outs[at].notices[0]->Ok_0);
    assert(gave_frame_at(commands, outs, at, frame_seq));
    assert(encoder.takes_at(turns, turn, frame_seq));
    assert forall|at: int, other: int|
        0 <= at < outs.len() && 0 <= other < outs.len() && #[trigger] gave_frame_at(
            commands,
            outs,
            at,
            frame_seq,
        ) && #[trigger] gave_frame_at(commands, outs, other, frame_seq) implies at == other by {
        law_frame_is_delivered_at_most_once(stores, commands, outs, frame_seq, at, other);
    }
}

/// The device is busy, has no output yet, has one, or failed, by its status.
pub proof fn law_submission_goes_by_the_status(status: i32)
    ensures
        submitted(status) == Submitted::Busy <==> status == 2,
        submitted(status) == Submitted::NoOutput <==> status == -10,
        submitted(status) == Submitted::Output <==> status == 0,
        submitted(status) == Submitted::Failed <==> status != 2 && status != -10 && status != 0,
{
}

/// Effective parameters are read back into the block that initialisation left, without extension
/// buffers but for an empty one for IVF headers, exactly if those were asked about.
pub proof fn law_read_back_keeps_the_block(plan: EncoderPlanView, param: VideoParam)
    ensures
        ({
            let block = plan.read_back_block(param);
            &&& block.look_ahead_depth is None
            &&& block.qvbr_quality is None
            &&& plan.param.write_ivf_headers is Some ==> block.write_ivf_headers == Some(0u16)
            &&& plan.param.write_ivf_headers is None ==> block.write_ivf_headers is None
            &&& param == (VideoParam {
                look_ahead_depth: param.look_ahead_depth,
                qvbr_quality: param.qvbr_quality,
                write_ivf_headers: param.write_ivf_headers,
                ..block
            })
        }),
{
}

/// An encoder is set up exactly if its parameters could be read back and, where IVF headers were asked
/// about, the answer is what was asked for; no answer counts as 0.
pub proof fn law_setup_is_refused_if_not_confirmed(
    plan: EncoderPlanView,
    status: i32,
    param: VideoParam,
)
    ensures
        ({
            let complaint = plan.complaint(status, param);
            let answered: u16 = match param.write_ivf_headers {
                Some(value) => value,
                None => 0,
            };
            let differs = plan.param.write_ivf_headers is Some && plan.param.write_ivf_headers->0
                != answered;
            &&& complaint is None <==> status == 0 && !differs
            &&& status != 0 ==> complaint == Some(
                ErrorView::mfx(status, "MFXVideoENCODE_GetVideoParam"@),
            )
            &&& status == 0 && differs ==> {
                &&& complaint->0.function == "Encoder::new"@
                &&& complaint->0.status_code is None
                &&& complaint->0.status_message == Some(
                    "VP9 WriteIVFHeaders mismatch: requested "@ + coding_option_text(
                        plan.param.write_ivf_headers->0,
                    ) + " but got "@ + coding_option_text(answered),
                )
            }
        }),
{
}

/// A new encoder has counted no frame, works with the parameters and the frame size that the device
/// reported, and has the format, the denominator and the buffer of its settings.
pub proof fn law_new_encoder(plan: EncoderPlanView, param: VideoParam)
    ensures
        ({
            let encoder = plan.encoder(param);
            &&& encoder.frame_count == 0
            &&& encoder.framerate_den == plan.framerate_den
            &&& encoder.frame_format == plan.frame_format
            &&& encoder.frame_info == param.frame_info
            &&& encoder.coded_size() == (
                param.frame_info.width as nat,
                param.frame_info.height as nat,
            )
            &&& encoder.bitstream_buffer_size == plan.param.buffer_size_in_kb * 1024
            &&& encoder.write_ivf_headers <==> plan.param.write_ivf_headers == Some(0x10u16)
            &&& encoder.video_param == (VideoParam {
                look_ahead_depth: None,
                qvbr_quality: None,
                write_ivf_headers: None,
                ..param
            })
        }),
{
}

/// Each parameter that a reconfiguration sets is in the block for the reset with the value given, one
/// that it does not set keeps its value, and so does everything else about the encoder.
pub proof fn law_reconfiguration_sets_what_is_given(
    encoder: EncoderView,
    params: ReconfigureParams,
)
    ensures
        ({
            let before = encoder.video_param;
            let after = encoder.reconfigured_param(params);
            let next = encoder.reconfigured(params);
            &&& after.target_kbps == (match params.target_kbps {
                Some(value) => value,
                None => before.target_kbps,
            })
            &&& after.max_kbps == (match params.max_kbps {
                Some(value) => value,
                None => before.max_kbps,
            })
            &&& after.frame_info.frame_rate_ext_n == (match params.framerate_num {
                Some(value) => value,
                None => before.frame_info.frame_rate_ext_n,
            })
            &&& after.frame_info.frame_rate_ext_d == (match params.framerate_den {
                Some(value) => value,
                None => before.frame_info.frame_rate_ext_d,
            })
            &&& next.framerate_den == (match params.framerate_den {
                Some(value) => value as u64,
                None => encoder.framerate_den,
            })
            &&& next.video_param == after
            &&& next.frame_count == encoder.frame_count
            &&& next.frame_info == encoder.frame_info
            &&& next.frame_format == encoder.frame_format
            &&& next.write_ivf_headers == encoder.write_ivf_headers
            &&& next.bitstream_buffer_size == encoder.bitstream_buffer_size
        }),
{
}

/// A frame is accepted exactly if its size can be computed, enough bytes were handed in for it, and its
/// timestamp, the number of frames before it times the denominator, fits 64 bits. The first that does
/// not hold is complained about.
pub proof fn law_frame_is_accepted_if_large_enough(encoder: EncoderView, len: nat)
    ensures
        ({
            let width = encoder.frame_info.width as nat;
            let height = encoder.frame_info.height as nat;
            let pixels = width * height;
            let (peak, bytes): (nat, nat) = match encoder.frame_format {
                FrameFormat::Nv12 => (pixels * 3, pixels * 3 / 2),
                FrameFormat::Yuy2 => (pixels * 2, pixels * 2),
                FrameFormat::Bgra => (pixels * 4, pixels * 4),
            };
            let time = encoder.frame_count * encoder.framerate_den;
            let accepted = encoder.next_timestamp(len);
            let message = accepted->Err_0.status_message;
            &&& accepted is Ok <==> peak <= usize::MAX && len >= bytes && time <= u64::MAX
            &&& accepted is Ok ==> accepted->Ok_0 == time
            &&& accepted is Err ==> accepted->Err_0.function == "Encoder::encode"@
                && accepted->Err_0.status_code is None
            &&& peak > usize::MAX ==> message == Some("frame size calculation overflowed"@)
            &&& peak <= usize::MAX && len < bytes ==> message == Some(
                "frame data is too small for coded size "@ + decimal(width) + "x"@ + decimal(height)
                    + " (got "@ + decimal(len) + ", need at least "@ + decimal(bytes) + ")"@,
            )
            &&& peak <= usize::MAX && len >= bytes && time > u64::MAX ==> message == Some(
                "timestamp overflowed"@,
            )
        }),
{
    assert(0 <= encoder.frame_count * encoder.framerate_den) by (nonlinear_arith);
}

/// Every call on the way of a frame is for its surface: it is mapped for writing, filled under the
/// frame's number, unmapped, and submitted. A submission carries the frame type that was asked for: a
/// control is there exactly if that type is not 0, and it is that very type.
pub proof fn law_every_submission_carries_the_frame_type<T>(
    run: EncodeRunView<T>,
    reply: DriverReply,
)
    ensures
        run.after(reply) matches EncodeProgressView::Call(next, call) ==> {
            &&& next.input == run.input
            &&& match next.stage {
                EncodeStageView::GetSurface => call == EncodeCall::GetSurface,
                EncodeStageView::MapSurface(surface) => call == EncodeCall::Surface(
                    SurfaceCall::MapPlanes { surface: surface.address, flags: 2 },
                ),
                EncodeStageView::Fill(surface) => call == EncodeCall::Fill {
                    surface: surface.address,
                    time_stamp: run.input.frame_seq,
                },
                EncodeStageView::Unmap(surface) => call == EncodeCall::Surface(
                    SurfaceCall::Unmap { surface: surface.address },
                ),
                EncodeStageView::Submit(surface, _) => {
                    &&& call is Submit
                    &&& call->Submit_surface == surface.address
                    &&& call->Submit_frame_type is None <==> run.input.frame_type == 0
                    &&& call->Submit_frame_type matches Some(frame_type) ==> frame_type
                        == run.input.frame_type
                },
                EncodeStageView::Wait(_, _) => call == EncodeCall::Wait,
            }
        },
{
}

/// A call that succeeds leads to the next on the way of a frame, with the surface that is held. A busy
/// device is waited for and tried again until it was tried thirty times. What the device has taken is
/// queued, with the sync point if there is an output.
pub proof fn law_frame_goes_on<T>(run: EncodeRunView<T>, reply: DriverReply)
    ensures
        ({
            let at = |stage: EncodeStageView|
                run.after(reply) matches EncodeProgressView::Call(next, _) && next.stage == stage
                    && next.user_data == run.user_data;
            match run.stage {
                EncodeStageView::GetSurface => reply.status == 0 && reply.handle != 0 ==> at(
                    EncodeStageView::MapSurface(
                        SurfaceView { address: reply.handle, mapped: false },
                    ),
                ),
                EncodeStageView::MapSurface(surface) => reply.status == 0 ==> at(
                    EncodeStageView::Fill(SurfaceView { address: surface.address, mapped: true }),
                ),
                EncodeStageView::Fill(surface) => at(EncodeStageView::Unmap(surface)),
                EncodeStageView::Unmap(surface) => reply.status == 0 ==> at(
                    EncodeStageView::Submit(
                        SurfaceView { address: surface.address, mapped: false },
                        0,
                    ),
                ),
                EncodeStageView::Submit(surface, n) => {
                    &&& reply.status == 2 ==> at(EncodeStageView::Wait(surface, n))
                    &&& reply.status == 0 || reply.status == -10 ==> (run.after(
                        reply,
                    ) matches EncodeProgressView::Queue(queue, frame_seq, frame) && {
                        &&& queue.surface == surface
                        &&& queue.sync_point == (if reply.status == 0 {
                            Some(reply.handle)
                        } else {
                            None
                        })
                        &&& frame_seq == run.input.frame_seq
                        &&& frame.presentation_timestamp == run.input.timestamp
                        &&& frame.user_data == run.user_data
                    })
                },
                EncodeStageView::Wait(surface, n) => n < 29 ==> at(
                    EncodeStageView::Submit(surface, (n + 1) as u32),
                ),
            }
        }),
{
}

/// A frame fails where a call fails, by the function that failed and with its status, and after the
/// thirtieth try of a busy device. The surface that is held goes to whoever gives it back.
pub proof fn law_frame_fails<T>(run: EncodeRunView<T>, reply: DriverReply)
    ensures
        ({
            let fails = |error: ErrorView, surface: Option<SurfaceView>|
                run.after(reply) == EncodeProgressView::<T>::Failed(error, surface);
            match run.stage {
                EncodeStageView::GetSurface => {
                    &&& reply.status != 0 ==> fails(
                        ErrorView::mfx(reply.status, "MFXMemory_GetSurfaceForEncode"@),
                        None,
                    )
                    &&& reply.status == 0 && reply.handle == 0 ==> fails(
                        ErrorView::custom("FrameSurface::new"@, "surface pointer is null"@),
                        None,
                    )
                },
                EncodeStageView::MapSurface(surface) => reply.status != 0 ==> fails(
                    ErrorView::mfx(reply.status, "mfxFrameSurfaceInterface::Map"@),
                    Some(surface),
                ),
                EncodeStageView::Fill(_) => run.after(reply) !is Failed,
                EncodeStageView::Unmap(surface) => reply.status != 0 ==> fails(
                    ErrorView::mfx(reply.status, "mfxFrameSurfaceInterface::Unmap"@),
                    Some(surface),
                ),
                EncodeStageView::Submit(surface, _) => reply.status != 0 && reply.status != 2
                    && reply.status != -10 ==> fails(
                    ErrorView::mfx(reply.status, "MFXVideoENCODE_EncodeFrameAsync"@),
                    Some(surface),
                ),
                EncodeStageView::Wait(surface, n) => n >= 29 ==> fails(
                    ErrorView::custom(
                        "MFXVideoENCODE_EncodeFrameAsync"@,
                        "device busy after max retries"@,
                    ),
                    Some(surface),
                ),
            }
        }),
{
}

/// Flushing asks the device for outputs, hands each to the worker, and ends when there is none left.
/// It fails where a call fails, where the worker is gone, and after the thirtieth try of a busy device.
pub proof fn law_flushing_goes_on_until_nothing_is_left(run: FinishRun, reply: DriverReply)
    ensures
        ({
            let after = run.after(reply);
            match run {
                FinishRun::Submit(n) => {
                    &&& reply.status == 2 ==> after == FinishProgressView::Call(
                        FinishRun::Wait(n),
                        FinishCall::Wait,
                    )
                    &&& reply.status == -10 <==> after is WaitIdle
                    &&& reply.status == 0 ==> after == FinishProgressView::Call(
                        FinishRun::Sync,
                        FinishCall::Sync { sync_point: reply.handle },
                    )
                    &&& reply.status != 0 && reply.status != 2 && reply.status != -10 ==> after
                        == FinishProgressView::Failed(
                        ErrorView::mfx(reply.status, "MFXVideoENCODE_EncodeFrameAsync"@),
                    )
                },
                FinishRun::Wait(n) => after == (if n < 29 {
                    FinishProgressView::Call(
                        FinishRun::Submit((n + 1) as u32),
                        FinishCall::Submit,
                    )
                } else {
                    FinishProgressView::Failed(
                        ErrorView::custom(
                            "MFXVideoENCODE_EncodeFrameAsync"@,
                            "device busy after max retries"@,
                        ),
                    )
                }),
                FinishRun::Sync => after == (if reply.accepted {
                    FinishProgressView::Call(FinishRun::Submit(0), FinishCall::Submit)
                } else {
                    FinishProgressView::Failed(
                        ErrorView::custom(
                            "Encoder::finish"@,
                            "sync worker thread is not running"@,
                        ),
                    )
                }),
            }
        }),
{
}

/// Flushing answers what the worker answered. A worker that did not take the command, or ended without
/// an answer, is complained about.
pub proof fn law_flush_answers_what_the_worker_says(
    accepted: bool,
    reply: Option<Result<(), Error>>,
    function: Seq<char>,
)
    ensures
        ({
            let answered = flush_answer(accepted, reply, function);
            &&& answered is Ok <==> accepted && reply is Some && reply->0 is Ok
            &&& accepted && reply is Some && reply->0 is Err ==> answered->Err_0 == reply->0->Err_0@
            &&& !accepted ==> answered->Err_0 == ErrorView::custom(
                function,
                "sync worker thread is not running"@,
            )
            &&& accepted && reply is None ==> answered->Err_0 == ErrorView::custom(
                function,
                "sync worker thread stopped unexpectedly"@,
            )
            &&& worker_gone(function) == ErrorView::custom(
                function,
                "sync worker thread is not running"@,
            )
        }),
{
}

/// A device is tried thirty times.
pub proof fn law_thirty_tries()
    ensures
        DEVICE_BUSY_MAX_RETRIES == 30,
{
}

/// A plan has the block, and the frame format and the denominator of the settings.
pub proof fn law_plan_has_the_settings(config: EncoderConfig, param: VideoParam)
    ensures
        plan_view_of(config, param).param == param,
        plan_view_of(config, param).frame_format == config.frame_format,
        plan_view_of(config, param).framerate_den == config.framerate_den,
{
}

/// Encoding a frame starts with what was handed in, under the number of frames before it; counting a
/// frame changes that number by one and nothing else.
pub proof fn law_frame_starts_with_what_was_handed_in<T>(
    encoder: EncoderView,
    len: nat,
    frame_type: u16,
    user_data: T,
)
    ensures
        ({
            let start = encoder.start_run(len, frame_type, user_data);
            &&& start is Ok <==> encoder.next_timestamp(len) is Ok
            &&& start matches Err(error) ==> error == encoder.next_timestamp(len)->Err_0
            &&& start matches Ok(run) ==> {
                &&& run.input.frame_seq == encoder.frame_count
                &&& run.input.timestamp == encoder.frame_count * encoder.framerate_den
                &&& run.input.frame_type == frame_type
                &&& run.user_data == user_data
                &&& run.stage is GetSurface
            }
            &&& encoder.frame_count < u64::MAX ==> {
                &&& encoder.counted().frame_count == encoder.frame_count + 1
                &&& encoder == (EncoderView {
                    frame_count: encoder.frame_count,
                    ..encoder.counted()
                })
            }
        }),
{
    assert(0 <= encoder.frame_count * encoder.framerate_den) by (nonlinear_arith);
}

/// Whether a call that submits a frame carries this frame type.
spec fn carries(call: EncodeCall, frame_type: u16) -> bool {
    call matches EncodeCall::Submit { frame_type: control, .. } ==> control == (if frame_type == 0 {
        None
    } else {
        Some(frame_type)
    })
}

proof fn lemma_run_carries<T>(at: EncodeProgressView<T>, replies: Seq<DriverReply>)
    requires
        at is Call,
        carries(at->Call_1, at->Call_0.input.frame_type),
    ensures
        encode_run(at, replies) matches EncodeProgressView::Call(_, call) ==> carries(
            call,
            at->Call_0.input.frame_type,
        ),
    decreases replies.len(),
{
    if replies.len() > 0 {
        let next = at->Call_0.after(replies.first());
        law_every_submission_carries_the_frame_type(at->Call_0, replies.first());
        if next is Call {
            lemma_run_carries(next, replies.drop_first());
        }
    }
}

/// Whatever the device replies, and however often a frame is submitted, the frame type in the options
/// reaches the device with every submission: without a control if it is 0, and as it is otherwise.
pub proof fn law_forced_frame_type_reaches_the_device<T>(
    encoder: EncoderView,
    len: nat,
    frame_type: u16,
    user_data: T,
    replies: Seq<DriverReply>,
)
    requires
        encoder.start_run(len, frame_type, user_data) is Ok,
    ensures
        ({
            let run = encoder.start_run(len, frame_type, user_data)->Ok_0;
            encode_run(run.at(run.stage), replies) matches EncodeProgressView::Call(_, call) ==> (
            call matches EncodeCall::Submit { frame_type: control, .. } ==> {
                &&& frame_type == 0 ==> control is None
                &&& frame_type != 0 ==> control == Some(frame_type)
            })
        }),
{
    let run = encoder.start_run(len, frame_type, user_data)->Ok_0;
    lemma_run_carries(run.at(run.stage), replies);
}

/// The frames that an encoder wants have the size that the device reported.
pub proof fn law_coded_size_is_what_the_device_reported(encoder: EncoderView)
    ensures
        encoder.coded_size().0 == encoder.frame_info.width,
        encoder.coded_size().1 == encoder.frame_info.height,
{
}

} // verus!
