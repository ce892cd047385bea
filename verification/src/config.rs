//! Encoder settings and the VPL values they stand for.
use vstd::prelude::*;

use crate::adapter::AdapterSelector;
use crate::format::FrameFormat;
use crate::sys;
use crate::text::numeral;
use crate::text::push_numeral;

verus! {

/// H.264 profile.
#[derive(Debug, Clone, Copy, PartialEq, Eq, Structural)]
pub enum H264Profile {
    /// Baseline.
    Baseline,
    /// Constrained Baseline.
    ConstrainedBaseline,
    /// Main.
    Main,
    /// High.
    High,
    /// Constrained High.
    ConstrainedHigh,
    /// High 10 (10 bit).
    High10,
    /// High 4:2:2.
    High422,
}

/// HEVC profile.
#[derive(Debug, Clone, Copy, PartialEq, Eq, Structural)]
pub enum HevcProfile {
    /// Main.
    Main,
    /// Main 10 (10 bit).
    Main10,
    /// Main Still Picture.
    MainSp,
    /// Range Extension.
    Rext,
    /// Screen Content Coding.
    Scc,
}

/// VP9 profile.
#[derive(Debug, Clone, Copy, PartialEq, Eq, Structural)]
pub enum Vp9Profile {
    /// Profile 0 (8 bit YUV 4:2:0).
    Profile0,
    /// Profile 1 (8 bit YUV 4:2:2 or 4:4:4).
    Profile1,
    /// Profile 2 (10/12 bit YUV 4:2:0).
    Profile2,
    /// Profile 3 (10/12 bit YUV 4:2:2 or 4:4:4).
    Profile3,
}

/// AV1 profile.
#[derive(Debug, Clone, Copy, PartialEq, Eq, Structural)]
pub enum Av1Profile {
    /// Main.
    Main,
}

/// Settings of the H.264 encoder.
#[derive(Debug, Clone)]
pub struct H264EncoderConfig {
    /// The profile; the encoder's default if absent.
    pub profile: Option<H264Profile>,
}

/// Settings of the HEVC encoder.
#[derive(Debug, Clone)]
pub struct HevcEncoderConfig {
    /// The profile; the encoder's default if absent.
    pub profile: Option<HevcProfile>,
}

/// Settings of the VP9 encoder.
#[derive(Debug, Clone)]
pub struct Vp9EncoderConfig {
    /// The profile; the encoder's default if absent.
    pub profile: Option<Vp9Profile>,
    /// Whether the output carries IVF headers; raw VP9 otherwise.
    pub write_ivf_headers: bool,
}

/// Settings of the AV1 encoder.
#[derive(Debug, Clone)]
pub struct Av1EncoderConfig {
    /// The profile; the encoder's default if absent.
    pub profile: Option<Av1Profile>,
}

/// The codec with its settings.
#[derive(Debug, Clone)]
pub enum CodecConfig {
    /// H.264/AVC.
    H264(H264EncoderConfig),
    /// H.265/HEVC.
    Hevc(HevcEncoderConfig),
    /// VP9.
    Vp9(Vp9EncoderConfig),
    /// AV1.
    Av1(Av1EncoderConfig),
}

/// Rate control mode.
#[derive(Debug, Clone, Copy, PartialEq, Eq, Structural)]
pub enum RateControlMode {
    /// Constant bit rate.
    Cbr,
    /// Variable bit rate.
    Vbr,
    /// Constant quantisation parameter.
    Cqp,
    /// Intelligent Constant Quality: controlled by a quality value alone.
    Icq,
    /// Quality VBR: variable bit rate by quality.
    Qvbr,
    /// Look Ahead.
    La,
    /// Average VBR.
    Avbr,
    /// Video Conferencing Mode.
    Vcm,
    /// Look Ahead with ICQ.
    LaIcq,
    /// Look Ahead with HRD conformance.
    LaHrd,
}

impl RateControlMode {
    pub open spec fn spec_to_mfx(self) -> u16 {
        match self {
            RateControlMode::Cbr => sys::MFX_RATECONTROL_CBR,
            RateControlMode::Vbr => sys::MFX_RATECONTROL_VBR,
            RateControlMode::Cqp => sys::MFX_RATECONTROL_CQP,
            RateControlMode::Icq => sys::MFX_RATECONTROL_ICQ,
            RateControlMode::Qvbr => sys::MFX_RATECONTROL_QVBR,
            RateControlMode::La => sys::MFX_RATECONTROL_LA,
            RateControlMode::Avbr => sys::MFX_RATECONTROL_AVBR,
            RateControlMode::Vcm => sys::MFX_RATECONTROL_VCM,
            RateControlMode::LaIcq => sys::MFX_RATECONTROL_LA_ICQ,
            RateControlMode::LaHrd => sys::MFX_RATECONTROL_LA_HRD,
        }
    }

    /// The value of `mfxInfoMFX.RateControlMethod`.
    #[verifier::when_used_as_spec(spec_to_mfx)]
    pub fn to_mfx(self) -> (r: u16)
        ensures
            r == self.spec_to_mfx(),
    {
        match self {
            RateControlMode::Cbr => sys::MFX_RATECONTROL_CBR,
            RateControlMode::Vbr => sys::MFX_RATECONTROL_VBR,
            RateControlMode::Cqp => sys::MFX_RATECONTROL_CQP,
            RateControlMode::Icq => sys::MFX_RATECONTROL_ICQ,
            RateControlMode::Qvbr => sys::MFX_RATECONTROL_QVBR,
            RateControlMode::La => sys::MFX_RATECONTROL_LA,
            RateControlMode::Avbr => sys::MFX_RATECONTROL_AVBR,
            RateControlMode::Vcm => sys::MFX_RATECONTROL_VCM,
            RateControlMode::LaIcq => sys::MFX_RATECONTROL_LA_ICQ,
            RateControlMode::LaHrd => sys::MFX_RATECONTROL_LA_HRD,
        }
    }
}

/// Encoder settings.
///
/// They correspond to `mfxVideoParam`, `mfxInfoMFX` and `mfxFrameInfo`; the fields are named after
/// the members of those structures.
#[derive(Debug, Clone)]
#[non_exhaustive]
pub struct EncoderConfig {
    /// The hardware adapter to use.
    pub adapter: AdapterSelector,
    /// The codec with its settings.
    pub codec: CodecConfig,
    /// Frame width in pixels; aligned up to a multiple of 16.
    pub width: u32,
    /// Frame height in pixels; aligned up to a multiple of 16.
    pub height: u32,
    /// Format of the input frames.
    pub frame_format: FrameFormat,
    /// Numerator of the frame rate.
    pub framerate_num: u32,
    /// Denominator of the frame rate.
    pub framerate_den: u32,
    /// Width of the sample aspect ratio; 0 if absent.
    pub aspect_ratio_w: Option<u16>,
    /// Height of the sample aspect ratio; 0 if absent.
    pub aspect_ratio_h: Option<u16>,
    /// Asynchronous depth: 1 takes the least memory, 4 favours throughput. 4 if absent.
    pub async_depth: Option<u16>,
    /// Whether to use the fixed-function pipeline; the encoder's default if absent.
    pub low_power: Option<bool>,
    /// Multiplier of the rate control parameters; 0 if absent.
    pub brc_param_multiplier: Option<u16>,
    /// Target usage from 1 (best quality) to 7 (best speed); 4 (balanced) if absent.
    pub target_usage: Option<u16>,
    /// GOP size; 0, the encoder's default, if absent.
    pub gop_pic_size: Option<u16>,
    /// Distance between reference frames: 1 means no B frames. 1 if absent.
    pub gop_ref_dist: Option<u16>,
    /// OR of the flags in `gop_opt_flag`; 0 if absent.
    pub gop_opt_flag: Option<u16>,
    /// Distance between IDR frames, in I frames; 0 if absent.
    pub idr_interval: Option<u16>,
    /// Rate control mode.
    pub rate_control_mode: RateControlMode,
    /// Initial fill of the buffer in KB (CBR, VBR, VCM, QVBR, LA_HRD).
    pub initial_delay_in_kb: Option<u16>,
    /// Size of the bitstream buffer in KB; `width * height * 4 / 1024`, rounded up, if absent.
    pub buffer_size_in_kb: Option<u16>,
    /// Target bit rate in kbps (CBR, VBR, LA, VCM, QVBR, LA_HRD, AVBR).
    pub target_kbps: Option<u16>,
    /// Maximum bit rate in kbps (VBR, VCM, QVBR, LA_HRD).
    pub max_kbps: Option<u16>,
    /// Quantisation parameter of I frames (CQP).
    pub qpi: Option<u16>,
    /// Quantisation parameter of P frames (CQP).
    pub qpp: Option<u16>,
    /// Quantisation parameter of B frames (CQP).
    pub qpb: Option<u16>,
    /// Quality from 1 to 51 (ICQ, LA_ICQ).
    pub icq_quality: Option<u16>,
    /// Accuracy in tenths of a percent (AVBR).
    pub accuracy: Option<u16>,
    /// Convergence period in units of 100 frames (AVBR).
    pub convergence: Option<u16>,
    /// Number of slices; 0, decided by the encoder, if absent.
    pub num_slice: Option<u16>,
    /// Number of reference frames; 0, decided by the encoder, if absent.
    pub num_ref_frame: Option<u16>,
    /// Look-ahead depth (LA, LA_ICQ, LA_HRD); the encoder's default if absent.
    pub look_ahead_depth: Option<u16>,
    /// Quality from 1 to 51 (QVBR); the encoder's default if absent.
    pub qvbr_quality: Option<u16>,
}

impl EncoderConfig {
    /// Settings with the required parameters; all optional ones are absent.
    pub fn new(
        adapter: AdapterSelector,
        codec: CodecConfig,
        width: u32,
        height: u32,
        frame_format: FrameFormat,
        framerate_num: u32,
        framerate_den: u32,
        rate_control_mode: RateControlMode,
    ) -> (r: EncoderConfig)
        ensures
            r == (EncoderConfig {
                adapter,
                codec,
                width,
                height,
                frame_format,
                framerate_num,
                framerate_den,
                aspect_ratio_w: None,
                aspect_ratio_h: None,
                async_depth: None,
                low_power: None,
                brc_param_multiplier: None,
                target_usage: None,
                gop_pic_size: None,
                gop_ref_dist: None,
                gop_opt_flag: None,
                idr_interval: None,
                rate_control_mode,
                initial_delay_in_kb: None,
                buffer_size_in_kb: None,
                target_kbps: None,
                max_kbps: None,
                qpi: None,
                qpp: None,
                qpb: None,
                icq_quality: None,
                accuracy: None,
                convergence: None,
                num_slice: None,
                num_ref_frame: None,
                look_ahead_depth: None,
                qvbr_quality: None,
            }),
    {
        EncoderConfig {
            adapter,
            codec,
            width,
            height,
            frame_format,
            framerate_num,
            framerate_den,
            aspect_ratio_w: None,
            aspect_ratio_h: None,
            async_depth: None,
            low_power: None,
            brc_param_multiplier: None,
            target_usage: None,
            gop_pic_size: None,
            gop_ref_dist: None,
            gop_opt_flag: None,
            idr_interval: None,
            rate_control_mode,
            initial_delay_in_kb: None,
            buffer_size_in_kb: None,
            target_kbps: None,
            max_kbps: None,
            qpi: None,
            qpp: None,
            qpb: None,
            icq_quality: None,
            accuracy: None,
            convergence: None,
            num_slice: None,
            num_ref_frame: None,
            look_ahead_depth: None,
            qvbr_quality: None,
        }
    }
}

/// Parameters that can change while the encoder runs; an absent one keeps its value.
#[derive(Debug, Clone)]
pub struct ReconfigureParams {
    /// Target bit rate in kbps.
    pub target_kbps: Option<u16>,
    /// Maximum bit rate in kbps.
    pub max_kbps: Option<u16>,
    /// Numerator of the frame rate.
    pub framerate_num: Option<u32>,
    /// Denominator of the frame rate.
    pub framerate_den: Option<u32>,
}

impl Default for ReconfigureParams {
    /// Nothing changes.
    fn default() -> (r: ReconfigureParams)
        ensures
            r == (ReconfigureParams {
                target_kbps: None,
                max_kbps: None,
                framerate_num: None,
                framerate_den: None,
            }),
    {
        ReconfigureParams {
            target_kbps: None,
            max_kbps: None,
            framerate_num: None,
            framerate_den: None,
        }
    }
}

/// Options of one frame.
#[derive(Debug, Clone)]
pub struct EncodeOptions {
    /// Frame type: an OR of the constants in `frame_type`, or 0 to let the encoder decide.
    pub frame_type: u16,
}

/// Picture type of an encoded frame.
#[derive(Debug, Clone, Copy, PartialEq, Eq, Structural)]
pub enum PictureType {
    /// IDR frame.
    Idr,
    /// I frame.
    I,
    /// P frame.
    P,
    /// B frame.
    B,
    /// Unknown.
    Unknown,
}

/// Statistics of an encoder.
#[derive(Debug, Clone)]
pub struct EncoderStats {
    /// Number of encoded frames.
    pub num_frame: u32,
    /// Number of encoded bits.
    pub num_bit: u64,
    /// Number of cached frames.
    pub num_cached_frame: u32,
}

/// The picture type that a frame type stands for: the first of IDR, I, P, B whose bit is set.
pub open spec fn picture_type_of(frame_type: u16) -> PictureType {
    if frame_type & sys::MFX_FRAMETYPE_IDR != 0 {
        PictureType::Idr
    } else if frame_type & sys::MFX_FRAMETYPE_I != 0 {
        PictureType::I
    } else if frame_type & sys::MFX_FRAMETYPE_P != 0 {
        PictureType::P
    } else if frame_type & sys::MFX_FRAMETYPE_B != 0 {
        PictureType::B
    } else {
        PictureType::Unknown
    }
}

/// The picture type of a bitstream's frame type.
pub fn picture_type_from_frame_type(frame_type: u16) -> (r: PictureType)
    ensures
        r == picture_type_of(frame_type),
{
    if frame_type & sys::MFX_FRAMETYPE_IDR != 0 {
        PictureType::Idr
    } else if frame_type & sys::MFX_FRAMETYPE_I != 0 {
        PictureType::I
    } else if frame_type & sys::MFX_FRAMETYPE_P != 0 {
        PictureType::P
    } else if frame_type & sys::MFX_FRAMETYPE_B != 0 {
        PictureType::B
    } else {
        PictureType::Unknown
    }
}

/// A frame type with the IDR bit is reported as an IDR picture, whatever other bits it has.
pub proof fn law_idr_bit_is_reported_as_idr(frame_type: u16)
    requires
        frame_type & sys::MFX_FRAMETYPE_IDR == sys::MFX_FRAMETYPE_IDR,
    ensures
        picture_type_of(frame_type) == PictureType::Idr,
{
}

/// The codec identifier of the settings.
pub open spec fn codec_id_of(codec: CodecConfig) -> u32 {
    match codec {
        CodecConfig::H264(_) => sys::MFX_CODEC_AVC,
        CodecConfig::Hevc(_) => sys::MFX_CODEC_HEVC,
        CodecConfig::Vp9(_) => sys::MFX_CODEC_VP9,
        CodecConfig::Av1(_) => sys::MFX_CODEC_AV1,
    }
}

/// The value of `mfxInfoMFX.CodecId`.
pub fn codec_id(codec: &CodecConfig) -> (r: u32)
    ensures
        r == codec_id_of(*codec),
{
    match codec {
        CodecConfig::H264(_) => sys::MFX_CODEC_AVC,
        CodecConfig::Hevc(_) => sys::MFX_CODEC_HEVC,
        CodecConfig::Vp9(_) => sys::MFX_CODEC_VP9,
        CodecConfig::Av1(_) => sys::MFX_CODEC_AV1,
    }
}

/// The profile of the settings; `MFX_PROFILE_UNKNOWN` if none is given.
pub open spec fn codec_profile_of(codec: CodecConfig) -> u16 {
    match codec {
        CodecConfig::H264(c) => match c.profile {
            Some(H264Profile::Baseline) => sys::MFX_PROFILE_AVC_BASELINE,
            Some(H264Profile::ConstrainedBaseline) => sys::MFX_PROFILE_AVC_CONSTRAINED_BASELINE,
            Some(H264Profile::Main) => sys::MFX_PROFILE_AVC_MAIN,
            Some(H264Profile::High) => sys::MFX_PROFILE_AVC_HIGH,
            Some(H264Profile::ConstrainedHigh) => sys::MFX_PROFILE_AVC_CONSTRAINED_HIGH,
            Some(H264Profile::High10) => sys::MFX_PROFILE_AVC_HIGH10,
            Some(H264Profile::High422) => sys::MFX_PROFILE_AVC_HIGH_422,
            None => sys::MFX_PROFILE_UNKNOWN,
        },
        CodecConfig::Hevc(c) => match c.profile {
            Some(HevcProfile::Main) => sys::MFX_PROFILE_HEVC_MAIN,
            Some(HevcProfile::Main10) => sys::MFX_PROFILE_HEVC_MAIN10,
            Some(HevcProfile::MainSp) => sys::MFX_PROFILE_HEVC_MAINSP,
            Some(HevcProfile::Rext) => sys::MFX_PROFILE_HEVC_REXT,
            Some(HevcProfile::Scc) => sys::MFX_PROFILE_HEVC_SCC,
            None => sys::MFX_PROFILE_UNKNOWN,
        },
        CodecConfig::Vp9(c) => match c.profile {
            Some(Vp9Profile::Profile0) => sys::MFX_PROFILE_VP9_0,
            Some(Vp9Profile::Profile1) => sys::MFX_PROFILE_VP9_1,
            Some(Vp9Profile::Profile2) => sys::MFX_PROFILE_VP9_2,
            Some(Vp9Profile::Profile3) => sys::MFX_PROFILE_VP9_3,
            None => sys::MFX_PROFILE_UNKNOWN,
        },
        CodecConfig::Av1(c) => match c.profile {
            Some(Av1Profile::Main) => sys::MFX_PROFILE_AV1_MAIN,
            None => sys::MFX_PROFILE_UNKNOWN,
        },
    }
}

/// The value of `mfxInfoMFX.CodecProfile`.
pub fn codec_profile(codec: &CodecConfig) -> (r: u16)
    ensures
        r == codec_profile_of(*codec),
{
    match codec {
        CodecConfig::H264(c) => match c.profile {
            Some(H264Profile::Baseline) => sys::MFX_PROFILE_AVC_BASELINE,
            Some(H264Profile::ConstrainedBaseline) => sys::MFX_PROFILE_AVC_CONSTRAINED_BASELINE,
            Some(H264Profile::Main) => sys::MFX_PROFILE_AVC_MAIN,
            Some(H264Profile::High) => sys::MFX_PROFILE_AVC_HIGH,
            Some(H264Profile::ConstrainedHigh) => sys::MFX_PROFILE_AVC_CONSTRAINED_HIGH,
            Some(H264Profile::High10) => sys::MFX_PROFILE_AVC_HIGH10,
            Some(H264Profile::High422) => sys::MFX_PROFILE_AVC_HIGH_422,
            None => sys::MFX_PROFILE_UNKNOWN,
        },
        CodecConfig::Hevc(c) => match c.profile {
            Some(HevcProfile::Main) => sys::MFX_PROFILE_HEVC_MAIN,
            Some(HevcProfile::Main10) => sys::MFX_PROFILE_HEVC_MAIN10,
            Some(HevcProfile::MainSp) => sys::MFX_PROFILE_HEVC_MAINSP,
            Some(HevcProfile::Rext) => sys::MFX_PROFILE_HEVC_REXT,
            Some(HevcProfile::Scc) => sys::MFX_PROFILE_HEVC_SCC,
            None => sys::MFX_PROFILE_UNKNOWN,
        },
        CodecConfig::Vp9(c) => match c.profile {
            Some(Vp9Profile::Profile0) => sys::MFX_PROFILE_VP9_0,
            Some(Vp9Profile::Profile1) => sys::MFX_PROFILE_VP9_1,
            Some(Vp9Profile::Profile2) => sys::MFX_PROFILE_VP9_2,
            Some(Vp9Profile::Profile3) => sys::MFX_PROFILE_VP9_3,
            None => sys::MFX_PROFILE_UNKNOWN,
        },
        CodecConfig::Av1(c) => match c.profile {
            Some(Av1Profile::Main) => sys::MFX_PROFILE_AV1_MAIN,
            None => sys::MFX_PROFILE_UNKNOWN,
        },
    }
}

/// The name of a coding option value; `unknown (0x..)` for a value without one.
pub open spec fn coding_option_text(value: u16) -> Seq<char> {
    if value == sys::MFX_CODINGOPTION_UNKNOWN {
        "MFX_CODINGOPTION_UNKNOWN"@
    } else if value == sys::MFX_CODINGOPTION_ON {
        "MFX_CODINGOPTION_ON"@
    } else if value == sys::MFX_CODINGOPTION_OFF {
        "MFX_CODINGOPTION_OFF"@
    } else if value == sys::MFX_CODINGOPTION_ADAPTIVE {
        "MFX_CODINGOPTION_ADAPTIVE"@
    } else {
        "unknown (0x"@ + numeral(value as nat, 16) + ")"@
    }
}

/// The name of a coding option value, for messages.
pub fn coding_option_name(value: u16) -> (r: String)
    ensures
        r@ == coding_option_text(value),
{
    if value == sys::MFX_CODINGOPTION_UNKNOWN {
        "MFX_CODINGOPTION_UNKNOWN".to_owned()
    } else if value == sys::MFX_CODINGOPTION_ON {
        "MFX_CODINGOPTION_ON".to_owned()
    } else if value == sys::MFX_CODINGOPTION_OFF {
        "MFX_CODINGOPTION_OFF".to_owned()
    } else if value == sys::MFX_CODINGOPTION_ADAPTIVE {
        "MFX_CODINGOPTION_ADAPTIVE".to_owned()
    } else {
        let mut out = "unknown (0x".to_owned();
        push_numeral(&mut out, value as u64, 16);
        out.append(")");
        out
    }
}

/// Two rate control modes never share a VPL value.
pub proof fn law_rate_control_values_are_distinct(a: RateControlMode, b: RateControlMode)
    ensures
        a.to_mfx() == b.to_mfx() ==> a == b,
{
}

/// The picture type goes by the highest of the IDR, I, P and B bits that is set, in this order, and by
/// no other bit.
pub proof fn law_picture_type_goes_by_the_bits(frame_type: u16, other: u16)
    ensures
        ({
            let idr = frame_type & 0x80 != 0;
            let i = frame_type & 1 != 0;
            let p = frame_type & 2 != 0;
            let b = frame_type & 4 != 0;
            &&& picture_type_of(frame_type) == PictureType::Idr <==> idr
            &&& picture_type_of(frame_type) == PictureType::I <==> !idr && i
            &&& picture_type_of(frame_type) == PictureType::P <==> !idr && !i && p
            &&& picture_type_of(frame_type) == PictureType::B <==> !idr && !i && !p && b
            &&& picture_type_of(frame_type) == PictureType::Unknown <==> !idr && !i && !p && !b
        }),
        frame_type & 0x87 == other & 0x87 ==> picture_type_of(frame_type) == picture_type_of(other),
{
    if frame_type & 0x87 == other & 0x87 {
        assert(frame_type & 0x80 == other & 0x80 && frame_type & 1 == other & 1 && frame_type & 2
            == other & 2 && frame_type & 4 == other & 4) by (bit_vector)
            requires
                frame_type & 0x87 == other & 0x87,
        ;
    }
}

/// The codec of the settings is named by its four-character code, whatever its profile.
pub proof fn law_settings_name_their_codec(codec: CodecConfig)
    ensures
        codec is H264 <==> codec_id_of(codec) == sys::four_characters('A', 'V', 'C', ' '),
        codec is Hevc <==> codec_id_of(codec) == sys::four_characters('H', 'E', 'V', 'C'),
        codec is Vp9 <==> codec_id_of(codec) == sys::four_characters('V', 'P', '9', ' '),
        codec is Av1 <==> codec_id_of(codec) == sys::four_characters('A', 'V', '1', ' '),
{
}

/// A profile that is set is asked for under its number, which no other profile of the codec has;
/// without one, 0 leaves it to the encoder.
pub proof fn law_settings_name_their_profile(codec: CodecConfig)
    ensures
        ({
            let number = codec_profile_of(codec);
            match codec {
                CodecConfig::H264(H264EncoderConfig { profile }) => {
                    &&& profile is None <==> number == 0
                    &&& profile == Some(H264Profile::Baseline) <==> number == 66
                    &&& profile == Some(H264Profile::ConstrainedBaseline) <==> number == 66 + 0x200
                    &&& profile == Some(H264Profile::Main) <==> number == 77
                    &&& profile == Some(H264Profile::High) <==> number == 100
                    &&& profile == Some(H264Profile::ConstrainedHigh) <==> number == 100 + 0x3000
                    &&& profile == Some(H264Profile::High10) <==> number == 110
                    &&& profile == Some(H264Profile::High422) <==> number == 122
                },
                CodecConfig::Hevc(HevcEncoderConfig { profile }) => {
                    &&& profile is None <==> number == 0
                    &&& profile == Some(HevcProfile::Main) <==> number == 1
                    &&& profile == Some(HevcProfile::Main10) <==> number == 2
                    &&& profile == Some(HevcProfile::MainSp) <==> number == 3
                    &&& profile == Some(HevcProfile::Rext) <==> number == 4
                    &&& profile == Some(HevcProfile::Scc) <==> number == 9
                },
                CodecConfig::Vp9(Vp9EncoderConfig { profile, .. }) => {
                    &&& profile is None <==> number == 0
                    &&& profile == Some(Vp9Profile::Profile0) <==> number == 1
                    &&& profile == Some(Vp9Profile::Profile1) <==> number == 2
                    &&& profile == Some(Vp9Profile::Profile2) <==> number == 3
                    &&& profile == Some(Vp9Profile::Profile3) <==> number == 4
                },
                CodecConfig::Av1(Av1EncoderConfig { profile }) => {
                    &&& profile is None <==> number == 0
                    &&& profile is Some <==> number == 1
                },
            }
        }),
{
}

/// A rate control mode is asked for under the number that the interface gives it.
pub proof fn law_rate_control_modes_have_their_numbers(mode: RateControlMode)
    ensures
        mode == RateControlMode::Cbr <==> mode.to_mfx() == 1,
        mode == RateControlMode::Vbr <==> mode.to_mfx() == 2,
        mode == RateControlMode::Cqp <==> mode.to_mfx() == 3,
        mode == RateControlMode::Avbr <==> mode.to_mfx() == 4,
        mode == RateControlMode::La <==> mode.to_mfx() == 8,
        mode == RateControlMode::Icq <==> mode.to_mfx() == 9,
        mode == RateControlMode::Vcm <==> mode.to_mfx() == 10,
        mode == RateControlMode::LaIcq <==> mode.to_mfx() == 11,
        mode == RateControlMode::LaHrd <==> mode.to_mfx() == 13,
        mode == RateControlMode::Qvbr <==> mode.to_mfx() == 14,
{
}

/// A coding option is named after its value, and a value without a name is quoted in hexadecimal.
pub proof fn law_coding_options_are_named(value: u16)
    ensures
        value == 0 ==> coding_option_text(value) == "MFX_CODINGOPTION_UNKNOWN"@,
        value == 0x10 ==> coding_option_text(value) == "MFX_CODINGOPTION_ON"@,
        value == 0x20 ==> coding_option_text(value) == "MFX_CODINGOPTION_OFF"@,
        value == 0x30 ==> coding_option_text(value) == "MFX_CODINGOPTION_ADAPTIVE"@,
        value != 0 && value != 0x10 && value != 0x20 && value != 0x30 ==> coding_option_text(value)
            == "unknown (0x"@ + numeral(value as nat, 16) + ")"@,
{
}

/// Forced frame types and group-of-pictures flags are single bits, so that they can be combined.
pub proof fn law_flags_are_separate_bits()
    ensures
        crate::frame_type::UNKNOWN == 0,
        crate::frame_type::I == 1,
        crate::frame_type::P == 2,
        crate::frame_type::B == 4,
        crate::frame_type::S == 8,
        crate::frame_type::REF == 0x40,
        crate::frame_type::IDR == 0x80,
        crate::gop_opt_flag::CLOSED == 1,
        crate::gop_opt_flag::STRICT == 2,
{
}

} // verus!
