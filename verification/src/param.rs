//! The parameter block that an encoder is initialised with.
use vstd::prelude::*;

use crate::config::codec_id;
use crate::config::codec_id_of;
use crate::config::codec_profile;
use crate::config::codec_profile_of;
use crate::config::CodecConfig;
use crate::config::EncoderConfig;
use crate::config::RateControlMode;
use crate::error::answer;
use crate::error::Error;
use crate::error::ErrorView;
use crate::format::FrameFormat;
use crate::sys;
use crate::text::decimal;
use crate::text::push_decimal;

verus! {

/// The members of `mfxFrameInfo` that are not reserved.
///
/// `dependency_id` is also `FrameId.ViewId`.
#[derive(Debug, Clone, Copy, PartialEq, Eq)]
pub struct FrameInfo {
    pub bit_depth_luma: u16,
    pub bit_depth_chroma: u16,
    pub shift: u16,
    pub temporal_id: u16,
    pub priority_id: u16,
    pub dependency_id: u16,
    pub quality_id: u16,
    pub fourcc: u32,
    pub width: u16,
    pub height: u16,
    pub crop_x: u16,
    pub crop_y: u16,
    pub crop_w: u16,
    pub crop_h: u16,
    pub frame_rate_ext_n: u32,
    pub frame_rate_ext_d: u32,
    pub aspect_ratio_w: u16,
    pub aspect_ratio_h: u16,
    pub pic_struct: u16,
    pub chroma_format: u16,
}

/// The members of `mfxVideoParam` and `mfxInfoMFX` that are not reserved, with the extension buffers
/// that this library attaches.
///
/// Three members share their memory with others, depending on the rate control mode:
/// `initial_delay_in_kb` is `QPI` in CQP and `Accuracy` in AVBR, `target_kbps` is `QPP` in CQP and
/// `ICQQuality` in ICQ and LA_ICQ, `max_kbps` is `QPB` in CQP and `Convergence` in AVBR.
///
/// The thirteen members from `target_usage` to `encoded_order` stand in the order of the C structure.
/// A decoder's members lie in the same memory, word for word: `DecodedOrder`, `ExtendedPicStruct`,
/// `TimeStampCalc`, `SliceGroupsPresent`, `MaxDecFrameBuffering`, `EnableReallocRequest`, `FilmGrain`,
/// `IgnoreLevelConstrain` and `SkipOutput` are the nine from `target_usage` to `target_kbps`.
#[derive(Debug, Clone, Copy, PartialEq, Eq)]
pub struct VideoParam {
    pub alloc_id: u32,
    pub async_depth: u16,
    pub protected: u16,
    pub io_pattern: u16,
    pub frame_info: FrameInfo,
    pub codec_id: u32,
    pub codec_profile: u16,
    pub codec_level: u16,
    pub num_thread: u16,
    pub low_power: u16,
    pub brc_param_multiplier: u16,
    pub target_usage: u16,
    pub gop_pic_size: u16,
    pub gop_ref_dist: u16,
    pub gop_opt_flag: u16,
    pub idr_interval: u16,
    pub rate_control_method: u16,
    pub initial_delay_in_kb: u16,
    pub buffer_size_in_kb: u16,
    pub target_kbps: u16,
    pub max_kbps: u16,
    pub num_slice: u16,
    pub num_ref_frame: u16,
    pub encoded_order: u16,
    /// `mfxExtCodingOption2.LookAheadDepth`; the buffer is attached if present.
    pub look_ahead_depth: Option<u16>,
    /// `mfxExtCodingOption3.QVBRQuality`; the buffer is attached if present.
    pub qvbr_quality: Option<u16>,
    /// `mfxExtVP9Param.WriteIVFHeaders`; the buffer is attached if present.
    pub write_ivf_headers: Option<u16>,
}

impl VideoParam {
    pub open spec fn spec_zeroed() -> VideoParam {
        VideoParam {
            alloc_id: 0,
            async_depth: 0,
            protected: 0,
            io_pattern: 0,
            frame_info: FrameInfo {
                bit_depth_luma: 0,
                bit_depth_chroma: 0,
                shift: 0,
                temporal_id: 0,
                priority_id: 0,
                dependency_id: 0,
                quality_id: 0,
                fourcc: 0,
                width: 0,
                height: 0,
                crop_x: 0,
                crop_y: 0,
                crop_w: 0,
                crop_h: 0,
                frame_rate_ext_n: 0,
                frame_rate_ext_d: 0,
                aspect_ratio_w: 0,
                aspect_ratio_h: 0,
                pic_struct: 0,
                chroma_format: 0,
            },
            codec_id: 0,
            codec_profile: 0,
            codec_level: 0,
            num_thread: 0,
            low_power: 0,
            brc_param_multiplier: 0,
            target_usage: 0,
            gop_pic_size: 0,
            gop_ref_dist: 0,
            gop_opt_flag: 0,
            idr_interval: 0,
            rate_control_method: 0,
            initial_delay_in_kb: 0,
            buffer_size_in_kb: 0,
            target_kbps: 0,
            max_kbps: 0,
            num_slice: 0,
            num_ref_frame: 0,
            encoded_order: 0,
            look_ahead_depth: None,
            qvbr_quality: None,
            write_ivf_headers: None,
        }
    }

    /// A block with every member zero and no extension buffer.
    #[verifier::when_used_as_spec(spec_zeroed)]
    pub fn zeroed() -> (r: VideoParam)
        ensures
            r == VideoParam::spec_zeroed(),
    {
        VideoParam {
            alloc_id: 0,
            async_depth: 0,
            protected: 0,
            io_pattern: 0,
            frame_info: FrameInfo {
                bit_depth_luma: 0,
                bit_depth_chroma: 0,
                shift: 0,
                temporal_id: 0,
                priority_id: 0,
                dependency_id: 0,
                quality_id: 0,
                fourcc: 0,
                width: 0,
                height: 0,
                crop_x: 0,
                crop_y: 0,
                crop_w: 0,
                crop_h: 0,
                frame_rate_ext_n: 0,
                frame_rate_ext_d: 0,
                aspect_ratio_w: 0,
                aspect_ratio_h: 0,
                pic_struct: 0,
                chroma_format: 0,
            },
            codec_id: 0,
            codec_profile: 0,
            codec_level: 0,
            num_thread: 0,
            low_power: 0,
            brc_param_multiplier: 0,
            target_usage: 0,
            gop_pic_size: 0,
            gop_ref_dist: 0,
            gop_opt_flag: 0,
            idr_interval: 0,
            rate_control_method: 0,
            initial_delay_in_kb: 0,
            buffer_size_in_kb: 0,
            target_kbps: 0,
            max_kbps: 0,
            num_slice: 0,
            num_ref_frame: 0,
            encoded_order: 0,
            look_ahead_depth: None,
            qvbr_quality: None,
            write_ivf_headers: None,
        }
    }

    pub open spec fn spec_without_extensions(self) -> VideoParam {
        VideoParam {
            look_ahead_depth: None,
            qvbr_quality: None,
            write_ivf_headers: None,
            ..self
        }
    }

    /// The block with its extension buffers detached.
    #[verifier::when_used_as_spec(spec_without_extensions)]
    pub fn without_extensions(self) -> (r: VideoParam)
        ensures
            r == self.spec_without_extensions(),
    {
        VideoParam {
            look_ahead_depth: None,
            qvbr_quality: None,
            write_ivf_headers: None,
            ..self
        }
    }
}

/// The smallest multiple of `alignment` that is at least `value`.
pub open spec fn aligned(value: nat, alignment: nat) -> nat {
    ((value + alignment - 1) / alignment as int * alignment) as nat
}

/// [`aligned`], or the largest multiple of `alignment` that 32 bits can hold if that is less.
pub open spec fn align_up_value(value: u32, alignment: u32) -> u32 {
    if aligned(value as nat, alignment as nat) <= u32::MAX {
        aligned(value as nat, alignment as nat) as u32
    } else {
        (u32::MAX - u32::MAX % alignment) as u32
    }
}

/// Rounds `value` up to a multiple of `alignment`; on overflow, the largest multiple there is.
pub fn align_up(value: u32, alignment: u32) -> (r: u32)
    requires
        alignment > 0,
    ensures
        r == align_up_value(value, alignment),
{
    proof {
        lemma_aligned(value, alignment);
    }
    match value.checked_add(alignment - 1) {
        Some(v) => v - v % alignment,
        None => u32::MAX - u32::MAX % alignment,
    }
}

proof fn lemma_aligned(value: u32, alignment: u32)
    requires
        alignment > 0,
    ensures
        ({
            let v = value + alignment - 1;
            &&& aligned(value as nat, alignment as nat) == v - v % (alignment as int)
            &&& v > u32::MAX && aligned(value as nat, alignment as nat) <= u32::MAX ==> aligned(
                value as nat,
                alignment as nat,
            ) == u32::MAX - u32::MAX % alignment
        }),
{
    let a = alignment as int;
    let v = value + a - 1;
    let m = u32::MAX as int;
    vstd::arithmetic::div_mod::lemma_fundamental_div_mod(v, a);
    vstd::arithmetic::div_mod::lemma_fundamental_div_mod(m, a);
    assert(v / a * a == a * (v / a) && m / a * a == a * (m / a)) by (nonlinear_arith);
    if v > m && v / a * a <= m {
        vstd::arithmetic::div_mod::lemma_div_is_ordered(m, v, a);
        if v / a > m / a {
            assert(v / a * a >= m / a * a + a) by (nonlinear_arith)
                requires
                    v / a >= m / a + 1,
                    a > 0,
            ;
        }
    }
}

/// Aligning gives a multiple of the alignment that is at least the value and exceeds it by less
/// than the alignment.
pub proof fn law_aligned_is_the_next_multiple(value: nat, alignment: nat)
    requires
        alignment > 0,
    ensures
        aligned(value, alignment) % alignment == 0,
        value <= aligned(value, alignment) < value + alignment,
{
    let v = value + alignment - 1;
    let a = alignment as int;
    vstd::arithmetic::div_mod::lemma_fundamental_div_mod(v, a);
    assert(v / a * a == a * (v / a)) by (nonlinear_arith);
    vstd::arithmetic::div_mod::lemma_mod_multiples_basic(v / a, a);
}

/// The frame width that the encoder works with.
pub open spec fn aligned_width(config: EncoderConfig) -> u32 {
    align_up_value(config.width, 16)
}

/// The frame height that the encoder works with.
pub open spec fn aligned_height(config: EncoderConfig) -> u32 {
    align_up_value(config.height, 16)
}

/// The bytes that a row of the aligned frame takes.
pub open spec fn pitch_bytes(config: EncoderConfig) -> nat {
    aligned_width(config) as nat * config.frame_format.spec_bytes_per_row_pixel()
}

/// The size of the bitstream buffer in KB if none is configured: four bytes per pixel of the picture,
/// rounded up, and capped where 16 bits end.
pub open spec fn auto_buffer_kb(config: EncoderConfig) -> u16 {
    let kb = (config.width * config.height * 4 + 1023) / 1024;
    if kb <= u16::MAX {
        kb as u16
    } else {
        u16::MAX
    }
}

/// `value` if present, `default` otherwise.
pub open spec fn or_default<T>(value: Option<T>, default: T) -> T {
    match value {
        Some(v) => v,
        None => default,
    }
}

/// The size of the bitstream buffer in KB.
pub open spec fn buffer_kb(config: EncoderConfig) -> u16 {
    or_default(config.buffer_size_in_kb, auto_buffer_kb(config))
}

/// The value of `mfxExtVP9Param.WriteIVFHeaders` to ask for; none for the other codecs.
pub open spec fn ivf_option(codec: CodecConfig) -> Option<u16> {
    match codec {
        CodecConfig::Vp9(vp9) => Some(
            if vp9.write_ivf_headers {
                sys::MFX_CODINGOPTION_ON
            } else {
                sys::MFX_CODINGOPTION_OFF
            },
        ),
        _ => None,
    }
}

/// The three members that depend on the rate control mode: the one that InitialDelayInKB, QPI and
/// Accuracy share, the one that TargetKbps, QPP and ICQQuality share, and the one that MaxKbps,
/// QPB and Convergence share. A setting that the mode does not use is not looked at.
pub open spec fn rate_members(config: EncoderConfig) -> (u16, u16, u16) {
    match config.rate_control_mode {
        RateControlMode::Cqp => (
            or_default(config.qpi, 0),
            or_default(config.qpp, 0),
            or_default(config.qpb, 0),
        ),
        RateControlMode::Icq | RateControlMode::LaIcq => (0, or_default(config.icq_quality, 0), 0),
        RateControlMode::Avbr => (
            or_default(config.accuracy, 0),
            or_default(config.target_kbps, 2000),
            or_default(config.convergence, 0),
        ),
        RateControlMode::La => (0, or_default(config.target_kbps, 2000), 0),
        RateControlMode::Cbr => (
            or_default(config.initial_delay_in_kb, 0),
            or_default(config.target_kbps, 2000),
            0,
        ),
        RateControlMode::Vbr
        | RateControlMode::Vcm
        | RateControlMode::Qvbr
        | RateControlMode::LaHrd => (
            or_default(config.initial_delay_in_kb, 0),
            or_default(config.target_kbps, 2000),
            or_default(config.max_kbps, 0),
        ),
    }
}

/// The frame description of the settings.
pub open spec fn frame_info_of(config: EncoderConfig) -> FrameInfo {
    FrameInfo {
        bit_depth_luma: 8,
        bit_depth_chroma: 8,
        fourcc: config.frame_format.fourcc(),
        width: aligned_width(config) as u16,
        height: aligned_height(config) as u16,
        crop_w: config.width as u16,
        crop_h: config.height as u16,
        frame_rate_ext_n: config.framerate_num,
        frame_rate_ext_d: config.framerate_den,
        aspect_ratio_w: or_default(config.aspect_ratio_w, 0),
        aspect_ratio_h: or_default(config.aspect_ratio_h, 0),
        pic_struct: sys::MFX_PICSTRUCT_PROGRESSIVE,
        chroma_format: config.frame_format.chroma_format(),
        ..VideoParam::spec_zeroed().frame_info
    }
}

/// The parameter block of the settings.
pub open spec fn video_param_of(config: EncoderConfig) -> VideoParam {
    VideoParam {
        async_depth: or_default(config.async_depth, 4),
        io_pattern: sys::MFX_IOPATTERN_IN_SYSTEM_MEMORY,
        frame_info: frame_info_of(config),
        codec_id: codec_id_of(config.codec),
        codec_profile: codec_profile_of(config.codec),
        low_power: match config.low_power {
            Some(true) => sys::MFX_CODINGOPTION_ON,
            Some(false) => sys::MFX_CODINGOPTION_OFF,
            None => 0,
        },
        brc_param_multiplier: or_default(config.brc_param_multiplier, 0),
        target_usage: or_default(config.target_usage, sys::MFX_TARGETUSAGE_BALANCED),
        gop_pic_size: or_default(config.gop_pic_size, 0),
        gop_ref_dist: or_default(config.gop_ref_dist, 1),
        gop_opt_flag: or_default(config.gop_opt_flag, 0),
        idr_interval: or_default(config.idr_interval, 0),
        rate_control_method: config.rate_control_mode.to_mfx(),
        initial_delay_in_kb: rate_members(config).0,
        buffer_size_in_kb: buffer_kb(config),
        target_kbps: rate_members(config).1,
        max_kbps: rate_members(config).2,
        num_slice: or_default(config.num_slice, 0),
        num_ref_frame: or_default(config.num_ref_frame, 0),
        look_ahead_depth: config.look_ahead_depth,
        qvbr_quality: config.qvbr_quality,
        write_ivf_headers: ivf_option(config.codec),
        ..VideoParam::spec_zeroed()
    }
}

/// What becomes of encoder settings: the parameter block, or the first complaint about them.
pub open spec fn encoder_plan(config: EncoderConfig) -> Result<VideoParam, ErrorView> {
    if config.width == 0 || config.height == 0 {
        Err(ErrorView::custom("Encoder::new"@, "width and height must be non-zero"@))
    } else if config.framerate_den == 0 {
        Err(ErrorView::custom("Encoder::new"@, "framerate_den must be non-zero"@))
    } else if aligned_width(config) > u16::MAX || aligned_height(config) > u16::MAX {
        Err(
            ErrorView::custom(
                "Encoder::new"@,
                "aligned width ("@ + decimal(aligned_width(config) as nat) + ") and height ("@
                    + decimal(aligned_height(config) as nat) + ") must not exceed 65535"@,
            ),
        )
    } else if pitch_bytes(config) > u16::MAX {
        Err(
            ErrorView::custom(
                "Encoder::new"@,
                "pitch ("@ + decimal(pitch_bytes(config)) + " bytes) for "@
                    + config.frame_format.name_text() + " with width "@ + decimal(
                    aligned_width(config) as nat,
                ) + " exceeds u16::MAX"@,
            ),
        )
    } else {
        Ok(video_param_of(config))
    }
}

fn buffer_size_in_kb(config: &EncoderConfig) -> (r: u16)
    requires
        config.width <= u16::MAX,
        config.height <= u16::MAX,
    ensures
        r == buffer_kb(*config),
{
    match config.buffer_size_in_kb {
        Some(kb) => kb,
        None => {
            let width: u64 = config.width as u64;
            let height: u64 = config.height as u64;
            assert(0 <= width * height <= 65535 * 65535) by (nonlinear_arith)
                requires
                    width <= 65535,
                    height <= 65535,
            ;
            let kb: u64 = (width * height * 4 + 1023) / 1024;
            if kb <= u16::MAX as u64 {
                kb as u16
            } else {
                u16::MAX
            }
        },
    }
}

fn ivf_headers_option(codec: &CodecConfig) -> (r: Option<u16>)
    ensures
        r == ivf_option(*codec),
{
    match codec {
        CodecConfig::Vp9(vp9) => Some(
            if vp9.write_ivf_headers {
                sys::MFX_CODINGOPTION_ON
            } else {
                sys::MFX_CODINGOPTION_OFF
            },
        ),
        _ => None,
    }
}

fn rate_control_members(config: &EncoderConfig) -> (r: (u16, u16, u16))
    ensures
        r == rate_members(*config),
{
    match config.rate_control_mode {
        RateControlMode::Cqp => (
            config.qpi.unwrap_or(0),
            config.qpp.unwrap_or(0),
            config.qpb.unwrap_or(0),
        ),
        RateControlMode::Icq | RateControlMode::LaIcq => (0, config.icq_quality.unwrap_or(0), 0),
        RateControlMode::Avbr => (
            config.accuracy.unwrap_or(0),
            config.target_kbps.unwrap_or(2000),
            config.convergence.unwrap_or(0),
        ),
        RateControlMode::La => (0, config.target_kbps.unwrap_or(2000), 0),
        RateControlMode::Cbr => (
            config.initial_delay_in_kb.unwrap_or(0),
            config.target_kbps.unwrap_or(2000),
            0,
        ),
        RateControlMode::Vbr
        | RateControlMode::Vcm
        | RateControlMode::Qvbr
        | RateControlMode::LaHrd => (
            config.initial_delay_in_kb.unwrap_or(0),
            config.target_kbps.unwrap_or(2000),
            config.max_kbps.unwrap_or(0),
        ),
    }
}

/// Checks encoder settings and turns them into the parameter block of `MFXVideoENCODE_Init`.
pub fn plan_encoder(config: &EncoderConfig) -> (r: Result<VideoParam, Error>)
    ensures
        answer(r) == encoder_plan(*config),
{
    if config.width == 0 || config.height == 0 {
        return Err(Error::new_custom("Encoder::new", "width and height must be non-zero"));
    }
    if config.framerate_den == 0 {
        return Err(Error::new_custom("Encoder::new", "framerate_den must be non-zero"));
    }
    let aligned_w: u32 = align_up(config.width, 16);
    let aligned_h: u32 = align_up(config.height, 16);
    if aligned_w > u16::MAX as u32 || aligned_h > u16::MAX as u32 {
        let mut message = "aligned width (".to_owned();
        push_decimal(&mut message, aligned_w as u64);
        message.append(") and height (");
        push_decimal(&mut message, aligned_h as u64);
        message.append(") must not exceed 65535");
        return Err(Error::new_custom_owned("Encoder::new", message));
    }
    let pitch: u64 = match config.frame_format {
        FrameFormat::Nv12 => aligned_w as u64,
        FrameFormat::Yuy2 => aligned_w as u64 * 2,
        FrameFormat::Bgra => aligned_w as u64 * 4,
    };
    assert(pitch == pitch_bytes(*config)) by {
        assert(aligned_w * 1 == aligned_w);
        assert(pitch == aligned_w * config.frame_format.spec_bytes_per_row_pixel());
    }
    if pitch > u16::MAX as u64 {
        let mut message = "pitch (".to_owned();
        push_decimal(&mut message, pitch);
        message.append(" bytes) for ");
        message.append(config.frame_format.name());
        message.append(" with width ");
        push_decimal(&mut message, aligned_w as u64);
        message.append(" exceeds u16::MAX");
        return Err(Error::new_custom_owned("Encoder::new", message));
    }
    assert(config.width <= aligned_w && config.height <= aligned_h) by {
        law_aligned_is_the_next_multiple(config.width as nat, 16);
        law_aligned_is_the_next_multiple(config.height as nat, 16);
    }
    let blank = VideoParam::zeroed();
    let frame_info = FrameInfo {
        bit_depth_luma: config.frame_format.bit_depth(),
        bit_depth_chroma: config.frame_format.bit_depth(),
        fourcc: config.frame_format.fourcc(),
        width: aligned_w as u16,
        height: aligned_h as u16,
        crop_w: config.width as u16,
        crop_h: config.height as u16,
        frame_rate_ext_n: config.framerate_num,
        frame_rate_ext_d: config.framerate_den,
        aspect_ratio_w: config.aspect_ratio_w.unwrap_or(0),
        aspect_ratio_h: config.aspect_ratio_h.unwrap_or(0),
        pic_struct: sys::MFX_PICSTRUCT_PROGRESSIVE,
        chroma_format: config.frame_format.chroma_format(),
        ..blank.frame_info
    };
    let (first, second, third) = rate_control_members(config);
    let param = VideoParam {
        async_depth: config.async_depth.unwrap_or(4),
        io_pattern: sys::MFX_IOPATTERN_IN_SYSTEM_MEMORY,
        frame_info,
        codec_id: codec_id(&config.codec),
        codec_profile: codec_profile(&config.codec),
        low_power: match config.low_power {
            Some(true) => sys::MFX_CODINGOPTION_ON,
            Some(false) => sys::MFX_CODINGOPTION_OFF,
            None => 0,
        },
        brc_param_multiplier: config.brc_param_multiplier.unwrap_or(0),
        target_usage: config.target_usage.unwrap_or(sys::MFX_TARGETUSAGE_BALANCED),
        gop_pic_size: config.gop_pic_size.unwrap_or(0),
        gop_ref_dist: config.gop_ref_dist.unwrap_or(1),
        gop_opt_flag: config.gop_opt_flag.unwrap_or(0),
        idr_interval: config.idr_interval.unwrap_or(0),
        rate_control_method: config.rate_control_mode.to_mfx(),
        initial_delay_in_kb: first,
        buffer_size_in_kb: buffer_size_in_kb(config),
        target_kbps: second,
        max_kbps: third,
        num_slice: config.num_slice.unwrap_or(0),
        num_ref_frame: config.num_ref_frame.unwrap_or(0),
        look_ahead_depth: config.look_ahead_depth,
        qvbr_quality: config.qvbr_quality,
        write_ivf_headers: ivf_headers_option(&config.codec),
        ..blank
    };
    assert(param == video_param_of(*config));
    Ok(param)
}

/// Accepted settings give a frame whose sides are multiples of 16 and less than 16 larger than the
/// picture, whose picture keeps its size, whose frame rate has a denominator, and whose rows fit a
/// 16-bit pitch.
pub proof fn law_accepted_settings_give_an_aligned_frame(config: EncoderConfig)
    requires
        encoder_plan(config) is Ok,
    ensures
        ({
            let info = encoder_plan(config)->Ok_0.frame_info;
            &&& info.width % 16 == 0 && info.height % 16 == 0
            &&& config.width <= info.width < config.width + 16
            &&& config.height <= info.height < config.height + 16
            &&& info.crop_w == config.width && info.crop_h == config.height
            &&& info.frame_rate_ext_d > 0
            &&& info.width * config.frame_format.spec_bytes_per_row_pixel() <= u16::MAX
        }),
{
    law_aligned_is_the_next_multiple(config.width as nat, 16);
    law_aligned_is_the_next_multiple(config.height as nat, 16);
}

proof fn lemma_block_depends_on_rate_members(config: EncoderConfig, other: EncoderConfig)
    requires
        other == (EncoderConfig {
            target_kbps: other.target_kbps,
            max_kbps: other.max_kbps,
            initial_delay_in_kb: other.initial_delay_in_kb,
            qpi: other.qpi,
            qpp: other.qpp,
            qpb: other.qpb,
            icq_quality: other.icq_quality,
            accuracy: other.accuracy,
            convergence: other.convergence,
            ..config
        }),
        rate_members(other) == rate_members(config),
    ensures
        video_param_of(other) == video_param_of(config),
{
    assert(frame_info_of(other) == frame_info_of(config));
    assert(buffer_kb(other) == buffer_kb(config));
}

/// A rate control setting matters in the modes that use it and in no other.
pub proof fn law_rate_settings_of_other_modes_are_ignored(
    config: EncoderConfig,
    value: Option<u16>,
)
    ensures
        ({
            let mode = config.rate_control_mode;
            let cqp = mode == RateControlMode::Cqp;
            let icq = mode == RateControlMode::Icq || mode == RateControlMode::LaIcq;
            let avbr = mode == RateControlMode::Avbr;
            let la = mode == RateControlMode::La;
            let cbr = mode == RateControlMode::Cbr;
            let param = video_param_of(config);
            &&& cqp || icq ==> video_param_of(EncoderConfig { target_kbps: value, ..config })
                == param
            &&& cqp || icq || avbr || la || cbr ==> video_param_of(
                EncoderConfig { max_kbps: value, ..config },
            ) == param
            &&& cqp || icq || avbr || la ==> video_param_of(
                EncoderConfig { initial_delay_in_kb: value, ..config },
            ) == param
            &&& !cqp ==> video_param_of(EncoderConfig { qpi: value, ..config }) == param
            &&& !cqp ==> video_param_of(EncoderConfig { qpp: value, ..config }) == param
            &&& !cqp ==> video_param_of(EncoderConfig { qpb: value, ..config }) == param
            &&& !icq ==> video_param_of(EncoderConfig { icq_quality: value, ..config }) == param
            &&& !avbr ==> video_param_of(EncoderConfig { accuracy: value, ..config }) == param
            &&& !avbr ==> video_param_of(EncoderConfig { convergence: value, ..config }) == param
        }),
{
    let mode = config.rate_control_mode;
    let cqp = mode == RateControlMode::Cqp;
    let icq = mode == RateControlMode::Icq || mode == RateControlMode::LaIcq;
    let avbr = mode == RateControlMode::Avbr;
    let la = mode == RateControlMode::La;
    let cbr = mode == RateControlMode::Cbr;
    if cqp || icq {
        lemma_block_depends_on_rate_members(config, EncoderConfig { target_kbps: value, ..config });
    }
    if cqp || icq || avbr || la || cbr {
        lemma_block_depends_on_rate_members(config, EncoderConfig { max_kbps: value, ..config });
    }
    if cqp || icq || avbr || la {
        lemma_block_depends_on_rate_members(config, EncoderConfig { initial_delay_in_kb: value, ..config });
    }
    if !cqp {
        lemma_block_depends_on_rate_members(config, EncoderConfig { qpi: value, ..config });
        lemma_block_depends_on_rate_members(config, EncoderConfig { qpp: value, ..config });
        lemma_block_depends_on_rate_members(config, EncoderConfig { qpb: value, ..config });
    }
    if !icq {
        lemma_block_depends_on_rate_members(config, EncoderConfig { icq_quality: value, ..config });
    }
    if !avbr {
        lemma_block_depends_on_rate_members(config, EncoderConfig { accuracy: value, ..config });
        lemma_block_depends_on_rate_members(config, EncoderConfig { convergence: value, ..config });
    }
}

/// Rounding up gives a multiple of the alignment that is not below the value and less than the
/// alignment above it, unless 32 bits cannot hold that; then the largest multiple that they can.
pub proof fn law_rounding_up(value: u32, alignment: u32)
    requires
        alignment > 0,
    ensures
        ({
            let rounded = align_up_value(value, alignment);
            &&& rounded % alignment == 0
            &&& rounded < value + alignment
            &&& rounded >= value || rounded + alignment > u32::MAX
        }),
{
    law_aligned_is_the_next_multiple(value as nat, alignment as nat);
    let a = alignment as int;
    let m = u32::MAX as int;
    vstd::arithmetic::div_mod::lemma_fundamental_div_mod(m, a);
    assert(m - m % a == m / a * a) by {
        assert(m / a * a == a * (m / a)) by (nonlinear_arith);
    }
    vstd::arithmetic::div_mod::lemma_mod_multiples_basic(m / a, a);
    vstd::arithmetic::div_mod::lemma_mod_bound(m, a);
}

/// Settings are accepted exactly if no side of the picture is zero, the frame rate has a denominator,
/// the sides rounded up to 16 fit 16 bits, and so does a row of one, two or four bytes for each pixel.
pub proof fn law_settings_are_accepted_within_limits(config: EncoderConfig)
    ensures
        encoder_plan(config) is Ok <==> {
            &&& 1 <= config.width <= (match config.frame_format {
                FrameFormat::Nv12 => 65520int,
                FrameFormat::Yuy2 => 32752int,
                FrameFormat::Bgra => 16368int,
            })
            &&& 1 <= config.height <= 65520
            &&& config.framerate_den >= 1
        },
{
    law_aligned_is_the_next_multiple(config.width as nat, 16);
    law_aligned_is_the_next_multiple(config.height as nat, 16);
    let w = aligned_width(config);
    assert(w * 1 == w);
    assert(pitch_bytes(config) == (match config.frame_format {
        FrameFormat::Nv12 => w as int,
        FrameFormat::Yuy2 => w * 2,
        FrameFormat::Bgra => w * 4,
    }));
}

/// Settings that are refused are refused by the first complaint about them: the sides, the
/// denominator, the rounded sides, the length of a row.
pub proof fn law_refused_settings_name_the_complaint(
    config: EncoderConfig,
    aligned_w: nat,
    aligned_h: nat,
)
    requires
        aligned_w % 16 == 0,
        config.width <= aligned_w < config.width + 16,
        aligned_w <= u32::MAX,
        aligned_h % 16 == 0,
        config.height <= aligned_h < config.height + 16,
        aligned_h <= u32::MAX,
    ensures
        ({
            let pixel: nat = match config.frame_format {
                FrameFormat::Nv12 => 1,
                FrameFormat::Yuy2 => 2,
                FrameFormat::Bgra => 4,
            };
            let format = match config.frame_format {
                FrameFormat::Nv12 => "Nv12"@,
                FrameFormat::Yuy2 => "Yuy2"@,
                FrameFormat::Bgra => "Bgra"@,
            };
            let sides = config.width == 0 || config.height == 0;
            let denominator = !sides && config.framerate_den == 0;
            let rounded = !sides && !denominator && (aligned_w > 65535 || aligned_h > 65535);
            let row = !sides && !denominator && !rounded && aligned_w * pixel > 65535;
            let message = encoder_plan(config)->Err_0.status_message;
            &&& encoder_plan(config) is Err <==> sides || denominator || rounded || row
            &&& encoder_plan(config) is Err ==> {
                &&& encoder_plan(config)->Err_0.function == "Encoder::new"@
                &&& encoder_plan(config)->Err_0.status_code is None
            }
            &&& sides ==> message == Some("width and height must be non-zero"@)
            &&& denominator ==> message == Some("framerate_den must be non-zero"@)
            &&& rounded ==> message == Some(
                "aligned width ("@ + decimal(aligned_w) + ") and height ("@ + decimal(aligned_h)
                    + ") must not exceed 65535"@,
            )
            &&& row ==> message == Some(
                "pitch ("@ + decimal((aligned_w * pixel) as nat) + " bytes) for "@ + format
                    + " with width "@ + decimal(aligned_w) + " exceeds u16::MAX"@,
            )
        }),
{
    law_aligned_is_the_next_multiple(config.width as nat, 16);
    law_aligned_is_the_next_multiple(config.height as nat, 16);
    assert(aligned(config.width as nat, 16) == aligned_w);
    assert(aligned(config.height as nat, 16) == aligned_h);
    assert(aligned_width(config) == aligned_w);
    assert(aligned_height(config) == aligned_h);
    assert(aligned_w * 1 == aligned_w);
}

/// Accepted settings arrive in the block: the format, the sizes and the frame rate as they are, the
/// codec and the mode under their numbers, and what is optional with its value or with the default
/// that its documentation names.
pub proof fn law_accepted_settings_arrive(config: EncoderConfig)
    requires
        encoder_plan(config) is Ok,
    ensures
        ({
            let param = encoder_plan(config)->Ok_0;
            let info = param.frame_info;
            &&& info.frame_rate_ext_n == config.framerate_num
            &&& info.frame_rate_ext_d == config.framerate_den
            &&& info.crop_x == 0 && info.crop_y == 0
            &&& info.crop_w == config.width && info.crop_h == config.height
            &&& info.fourcc == (match config.frame_format {
                FrameFormat::Nv12 => sys::MFX_FOURCC_NV12,
                FrameFormat::Yuy2 => sys::MFX_FOURCC_YUY2,
                FrameFormat::Bgra => sys::MFX_FOURCC_RGB4,
            })
            &&& info.chroma_format == (match config.frame_format {
                FrameFormat::Nv12 => 1u16,
                FrameFormat::Yuy2 => 2u16,
                FrameFormat::Bgra => 3u16,
            })
            &&& info.bit_depth_luma == 8 && info.bit_depth_chroma == 8
            &&& info.pic_struct == 1
            &&& param.io_pattern == 2
            &&& param.codec_id == (match config.codec {
                CodecConfig::H264(_) => sys::MFX_CODEC_AVC,
                CodecConfig::Hevc(_) => sys::MFX_CODEC_HEVC,
                CodecConfig::Vp9(_) => sys::MFX_CODEC_VP9,
                CodecConfig::Av1(_) => sys::MFX_CODEC_AV1,
            })
            &&& param.codec_profile == codec_profile_of(config.codec)
            &&& param.rate_control_method == config.rate_control_mode.to_mfx()
            &&& param.low_power == (match config.low_power {
                Some(on) => if on {
                    0x10u16
                } else {
                    0x20u16
                },
                None => 0u16,
            })
            &&& param.async_depth == (match config.async_depth {
                Some(value) => value,
                None => 4,
            })
            &&& param.brc_param_multiplier == (match config.brc_param_multiplier {
                Some(value) => value,
                None => 0,
            })
            &&& param.target_usage == (match config.target_usage {
                Some(value) => value,
                None => 4,
            })
            &&& param.gop_pic_size == (match config.gop_pic_size {
                Some(value) => value,
                None => 0,
            })
            &&& param.gop_ref_dist == (match config.gop_ref_dist {
                Some(value) => value,
                None => 1,
            })
            &&& param.gop_opt_flag == (match config.gop_opt_flag {
                Some(value) => value,
                None => 0,
            })
            &&& param.idr_interval == (match config.idr_interval {
                Some(value) => value,
                None => 0,
            })
            &&& param.num_slice == (match config.num_slice {
                Some(value) => value,
                None => 0,
            })
            &&& param.num_ref_frame == (match config.num_ref_frame {
                Some(value) => value,
                None => 0,
            })
            &&& info.aspect_ratio_w == (match config.aspect_ratio_w {
                Some(value) => value,
                None => 0,
            })
            &&& info.aspect_ratio_h == (match config.aspect_ratio_h {
                Some(value) => value,
                None => 0,
            })
            &&& param.look_ahead_depth == config.look_ahead_depth
            &&& param.qvbr_quality == config.qvbr_quality
            &&& param.write_ivf_headers == (match config.codec {
                CodecConfig::Vp9(vp9) => Some(
                    if vp9.write_ivf_headers {
                        0x10u16
                    } else {
                        0x20u16
                    },
                ),
                _ => None,
            })
        }),
{
}

/// What no setting is for is zero in the block.
pub proof fn law_other_members_of_the_block_are_zero(config: EncoderConfig)
    requires
        encoder_plan(config) is Ok,
    ensures
        ({
            let param = encoder_plan(config)->Ok_0;
            let info = param.frame_info;
            &&& param.alloc_id == 0 && param.protected == 0
            &&& param.codec_level == 0 && param.num_thread == 0 && param.encoded_order == 0
            &&& info.shift == 0 && info.temporal_id == 0 && info.priority_id == 0
            &&& info.dependency_id == 0 && info.quality_id == 0
        }),
{
}

/// The rate control settings that a mode uses arrive in the members that the mode reads them from; a
/// bit rate that is not set is 2000 kbps, anything else that is not set or not used is 0.
pub proof fn law_rate_settings_arrive(config: EncoderConfig)
    requires
        encoder_plan(config) is Ok,
    ensures
        ({
            let param = encoder_plan(config)->Ok_0;
            let set = |value: Option<u16>, default: u16|
                match value {
                    Some(value) => value,
                    None => default,
                };
            let first = param.initial_delay_in_kb;
            let second = param.target_kbps;
            let third = param.max_kbps;
            match config.rate_control_mode {
                RateControlMode::Cqp => first == set(config.qpi, 0) && second == set(config.qpp, 0)
                    && third == set(config.qpb, 0),
                RateControlMode::Icq => first == 0 && second == set(config.icq_quality, 0) && third
                    == 0,
                RateControlMode::LaIcq => first == 0 && second == set(config.icq_quality, 0) && third
                    == 0,
                RateControlMode::Avbr => first == set(config.accuracy, 0) && second == set(
                    config.target_kbps,
                    2000,
                ) && third == set(config.convergence, 0),
                RateControlMode::La => first == 0 && second == set(config.target_kbps, 2000) && third
                    == 0,
                RateControlMode::Cbr => first == set(config.initial_delay_in_kb, 0) && second == set(
                    config.target_kbps,
                    2000,
                ) && third == 0,
                _ => first == set(config.initial_delay_in_kb, 0) && second == set(
                    config.target_kbps,
                    2000,
                ) && third == set(config.max_kbps, 0),
            }
        }),
{
}

/// The bitstream buffer has the size that is set. If none is, it is the smallest number of KB that
/// holds four bytes for each pixel of the picture, as far as 16 bits go.
pub proof fn law_buffer_holds_four_bytes_for_each_pixel(config: EncoderConfig)
    requires
        encoder_plan(config) is Ok,
    ensures
        ({
            let kb = encoder_plan(config)->Ok_0.buffer_size_in_kb;
            let bytes = config.width * config.height * 4;
            match config.buffer_size_in_kb {
                Some(size) => kb == size,
                None => {
                    &&& kb * 1024 >= bytes || kb == 65535
                    &&& (kb - 1) * 1024 < bytes
                },
            }
        }),
{
    let bytes = config.width * config.height * 4;
    assert(config.width * config.height >= 1) by (nonlinear_arith)
        requires
            config.width >= 1,
            config.height >= 1,
    ;
}

/// A block without extension buffers asks for none and keeps every other member; a zeroed block holds
/// nothing.
pub proof fn law_detaching_keeps_every_other_member(param: VideoParam)
    ensures
        ({
            let bare = param.without_extensions();
            &&& bare.look_ahead_depth is None && bare.qvbr_quality is None
            &&& bare.write_ivf_headers is None
            &&& param == (VideoParam {
                look_ahead_depth: param.look_ahead_depth,
                qvbr_quality: param.qvbr_quality,
                write_ivf_headers: param.write_ivf_headers,
                ..bare
            })
        }),
{
}

/// Every member of a zeroed block is zero, and it has no extension buffers.
pub proof fn law_zeroed_block_is_zero()
    ensures
        ({
            let p = VideoParam::zeroed();
            let i = p.frame_info;
            &&& i.bit_depth_luma == 0 && i.bit_depth_chroma == 0 && i.shift == 0
            &&& i.temporal_id == 0 && i.priority_id == 0 && i.dependency_id == 0
            &&& i.quality_id == 0 && i.fourcc == 0
            &&& i.width == 0 && i.height == 0
            &&& i.crop_x == 0 && i.crop_y == 0 && i.crop_w == 0 && i.crop_h == 0
            &&& i.frame_rate_ext_n == 0 && i.frame_rate_ext_d == 0
            &&& i.aspect_ratio_w == 0 && i.aspect_ratio_h == 0
            &&& i.pic_struct == 0 && i.chroma_format == 0
            &&& p.alloc_id == 0 && p.async_depth == 0 && p.protected == 0 && p.io_pattern == 0
            &&& p.codec_id == 0 && p.codec_profile == 0 && p.codec_level == 0 && p.num_thread == 0
            &&& p.low_power == 0 && p.brc_param_multiplier == 0
            &&& p.target_usage == 0 && p.gop_pic_size == 0 && p.gop_ref_dist == 0
            &&& p.gop_opt_flag == 0 && p.idr_interval == 0 && p.rate_control_method == 0
            &&& p.initial_delay_in_kb == 0 && p.buffer_size_in_kb == 0
            &&& p.target_kbps == 0 && p.max_kbps == 0
            &&& p.num_slice == 0 && p.num_ref_frame == 0 && p.encoded_order == 0
            &&& p.look_ahead_depth is None && p.qvbr_quality is None
            &&& p.write_ivf_headers is None
        }),
{
}

} // verus!
