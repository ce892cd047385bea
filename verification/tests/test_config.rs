//! Settings, formats and the parameter block that they become.
use shiguredo_vpl::config::codec_id;
use shiguredo_vpl::config::codec_profile;
use shiguredo_vpl::config::coding_option_name;
use shiguredo_vpl::config::picture_type_from_frame_type;
use shiguredo_vpl::frame_type;
use shiguredo_vpl::gop_opt_flag;
use shiguredo_vpl::param::align_up;
use shiguredo_vpl::param::plan_encoder;
use shiguredo_vpl::param::VideoParam;
use shiguredo_vpl::sys;
use shiguredo_vpl::text::c_array_to_string;
use shiguredo_vpl::text::push_numeral;
use shiguredo_vpl::text::push_signed_decimal;
use shiguredo_vpl::AdapterSelector;
use shiguredo_vpl::Av1EncoderConfig;
use shiguredo_vpl::Av1Profile;
use shiguredo_vpl::CodecConfig;
use shiguredo_vpl::EncoderConfig;
use shiguredo_vpl::FrameFormat;
use shiguredo_vpl::H264EncoderConfig;
use shiguredo_vpl::H264Profile;
use shiguredo_vpl::HevcEncoderConfig;
use shiguredo_vpl::HevcProfile;
use shiguredo_vpl::PictureType;
use shiguredo_vpl::RateControlMode;
use shiguredo_vpl::ReconfigureParams;
use shiguredo_vpl::Vp9EncoderConfig;
use shiguredo_vpl::Vp9Profile;

fn config(mode: RateControlMode) -> EncoderConfig {
    EncoderConfig::new(
        AdapterSelector::DrmRenderNode(128),
        CodecConfig::H264(H264EncoderConfig { profile: None }),
        1920,
        1080,
        FrameFormat::Nv12,
        30,
        1,
        mode,
    )
}

fn complaint(config: &EncoderConfig) -> String {
    let error = plan_encoder(config).expect_err("the settings are refused");
    assert_eq!(error.function(), "Encoder::new");
    error.status_message().unwrap_or("").to_string()
}

#[test]
fn settings_that_are_refused() {
    let mut c = config(RateControlMode::Cqp);
    c.width = 0;
    assert_eq!(complaint(&c), "width and height must be non-zero");
    let mut c = config(RateControlMode::Cqp);
    c.height = 0;
    assert_eq!(complaint(&c), "width and height must be non-zero");
    let mut c = config(RateControlMode::Cqp);
    c.framerate_den = 0;
    assert_eq!(complaint(&c), "framerate_den must be non-zero");
    let mut c = config(RateControlMode::Cqp);
    c.width = 65530;
    assert_eq!(
        complaint(&c),
        "aligned width (65536) and height (1088) must not exceed 65535"
    );
    c.width = 65520;
    assert!(plan_encoder(&c).is_ok());
    let mut c = config(RateControlMode::Cqp);
    c.height = u32::MAX;
    assert_eq!(
        complaint(&c),
        "aligned width (1920) and height (4294967280) must not exceed 65535"
    );
    let mut c = config(RateControlMode::Cqp);
    c.frame_format = FrameFormat::Yuy2;
    c.width = 32768;
    assert_eq!(
        complaint(&c),
        "pitch (65536 bytes) for Yuy2 with width 32768 exceeds u16::MAX"
    );
    c.frame_format = FrameFormat::Bgra;
    c.width = 16384;
    assert_eq!(
        complaint(&c),
        "pitch (65536 bytes) for Bgra with width 16384 exceeds u16::MAX"
    );
    c.width = 16368;
    assert!(plan_encoder(&c).is_ok());
}

#[test]
fn defaults_of_the_parameter_block() {
    let param = plan_encoder(&config(RateControlMode::Cqp)).expect("accepted");
    let mut expected = VideoParam::zeroed();
    expected.io_pattern = 2;
    expected.async_depth = 4;
    expected.frame_info.fourcc = sys::MFX_FOURCC_NV12;
    expected.frame_info.chroma_format = 1;
    expected.frame_info.bit_depth_luma = 8;
    expected.frame_info.bit_depth_chroma = 8;
    expected.frame_info.pic_struct = 1;
    expected.frame_info.frame_rate_ext_n = 30;
    expected.frame_info.frame_rate_ext_d = 1;
    expected.frame_info.width = 1920;
    expected.frame_info.height = 1088;
    expected.frame_info.crop_w = 1920;
    expected.frame_info.crop_h = 1080;
    expected.codec_id = sys::MFX_CODEC_AVC;
    expected.target_usage = 4;
    expected.gop_ref_dist = 1;
    expected.rate_control_method = 3;
    // Four bytes for each of 1920 by 1080 pixels.
    expected.buffer_size_in_kb = 8100;
    assert_eq!(param, expected);
}

#[test]
fn everything_that_is_set_arrives() {
    let mut c = config(RateControlMode::Vbr);
    c.codec = CodecConfig::Vp9(Vp9EncoderConfig {
        profile: Some(Vp9Profile::Profile2),
        write_ivf_headers: false,
    });
    c.target_kbps = Some(5000);
    c.max_kbps = Some(6000);
    c.initial_delay_in_kb = Some(70);
    c.buffer_size_in_kb = Some(99);
    c.gop_pic_size = Some(60);
    c.gop_ref_dist = Some(3);
    c.gop_opt_flag = Some(gop_opt_flag::CLOSED | gop_opt_flag::STRICT);
    c.idr_interval = Some(2);
    c.async_depth = Some(1);
    c.low_power = Some(true);
    c.brc_param_multiplier = Some(7);
    c.target_usage = Some(1);
    c.num_slice = Some(4);
    c.num_ref_frame = Some(5);
    c.aspect_ratio_w = Some(16);
    c.aspect_ratio_h = Some(9);
    c.look_ahead_depth = Some(40);
    c.qvbr_quality = Some(23);
    let param = plan_encoder(&c).expect("accepted");
    assert_eq!(param.codec_id, sys::MFX_CODEC_VP9);
    assert_eq!(param.codec_profile, 3);
    assert_eq!(param.write_ivf_headers, Some(0x20));
    assert_eq!(param.target_kbps, 5000);
    assert_eq!(param.max_kbps, 6000);
    assert_eq!(param.initial_delay_in_kb, 70);
    assert_eq!(param.buffer_size_in_kb, 99);
    assert_eq!(param.gop_pic_size, 60);
    assert_eq!(param.gop_ref_dist, 3);
    assert_eq!(param.gop_opt_flag, 3);
    assert_eq!(param.idr_interval, 2);
    assert_eq!(param.async_depth, 1);
    assert_eq!(param.low_power, 0x10);
    assert_eq!(param.brc_param_multiplier, 7);
    assert_eq!(param.target_usage, 1);
    assert_eq!(param.num_slice, 4);
    assert_eq!(param.num_ref_frame, 5);
    assert_eq!(param.frame_info.aspect_ratio_w, 16);
    assert_eq!(param.frame_info.aspect_ratio_h, 9);
    assert_eq!(param.look_ahead_depth, Some(40));
    assert_eq!(param.qvbr_quality, Some(23));
    c.low_power = Some(false);
    assert_eq!(plan_encoder(&c).expect("accepted").low_power, 0x20);
    c.low_power = None;
    assert_eq!(plan_encoder(&c).expect("accepted").low_power, 0);
}

#[test]
fn rate_control_modes_use_their_own_settings() {
    let members = |mode: RateControlMode, set: bool| {
        let mut c = config(mode);
        if set {
            c.qpi = Some(1);
            c.qpp = Some(2);
            c.qpb = Some(3);
            c.icq_quality = Some(4);
            c.accuracy = Some(5);
            c.convergence = Some(6);
            c.target_kbps = Some(7);
            c.max_kbps = Some(8);
            c.initial_delay_in_kb = Some(9);
        }
        let param = plan_encoder(&c).expect("accepted");
        (
            param.rate_control_method,
            param.initial_delay_in_kb,
            param.target_kbps,
            param.max_kbps,
        )
    };
    assert_eq!(members(RateControlMode::Cqp, true), (3, 1, 2, 3));
    assert_eq!(members(RateControlMode::Cqp, false), (3, 0, 0, 0));
    assert_eq!(members(RateControlMode::Icq, true), (9, 0, 4, 0));
    assert_eq!(members(RateControlMode::LaIcq, true), (11, 0, 4, 0));
    assert_eq!(members(RateControlMode::Avbr, true), (4, 5, 7, 6));
    assert_eq!(members(RateControlMode::Avbr, false), (4, 0, 2000, 0));
    assert_eq!(members(RateControlMode::La, true), (8, 0, 7, 0));
    assert_eq!(members(RateControlMode::La, false), (8, 0, 2000, 0));
    assert_eq!(members(RateControlMode::Cbr, true), (1, 9, 7, 0));
    assert_eq!(members(RateControlMode::Vbr, true), (2, 9, 7, 8));
    assert_eq!(members(RateControlMode::Vbr, false), (2, 0, 2000, 0));
    assert_eq!(members(RateControlMode::Vcm, true), (10, 9, 7, 8));
    assert_eq!(members(RateControlMode::Qvbr, true), (14, 9, 7, 8));
    assert_eq!(members(RateControlMode::LaHrd, true), (13, 9, 7, 8));
}

#[test]
fn automatic_buffer_size_goes_by_the_picture() {
    let mut c = config(RateControlMode::Cqp);
    let kb = |c: &EncoderConfig| plan_encoder(c).expect("accepted").buffer_size_in_kb;
    assert_eq!(kb(&c), 8100);
    // Neither side is a multiple of 16.
    c.width = 17;
    c.height = 17;
    assert_eq!(kb(&c), 2);
    c.width = 1366;
    c.height = 766;
    assert_eq!(kb(&c), 4088);
    c.buffer_size_in_kb = Some(1);
    assert_eq!(kb(&c), 1);
}

#[test]
fn automatic_buffer_size_is_capped() {
    let mut c = config(RateControlMode::Cqp);
    c.width = 16;
    c.height = 16;
    assert_eq!(plan_encoder(&c).expect("accepted").buffer_size_in_kb, 1);
    c.width = 17;
    assert_eq!(plan_encoder(&c).expect("accepted").buffer_size_in_kb, 2);
    c.width = 8192;
    c.height = 8192;
    assert_eq!(plan_encoder(&c).expect("accepted").buffer_size_in_kb, 65535);
    c.width = 65520;
    c.height = 65520;
    assert_eq!(plan_encoder(&c).expect("accepted").buffer_size_in_kb, 65535);
}

#[test]
fn alignment() {
    assert_eq!(align_up(0, 16), 0);
    assert_eq!(align_up(1, 16), 16);
    assert_eq!(align_up(16, 16), 16);
    assert_eq!(align_up(1080, 16), 1088);
    assert_eq!(align_up(u32::MAX, 16), 0xffff_fff0);
    assert_eq!(align_up(u32::MAX - 5, 1024), 0xffff_fc00);
}

#[test]
fn codec_identifiers_and_profiles() {
    let h264 = |profile| CodecConfig::H264(H264EncoderConfig { profile });
    let hevc = |profile| CodecConfig::Hevc(HevcEncoderConfig { profile });
    let vp9 = |profile| {
        CodecConfig::Vp9(Vp9EncoderConfig {
            profile,
            write_ivf_headers: true,
        })
    };
    let av1 = |profile| CodecConfig::Av1(Av1EncoderConfig { profile });
    assert_eq!(codec_id(&h264(None)), u32::from_le_bytes(*b"AVC "));
    assert_eq!(codec_id(&hevc(None)), u32::from_le_bytes(*b"HEVC"));
    assert_eq!(codec_id(&vp9(None)), u32::from_le_bytes(*b"VP9 "));
    assert_eq!(codec_id(&av1(None)), u32::from_le_bytes(*b"AV1 "));
    let expected = [
        (h264(None), 0),
        (h264(Some(H264Profile::Baseline)), 66),
        (h264(Some(H264Profile::ConstrainedBaseline)), 578),
        (h264(Some(H264Profile::Main)), 77),
        (h264(Some(H264Profile::High)), 100),
        (h264(Some(H264Profile::ConstrainedHigh)), 12388),
        (h264(Some(H264Profile::High10)), 110),
        (h264(Some(H264Profile::High422)), 122),
        (hevc(None), 0),
        (hevc(Some(HevcProfile::Main)), 1),
        (hevc(Some(HevcProfile::Main10)), 2),
        (hevc(Some(HevcProfile::MainSp)), 3),
        (hevc(Some(HevcProfile::Rext)), 4),
        (hevc(Some(HevcProfile::Scc)), 9),
        (vp9(None), 0),
        (vp9(Some(Vp9Profile::Profile0)), 1),
        (vp9(Some(Vp9Profile::Profile1)), 2),
        (vp9(Some(Vp9Profile::Profile2)), 3),
        (vp9(Some(Vp9Profile::Profile3)), 4),
        (av1(None), 0),
        (av1(Some(Av1Profile::Main)), 1),
    ];
    for (codec, profile) in expected {
        assert_eq!(codec_profile(&codec), profile, "{codec:?}");
    }
}

#[test]
fn picture_types() {
    let of = picture_type_from_frame_type;
    assert_eq!(
        of(frame_type::IDR | frame_type::I | frame_type::REF),
        PictureType::Idr
    );
    assert_eq!(of(frame_type::I), PictureType::I);
    assert_eq!(of(frame_type::P | frame_type::REF), PictureType::P);
    assert_eq!(of(frame_type::B), PictureType::B);
    assert_eq!(of(frame_type::S), PictureType::Unknown);
    assert_eq!(of(frame_type::UNKNOWN), PictureType::Unknown);
}

#[test]
fn coding_option_names() {
    assert_eq!(coding_option_name(0), "MFX_CODINGOPTION_UNKNOWN");
    assert_eq!(coding_option_name(0x10), "MFX_CODINGOPTION_ON");
    assert_eq!(coding_option_name(0x20), "MFX_CODINGOPTION_OFF");
    assert_eq!(coding_option_name(0x30), "MFX_CODINGOPTION_ADAPTIVE");
    assert_eq!(coding_option_name(0xabc), "unknown (0xabc)");
}

#[test]
fn reconfiguration_changes_nothing_by_default() {
    let params = ReconfigureParams::default();
    assert_eq!(params.target_kbps, None);
    assert_eq!(params.max_kbps, None);
    assert_eq!(params.framerate_num, None);
    assert_eq!(params.framerate_den, None);
}

#[test]
fn text_of_numbers_and_arrays() {
    let mut text = String::new();
    push_numeral(&mut text, u64::MAX, 16);
    text.push(' ');
    push_signed_decimal(&mut text, i32::MIN);
    text.push(' ');
    push_signed_decimal(&mut text, 0);
    assert_eq!(text, "ffffffffffffffff -2147483648 0");
    assert_eq!(c_array_to_string(b"mfx-gen\0\xff"), "mfx-gen");
    assert_eq!(c_array_to_string("GPU é".as_bytes()), "GPU é");
    assert_eq!(c_array_to_string(b"\xff\0"), "");
    assert_eq!(c_array_to_string(b""), "");
    assert_eq!(c_array_to_string(b"\0abc"), "");
}

// --- Frame formats ---

#[test]
fn frame_sizes() {
    assert_eq!(FrameFormat::Nv12.frame_size(320, 240), Some(115_200));
    assert_eq!(FrameFormat::Yuy2.frame_size(320, 240), Some(153_600));
    assert_eq!(FrameFormat::Bgra.frame_size(320, 240), Some(307_200));
    assert_eq!(FrameFormat::Nv12.frame_size(1, 1), Some(1));
    assert_eq!(FrameFormat::Nv12.frame_size(0, usize::MAX), Some(0));
    assert_eq!(FrameFormat::Nv12.frame_size(usize::MAX, 2), None);
    assert_eq!(FrameFormat::Nv12.frame_size(usize::MAX / 2, 1), None);
    assert_eq!(
        FrameFormat::Yuy2.frame_size(usize::MAX / 2, 1),
        Some(usize::MAX - 1)
    );
    assert_eq!(FrameFormat::Bgra.frame_size(usize::MAX / 2, 1), None);
}

#[test]
fn nv12_frames_are_copied_row_by_row() {
    let src: Vec<u8> = (1..=12).collect();
    let mut y = vec![0u8; 12];
    let mut uv = vec![0u8; 6];
    FrameFormat::Nv12.copy_to_surface_planes(&src, &mut y, &mut uv, 6, 4, 2);
    assert_eq!(y, vec![1, 2, 3, 4, 0, 0, 5, 6, 7, 8, 0, 0]);
    assert_eq!(uv, vec![9, 10, 11, 12, 0, 0]);
}

#[test]
fn packed_frames_are_copied_row_by_row() {
    let src: Vec<u8> = (1..=8).collect();
    let mut primary = vec![0u8; 9];
    let mut chroma = vec![7u8; 3];
    FrameFormat::Yuy2.copy_to_surface_planes(&src, &mut primary, &mut chroma, 5, 2, 2);
    assert_eq!(primary, vec![1, 2, 3, 4, 0, 5, 6, 7, 8]);
    assert_eq!(chroma, vec![7, 7, 7]);
    let mut primary = vec![0u8; 10];
    FrameFormat::Bgra.copy_to_surface_planes(&src, &mut primary, &mut chroma, 5, 1, 2);
    assert_eq!(primary, vec![1, 2, 3, 4, 0, 5, 6, 7, 8, 0]);
}

#[test]
fn format_members() {
    assert_eq!(FrameFormat::Nv12.fourcc(), u32::from_le_bytes(*b"NV12"));
    assert_eq!(FrameFormat::Yuy2.fourcc(), u32::from_le_bytes(*b"YUY2"));
    assert_eq!(FrameFormat::Bgra.fourcc(), u32::from_le_bytes(*b"RGB4"));
    assert_eq!(FrameFormat::Nv12.chroma_format(), 1);
    assert_eq!(FrameFormat::Yuy2.chroma_format(), 2);
    assert_eq!(FrameFormat::Bgra.chroma_format(), 3);
    assert_eq!(FrameFormat::Bgra.bit_depth(), 8);
    assert_eq!(FrameFormat::Yuy2.name(), "Yuy2");
}
