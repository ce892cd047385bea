//! What implementations say of codecs.
use shiguredo_vpl::codec_info::build_codec_info_list;
use shiguredo_vpl::codec_info::match_profiles;
use shiguredo_vpl::codec_info::probe_decoding;
use shiguredo_vpl::codec_info::probe_encoding;
use shiguredo_vpl::loader::EncoderEntry;
use shiguredo_vpl::loader::ImplDescription;
use shiguredo_vpl::sys;
use shiguredo_vpl::Av1EncodingProfile;
use shiguredo_vpl::DecodingInfo;
use shiguredo_vpl::EncodingInfo;
use shiguredo_vpl::EncodingProfiles;
use shiguredo_vpl::H264EncodingProfile;
use shiguredo_vpl::HevcEncodingProfile;
use shiguredo_vpl::VideoCodecType;
use shiguredo_vpl::Vp9EncodingProfile;

fn entry(codec_id: u32, profiles: Option<Vec<u32>>) -> EncoderEntry {
    EncoderEntry {
        codec_id,
        bidirectional_prediction: 0,
        profiles,
    }
}

fn description() -> ImplDescription {
    let mut avc = entry(sys::MFX_CODEC_AVC, Some(vec![100, 5, 66, 12388, 578, 100]));
    avc.bidirectional_prediction = 1;
    ImplDescription {
        impl_name: Vec::new(),
        media_adapter_type: 0,
        decoders: Some(vec![sys::MFX_CODEC_AV1, sys::MFX_CODEC_AVC]),
        encoders: Some(vec![
            avc,
            entry(sys::MFX_CODEC_HEVC, Some(vec![9, 1, 2, 3, 4])),
            entry(sys::MFX_CODEC_HEVC, None),
            entry(sys::MFX_CODEC_VP9, None),
        ]),
    }
}

fn unsupported() -> EncodingInfo {
    EncodingInfo {
        supported: false,
        hardware_accelerated: false,
        supports_frame_reordering: false,
        supports_multi_pass: false,
        profiles: EncodingProfiles::Unsupported,
    }
}

#[test]
fn codecs_are_reported_in_order() {
    let infos = build_codec_info_list(&description());
    let codecs: Vec<VideoCodecType> = infos.iter().map(|info| info.codec).collect();
    assert_eq!(
        codecs,
        vec![
            VideoCodecType::H264,
            VideoCodecType::Hevc,
            VideoCodecType::Vp9,
            VideoCodecType::Av1,
        ]
    );
    let decoded: Vec<bool> = infos.iter().map(|info| info.decoding.supported).collect();
    assert_eq!(decoded, vec![true, false, false, true]);
    for info in &infos {
        assert_eq!(info.decoding.supported, info.decoding.hardware_accelerated);
        assert_eq!(info.encoding.supported, info.encoding.hardware_accelerated);
        assert!(!info.encoding.supports_multi_pass);
    }
    assert!(infos[0].encoding.supports_frame_reordering);
    assert_eq!(
        infos[0].encoding.profiles,
        EncodingProfiles::H264(vec![
            H264EncodingProfile::High,
            H264EncodingProfile::Baseline,
            H264EncodingProfile::ConstrainedHigh,
            H264EncodingProfile::ConstrainedBaseline,
            H264EncodingProfile::High,
        ])
    );
    assert!(!infos[1].encoding.supports_frame_reordering);
    assert_eq!(
        infos[1].encoding.profiles,
        EncodingProfiles::Hevc(vec![
            HevcEncodingProfile::Scc,
            HevcEncodingProfile::Main,
            HevcEncodingProfile::Main10,
            HevcEncodingProfile::MainSp,
            HevcEncodingProfile::Rext,
        ])
    );
    assert_eq!(
        infos[2].encoding.profiles,
        EncodingProfiles::Vp9(Vec::new())
    );
    assert_eq!(infos[3].encoding, unsupported());
}

#[test]
fn null_tables_support_nothing() {
    for codec in VideoCodecType::all() {
        assert_eq!(
            probe_decoding(&None, codec),
            DecodingInfo {
                supported: false,
                hardware_accelerated: false
            }
        );
        assert_eq!(probe_encoding(&None, codec), unsupported());
        assert_eq!(probe_encoding(&Some(Vec::new()), codec), unsupported());
    }
}

#[test]
fn profiles_of_the_other_codecs() {
    let vp9 = Some(vec![entry(sys::MFX_CODEC_VP9, Some(vec![1, 2, 3, 4, 5]))]);
    assert_eq!(
        probe_encoding(&vp9, VideoCodecType::Vp9).profiles,
        EncodingProfiles::Vp9(vec![
            Vp9EncodingProfile::Profile0,
            Vp9EncodingProfile::Profile1,
            Vp9EncodingProfile::Profile2,
            Vp9EncodingProfile::Profile3,
        ])
    );
    let av1 = Some(vec![entry(sys::MFX_CODEC_AV1, Some(vec![0, 1, 2]))]);
    assert_eq!(
        probe_encoding(&av1, VideoCodecType::Av1).profiles,
        EncodingProfiles::Av1(vec![Av1EncodingProfile::Main])
    );
    let avc = Some(vec![entry(sys::MFX_CODEC_AVC, Some(vec![77, 110, 122]))]);
    assert_eq!(
        probe_encoding(&avc, VideoCodecType::H264).profiles,
        EncodingProfiles::H264(vec![
            H264EncodingProfile::Main,
            H264EncodingProfile::High10,
            H264EncodingProfile::High422,
        ])
    );
}

#[test]
fn profiles_are_looked_up_in_the_order_of_the_identifiers() {
    let table = [(1, 'a'), (2, 'b'), (1, 'c')];
    assert_eq!(match_profiles(&[2, 1, 3, 2], &table), vec!['b', 'a', 'c', 'b']);
    assert_eq!(match_profiles(&[], &table), Vec::<char>::new());
    assert_eq!(match_profiles::<char>(&[1], &[]), Vec::<char>::new());
}

#[test]
fn codec_identifiers() {
    assert_eq!(VideoCodecType::H264.to_codec_id(), sys::MFX_CODEC_AVC);
    assert_eq!(VideoCodecType::Hevc.to_codec_id(), sys::MFX_CODEC_HEVC);
    assert_eq!(VideoCodecType::Vp9.to_codec_id(), sys::MFX_CODEC_VP9);
    assert_eq!(VideoCodecType::Av1.to_codec_id(), sys::MFX_CODEC_AV1);
}
