//! What a hardware implementation can encode and decode.
use vstd::prelude::*;

use crate::adapter::AdapterSelector;
use crate::error::Error;
use crate::error::ErrorView;
use crate::loader::EncoderEntry;
use crate::loader::Filter;
use crate::loader::Handle;
use crate::loader::Held;
use crate::loader::ImplDescription;
use crate::loader::LoaderCall;
use crate::loader::LoaderReply;
use crate::sys;

verus! {

/// A video codec.
#[derive(Debug, Clone, Copy, PartialEq, Eq, Structural)]
pub enum VideoCodecType {
    /// H.264 / AVC
    H264,
    /// H.265 / HEVC
    Hevc,
    Vp9,
    Av1,
}

impl VideoCodecType {
    /// The codec identifier of VPL.
    pub open spec fn codec_id(self) -> u32 {
        match self {
            VideoCodecType::H264 => sys::MFX_CODEC_AVC,
            VideoCodecType::Hevc => sys::MFX_CODEC_HEVC,
            VideoCodecType::Vp9 => sys::MFX_CODEC_VP9,
            VideoCodecType::Av1 => sys::MFX_CODEC_AV1,
        }
    }

    /// The codec identifier of VPL.
    pub fn to_codec_id(self) -> (r: u32)
        ensures
            r == self.codec_id(),
    {
        match self {
            VideoCodecType::H264 => sys::MFX_CODEC_AVC,
            VideoCodecType::Hevc => sys::MFX_CODEC_HEVC,
            VideoCodecType::Vp9 => sys::MFX_CODEC_VP9,
            VideoCodecType::Av1 => sys::MFX_CODEC_AV1,
        }
    }

    /// All codecs, in the order in which they are reported.
    pub open spec fn every() -> Seq<VideoCodecType> {
        seq![
            VideoCodecType::H264,
            VideoCodecType::Hevc,
            VideoCodecType::Vp9,
            VideoCodecType::Av1,
        ]
    }

    /// All codecs, in the order in which they are reported.
    pub fn all() -> (r: Vec<VideoCodecType>)
        ensures
            r@ == Self::every(),
    {
        vec![
            VideoCodecType::H264,
            VideoCodecType::Hevc,
            VideoCodecType::Vp9,
            VideoCodecType::Av1,
        ]
    }
}

/// What can be done with one codec.
#[derive(Debug, Clone, PartialEq)]
pub struct CodecInfo {
    pub codec: VideoCodecType,
    pub decoding: DecodingInfo,
    pub encoding: EncodingInfo,
}

/// What can be decoded.
#[derive(Debug, Clone, Copy, PartialEq, Eq, Structural)]
pub struct DecodingInfo {
    pub supported: bool,
    pub hardware_accelerated: bool,
}

/// What can be encoded.
#[derive(Debug, Clone, PartialEq)]
pub struct EncodingInfo {
    pub supported: bool,
    pub hardware_accelerated: bool,
    /// Whether frames can be reordered, as B frames need it.
    pub supports_frame_reordering: bool,
    pub supports_multi_pass: bool,
    pub profiles: EncodingProfiles,
}

/// The profiles that can be encoded.
#[derive(Debug, Clone, PartialEq)]
pub enum EncodingProfiles {
    H264(Vec<H264EncodingProfile>),
    Hevc(Vec<HevcEncodingProfile>),
    Vp9(Vec<Vp9EncodingProfile>),
    Av1(Vec<Av1EncodingProfile>),
    /// The codec cannot be encoded.
    Unsupported,
}

/// A profile of the H.264 encoder.
#[derive(Debug, Clone, Copy, PartialEq, Eq, Structural)]
pub enum H264EncodingProfile {
    Baseline,
    ConstrainedBaseline,
    Main,
    High,
    ConstrainedHigh,
    /// High 10 (10 bit)
    High10,
    /// High 4:2:2
    High422,
}

/// A profile of the HEVC encoder.
#[derive(Debug, Clone, Copy, PartialEq, Eq, Structural)]
pub enum HevcEncodingProfile {
    Main,
    Main10,
    /// Main Still Picture
    MainSp,
    /// Range Extension
    Rext,
    /// Screen Content Coding
    Scc,
}

/// A profile of the VP9 encoder.
#[derive(Debug, Clone, Copy, PartialEq, Eq, Structural)]
pub enum Vp9EncodingProfile {
    /// 8 bit YUV 4:2:0
    Profile0,
    /// 8 bit YUV 4:2:2 or 4:4:4
    Profile1,
    /// 10 or 12 bit YUV 4:2:0
    Profile2,
    /// 10 or 12 bit YUV 4:2:2 or 4:4:4
    Profile3,
}

/// A profile of the AV1 encoder.
#[derive(Debug, Clone, Copy, PartialEq, Eq, Structural)]
pub enum Av1EncodingProfile {
    Main,
}

/// The content of an [`EncodingProfiles`].
#[verifier::ext_equal]
pub enum EncodingProfilesView {
    H264(Seq<H264EncodingProfile>),
    Hevc(Seq<HevcEncodingProfile>),
    Vp9(Seq<Vp9EncodingProfile>),
    Av1(Seq<Av1EncodingProfile>),
    Unsupported,
}

impl View for EncodingProfiles {
    type V = EncodingProfilesView;

    open spec fn view(&self) -> EncodingProfilesView {
        match self {
            EncodingProfiles::H264(profiles) => EncodingProfilesView::H264(profiles@),
            EncodingProfiles::Hevc(profiles) => EncodingProfilesView::Hevc(profiles@),
            EncodingProfiles::Vp9(profiles) => EncodingProfilesView::Vp9(profiles@),
            EncodingProfiles::Av1(profiles) => EncodingProfilesView::Av1(profiles@),
            EncodingProfiles::Unsupported => EncodingProfilesView::Unsupported,
        }
    }
}

/// The content of an [`EncodingInfo`].
#[verifier::ext_equal]
pub struct EncodingInfoView {
    pub supported: bool,
    pub hardware_accelerated: bool,
    pub supports_frame_reordering: bool,
    pub supports_multi_pass: bool,
    pub profiles: EncodingProfilesView,
}

impl View for EncodingInfo {
    type V = EncodingInfoView;

    open spec fn view(&self) -> EncodingInfoView {
        EncodingInfoView {
            supported: self.supported,
            hardware_accelerated: self.hardware_accelerated,
            supports_frame_reordering: self.supports_frame_reordering,
            supports_multi_pass: self.supports_multi_pass,
            profiles: self.profiles@,
        }
    }
}

/// The content of a [`CodecInfo`].
#[verifier::ext_equal]
pub struct CodecInfoView {
    pub codec: VideoCodecType,
    pub decoding: DecodingInfo,
    pub encoding: EncodingInfoView,
}

impl View for CodecInfo {
    type V = CodecInfoView;

    open spec fn view(&self) -> CodecInfoView {
        CodecInfoView {
            codec: self.codec,
            decoding: self.decoding,
            encoding: self.encoding@,
        }
    }
}

/// The profiles that a table has under `id`, in the table's order.
pub open spec fn entries_of<T>(table: Seq<(u32, T)>, id: u32) -> Seq<T>
    decreases table.len(),
{
    if table.len() == 0 {
        Seq::empty()
    } else if table.last().0 == id {
        entries_of(table.drop_last(), id).push(table.last().1)
    } else {
        entries_of(table.drop_last(), id)
    }
}

/// The profiles that a table has under the identifiers, in the order of the identifiers.
pub open spec fn matched<T>(ids: Seq<u32>, table: Seq<(u32, T)>) -> Seq<T>
    decreases ids.len(),
{
    if ids.len() == 0 {
        Seq::empty()
    } else {
        matched(ids.drop_last(), table) + entries_of(table, ids.last())
    }
}

/// Looks the identifiers up in a table. Identifiers that it does not have are passed over.
pub fn match_profiles<T: Copy>(profile_ids: &[u32], table: &[(u32, T)]) -> (r: Vec<T>)
    ensures
        r@ == matched(profile_ids@, table@),
{
    let mut profiles: Vec<T> = Vec::new();
    let mut i: usize = 0;
    while i < profile_ids.len()
        invariant
            i <= profile_ids@.len(),
            profiles@ == matched(profile_ids@.take(i as int), table@),
        decreases profile_ids@.len() - i,
    {
        let id: u32 = profile_ids[i];
        let ghost before = profiles@;
        let mut k: usize = 0;
        assert(entries_of(table@.take(0), id) =~= Seq::<T>::empty());
        while k < table.len()
            invariant
                k <= table@.len(),
                profiles@ == before + entries_of(table@.take(k as int), id),
            decreases table@.len() - k,
        {
            assert(table@.take(k + 1).drop_last() =~= table@.take(k as int));
            if table[k].0 == id {
                profiles.push(table[k].1);
            }
            k = k + 1;
            assert(profiles@ =~= before + entries_of(table@.take(k as int), id));
        }
        assert(table@.take(k as int) =~= table@);
        assert(profile_ids@.take(i + 1).drop_last() =~= profile_ids@.take(i as int));
        i = i + 1;
    }
    assert(profile_ids@.take(i as int) =~= profile_ids@);
    profiles
}

/// The identifiers of the H.264 profiles.
pub open spec fn h264_table() -> Seq<(u32, H264EncodingProfile)> {
    seq![
        (sys::MFX_PROFILE_AVC_BASELINE as u32, H264EncodingProfile::Baseline),
        (
            sys::MFX_PROFILE_AVC_CONSTRAINED_BASELINE as u32,
            H264EncodingProfile::ConstrainedBaseline,
        ),
        (sys::MFX_PROFILE_AVC_MAIN as u32, H264EncodingProfile::Main),
        (sys::MFX_PROFILE_AVC_HIGH as u32, H264EncodingProfile::High),
        (sys::MFX_PROFILE_AVC_CONSTRAINED_HIGH as u32, H264EncodingProfile::ConstrainedHigh),
        (sys::MFX_PROFILE_AVC_HIGH10 as u32, H264EncodingProfile::High10),
        (sys::MFX_PROFILE_AVC_HIGH_422 as u32, H264EncodingProfile::High422),
    ]
}

/// The identifiers of the HEVC profiles.
pub open spec fn hevc_table() -> Seq<(u32, HevcEncodingProfile)> {
    seq![
        (sys::MFX_PROFILE_HEVC_MAIN as u32, HevcEncodingProfile::Main),
        (sys::MFX_PROFILE_HEVC_MAIN10 as u32, HevcEncodingProfile::Main10),
        (sys::MFX_PROFILE_HEVC_MAINSP as u32, HevcEncodingProfile::MainSp),
        (sys::MFX_PROFILE_HEVC_REXT as u32, HevcEncodingProfile::Rext),
        (sys::MFX_PROFILE_HEVC_SCC as u32, HevcEncodingProfile::Scc),
    ]
}

/// The identifiers of the VP9 profiles.
pub open spec fn vp9_table() -> Seq<(u32, Vp9EncodingProfile)> {
    seq![
        (sys::MFX_PROFILE_VP9_0 as u32, Vp9EncodingProfile::Profile0),
        (sys::MFX_PROFILE_VP9_1 as u32, Vp9EncodingProfile::Profile1),
        (sys::MFX_PROFILE_VP9_2 as u32, Vp9EncodingProfile::Profile2),
        (sys::MFX_PROFILE_VP9_3 as u32, Vp9EncodingProfile::Profile3),
    ]
}

/// The identifiers of the AV1 profiles.
pub open spec fn av1_table() -> Seq<(u32, Av1EncodingProfile)> {
    seq![(sys::MFX_PROFILE_AV1_MAIN as u32, Av1EncodingProfile::Main)]
}

/// The profile identifiers of an encoder; a null table counts as empty.
pub open spec fn profile_ids_of(entry: EncoderEntry) -> Seq<u32> {
    match entry.profiles {
        Some(ids) => ids@,
        None => Seq::empty(),
    }
}

/// The profiles that an encoder of this codec offers.
pub open spec fn encoding_profiles_of(
    codec: VideoCodecType,
    entry: EncoderEntry,
) -> EncodingProfilesView {
    let ids = profile_ids_of(entry);
    match codec {
        VideoCodecType::H264 => EncodingProfilesView::H264(matched(ids, h264_table())),
        VideoCodecType::Hevc => EncodingProfilesView::Hevc(matched(ids, hevc_table())),
        VideoCodecType::Vp9 => EncodingProfilesView::Vp9(matched(ids, vp9_table())),
        VideoCodecType::Av1 => EncodingProfilesView::Av1(matched(ids, av1_table())),
    }
}

/// Reads the profiles that an encoder of this codec offers.
pub fn query_encoding_profiles(codec: VideoCodecType, entry: &EncoderEntry) -> (r: EncodingProfiles)
    ensures
        r@ == encoding_profiles_of(codec, *entry),
{
    let none: Vec<u32> = Vec::new();
    let ids: &[u32] = match &entry.profiles {
        Some(ids) => ids.as_slice(),
        None => none.as_slice(),
    };
    assert(ids@ =~= profile_ids_of(*entry));
    match codec {
        VideoCodecType::H264 => {
            let table: Vec<(u32, H264EncodingProfile)> = vec![
                (sys::MFX_PROFILE_AVC_BASELINE as u32, H264EncodingProfile::Baseline),
                (
                    sys::MFX_PROFILE_AVC_CONSTRAINED_BASELINE as u32,
                    H264EncodingProfile::ConstrainedBaseline,
                ),
                (sys::MFX_PROFILE_AVC_MAIN as u32, H264EncodingProfile::Main),
                (sys::MFX_PROFILE_AVC_HIGH as u32, H264EncodingProfile::High),
                (
                    sys::MFX_PROFILE_AVC_CONSTRAINED_HIGH as u32,
                    H264EncodingProfile::ConstrainedHigh,
                ),
                (sys::MFX_PROFILE_AVC_HIGH10 as u32, H264EncodingProfile::High10),
                (sys::MFX_PROFILE_AVC_HIGH_422 as u32, H264EncodingProfile::High422),
            ];
            assert(table@ =~= h264_table());
            EncodingProfiles::H264(match_profiles(ids, table.as_slice()))
        },
        VideoCodecType::Hevc => {
            let table: Vec<(u32, HevcEncodingProfile)> = vec![
                (sys::MFX_PROFILE_HEVC_MAIN as u32, HevcEncodingProfile::Main),
                (sys::MFX_PROFILE_HEVC_MAIN10 as u32, HevcEncodingProfile::Main10),
                (sys::MFX_PROFILE_HEVC_MAINSP as u32, HevcEncodingProfile::MainSp),
                (sys::MFX_PROFILE_HEVC_REXT as u32, HevcEncodingProfile::Rext),
                (sys::MFX_PROFILE_HEVC_SCC as u32, HevcEncodingProfile::Scc),
            ];
            assert(table@ =~= hevc_table());
            EncodingProfiles::Hevc(match_profiles(ids, table.as_slice()))
        },
        VideoCodecType::Vp9 => {
            let table: Vec<(u32, Vp9EncodingProfile)> = vec![
                (sys::MFX_PROFILE_VP9_0 as u32, Vp9EncodingProfile::Profile0),
                (sys::MFX_PROFILE_VP9_1 as u32, Vp9EncodingProfile::Profile1),
                (sys::MFX_PROFILE_VP9_2 as u32, Vp9EncodingProfile::Profile2),
                (sys::MFX_PROFILE_VP9_3 as u32, Vp9EncodingProfile::Profile3),
            ];
            assert(table@ =~= vp9_table());
            EncodingProfiles::Vp9(match_profiles(ids, table.as_slice()))
        },
        VideoCodecType::Av1 => {
            let table: Vec<(u32, Av1EncodingProfile)> = vec![
                (sys::MFX_PROFILE_AV1_MAIN as u32, Av1EncodingProfile::Main),
            ];
            assert(table@ =~= av1_table());
            EncodingProfiles::Av1(match_profiles(ids, table.as_slice()))
        },
    }
}

/// Whether the table of decoders has the codec.
pub open spec fn decodes(decoders: Option<Seq<u32>>, codec: VideoCodecType) -> bool {
    match decoders {
        Some(ids) => ids.contains(codec.codec_id()),
        None => false,
    }
}

/// The view of an optional table.
pub open spec fn table_view<T>(table: Option<Vec<T>>) -> Option<Seq<T>> {
    match table {
        Some(entries) => Some(entries@),
        None => None,
    }
}

/// What the table of decoders says of a codec. VPL knows hardware only, so what it supports is
/// accelerated.
pub fn probe_decoding(decoders: &Option<Vec<u32>>, codec: VideoCodecType) -> (r: DecodingInfo)
    ensures
        r == (DecodingInfo {
            supported: decodes(table_view(*decoders), codec),
            hardware_accelerated: decodes(table_view(*decoders), codec),
        }),
{
    let target: u32 = codec.to_codec_id();
    if let Some(ids) = decoders {
        let mut i: usize = 0;
        while i < ids.len()
            invariant
                i <= ids@.len(),
                target == codec.codec_id(),
                table_view(*decoders) == Some(ids@),
                forall|k: int| 0 <= k < i ==> ids@[k] != target,
            decreases ids@.len() - i,
        {
            if ids[i] == target {
                assert(ids@.contains(target));
                return DecodingInfo { supported: true, hardware_accelerated: true };
            }
            i = i + 1;
        }
    }
    DecodingInfo { supported: false, hardware_accelerated: false }
}

/// The first encoder of a codec.
pub open spec fn encoder_of(entries: Seq<EncoderEntry>, id: u32) -> Option<EncoderEntry>
    decreases entries.len(),
{
    if entries.len() == 0 {
        None
    } else if entries.first().codec_id == id {
        Some(entries.first())
    } else {
        encoder_of(entries.drop_first(), id)
    }
}

/// What the table of encoders says of a codec.
pub open spec fn encoding_of(
    encoders: Option<Seq<EncoderEntry>>,
    codec: VideoCodecType,
) -> EncodingInfoView {
    let found = match encoders {
        Some(entries) => encoder_of(entries, codec.codec_id()),
        None => None,
    };
    match found {
        Some(entry) => EncodingInfoView {
            supported: true,
            hardware_accelerated: true,
            supports_frame_reordering: entry.bidirectional_prediction != 0,
            supports_multi_pass: false,
            profiles: encoding_profiles_of(codec, entry),
        },
        None => EncodingInfoView {
            supported: false,
            hardware_accelerated: false,
            supports_frame_reordering: false,
            supports_multi_pass: false,
            profiles: EncodingProfilesView::Unsupported,
        },
    }
}

/// What the table of encoders says of a codec. VPL does not tell of multi-pass encoding.
pub fn probe_encoding(
    encoders: &Option<Vec<EncoderEntry>>,
    codec: VideoCodecType,
) -> (r: EncodingInfo)
    ensures
        r@ == encoding_of(table_view(*encoders), codec),
{
    let target: u32 = codec.to_codec_id();
    if let Some(entries) = encoders {
        let mut i: usize = 0;
        assert(entries@.skip(0) =~= entries@);
        while i < entries.len()
            invariant
                i <= entries@.len(),
                target == codec.codec_id(),
                table_view(*encoders) == Some(entries@),
                encoder_of(entries@, target) == encoder_of(entries@.skip(i as int), target),
            decreases entries@.len() - i,
        {
            let entry = &entries[i];
            assert(entries@.skip(i as int).first() == entries@[i as int]);
            assert(entries@.skip(i as int).drop_first() =~= entries@.skip(i + 1));
            if entry.codec_id == target {
                return EncodingInfo {
                    supported: true,
                    hardware_accelerated: true,
                    supports_frame_reordering: entry.bidirectional_prediction != 0,
                    supports_multi_pass: false,
                    profiles: query_encoding_profiles(codec, entry),
                };
            }
            i = i + 1;
        }
    }
    EncodingInfo {
        supported: false,
        hardware_accelerated: false,
        supports_frame_reordering: false,
        supports_multi_pass: false,
        profiles: EncodingProfiles::Unsupported,
    }
}

/// What an implementation says of one codec.
pub open spec fn codec_info_of(description: ImplDescription, codec: VideoCodecType) -> CodecInfoView {
    CodecInfoView {
        codec,
        decoding: DecodingInfo {
            supported: decodes(table_view(description.decoders), codec),
            hardware_accelerated: decodes(table_view(description.decoders), codec),
        },
        encoding: encoding_of(table_view(description.encoders), codec),
    }
}

/// What an implementation says of each codec.
pub open spec fn codec_infos_of(description: ImplDescription) -> Seq<CodecInfoView> {
    VideoCodecType::every().map_values(|codec: VideoCodecType| codec_info_of(description, codec))
}

/// The views of a list of codecs.
pub open spec fn codec_views(list: Seq<CodecInfo>) -> Seq<CodecInfoView> {
    list.map_values(|info: CodecInfo| info@)
}

/// Reads what an implementation says of each codec.
pub fn build_codec_info_list(description: &ImplDescription) -> (r: Vec<CodecInfo>)
    ensures
        codec_views(r@) == codec_infos_of(*description),
{
    let codecs = VideoCodecType::all();
    let mut infos: Vec<CodecInfo> = Vec::new();
    let mut i: usize = 0;
    while i < codecs.len()
        invariant
            codecs@ == VideoCodecType::every(),
            i <= codecs@.len(),
            infos@.len() == i,
            forall|k: int|
                0 <= k < i ==> (#[trigger] infos@[k])@ == codec_info_of(*description, codecs@[k]),
        decreases codecs@.len() - i,
    {
        let codec = codecs[i];
        infos.push(
            CodecInfo {
                codec,
                decoding: probe_decoding(&description.decoders, codec),
                encoding: probe_encoding(&description.encoders, codec),
            },
        );
        i = i + 1;
    }
    assert(codec_views(infos@) =~= codec_infos_of(*description));
    infos
}

/// A codec that is reported as supported is reported as hardware accelerated, and the other way
/// round; multi-pass encoding is never reported; a codec that cannot be encoded has no profiles and
/// no reordering, and one that can has profiles of its own kind. All four codecs are reported.
pub proof fn law_codec_reports_are_consistent(description: ImplDescription)
    ensures
        codec_infos_of(description).len() == 4,
        forall|i: int|
            0 <= i < 4 ==> {
                let info = #[trigger] codec_infos_of(description)[i];
                &&& info.codec == VideoCodecType::every()[i]
                &&& info.decoding.supported == info.decoding.hardware_accelerated
                &&& info.encoding.supported == info.encoding.hardware_accelerated
                &&& !info.encoding.supports_multi_pass
                &&& !info.encoding.supported ==> !info.encoding.supports_frame_reordering
                    && info.encoding.profiles is Unsupported
                &&& info.encoding.supported ==> match info.codec {
                    VideoCodecType::H264 => info.encoding.profiles is H264,
                    VideoCodecType::Hevc => info.encoding.profiles is Hevc,
                    VideoCodecType::Vp9 => info.encoding.profiles is Vp9,
                    VideoCodecType::Av1 => info.encoding.profiles is Av1,
                }
            },
{
}

/// Why the codecs could not be queried.
#[derive(Debug, Clone, Copy, PartialEq, Eq, Structural)]
pub enum QueryFailure {
    /// `MFXLoad` returned null.
    NullLoader,
    /// `MFXCreateConfig` returned null.
    NullConfig,
    /// `MFXSetConfigFilterProperty` failed with this status.
    Filter(i32),
    /// `MFXEnumImplementations` failed with this status.
    Enumerate(i32),
    /// `MFXEnumImplementations` succeeded without a description.
    NullDescription,
}

impl QueryFailure {
    /// The error that reports the failure.
    pub open spec fn error_view(self) -> ErrorView {
        match self {
            QueryFailure::NullLoader => ErrorView::custom("MFXLoad"@, "returned null"@),
            QueryFailure::NullConfig => ErrorView::custom("MFXCreateConfig"@, "returned null"@),
            QueryFailure::Filter(status) => ErrorView::mfx(status, "MFXSetConfigFilterProperty"@),
            QueryFailure::Enumerate(status) => ErrorView::mfx(status, "MFXEnumImplementations"@),
            QueryFailure::NullDescription => ErrorView::custom(
                "MFXEnumImplementations"@,
                "returned null handle"@,
            ),
        }
    }

    /// The error that reports the failure.
    pub fn error(self) -> (r: Error)
        ensures
            r@ == self.error_view(),
    {
        match self {
            QueryFailure::NullLoader => Error::new_custom("MFXLoad", "returned null"),
            QueryFailure::NullConfig => Error::new_custom("MFXCreateConfig", "returned null"),
            QueryFailure::Filter(status) => Error::from_mfx(status, "MFXSetConfigFilterProperty"),
            QueryFailure::Enumerate(status) => Error::from_mfx(status, "MFXEnumImplementations"),
            QueryFailure::NullDescription => Error::new_custom(
                "MFXEnumImplementations",
                "returned null handle",
            ),
        }
    }
}

/// The call whose reply a [`CodecQuery`] waits for.
#[derive(Debug)]
pub enum QueryStage {
    Load,
    ImplConfig,
    ImplFilter,
    NodeConfig,
    NodeFilter,
    Description,
    /// The description, from which these codecs were read, is being released.
    ReleaseDescription(Vec<CodecInfo>),
    /// The loader is being unloaded; then the query ends in this.
    Unload(Result<Vec<CodecInfo>, QueryFailure>),
}

/// The query of what the implementation on one DRM render node can encode and decode.
#[derive(Debug)]
pub struct CodecQuery {
    pub render_node: u32,
    pub stage: QueryStage,
}

/// How far the query has come.
#[derive(Debug)]
pub enum QueryProgress {
    /// Make this call, then step with its reply.
    Call(CodecQuery, LoaderCall),
    /// These are the codecs.
    Done(Vec<CodecInfo>),
    /// The codecs could not be queried.
    Failed(QueryFailure),
}

/// The content of a [`QueryStage`].
#[verifier::ext_equal]
pub enum QueryStageView {
    Load,
    ImplConfig,
    ImplFilter,
    NodeConfig,
    NodeFilter,
    Description,
    ReleaseDescription(Seq<CodecInfoView>),
    Done(Seq<CodecInfoView>),
    Failed(QueryFailure),
}

impl View for QueryStage {
    type V = QueryStageView;

    open spec fn view(&self) -> QueryStageView {
        match self {
            QueryStage::Load => QueryStageView::Load,
            QueryStage::ImplConfig => QueryStageView::ImplConfig,
            QueryStage::ImplFilter => QueryStageView::ImplFilter,
            QueryStage::NodeConfig => QueryStageView::NodeConfig,
            QueryStage::NodeFilter => QueryStageView::NodeFilter,
            QueryStage::Description => QueryStageView::Description,
            QueryStage::ReleaseDescription(codecs) => QueryStageView::ReleaseDescription(
                codec_views(codecs@),
            ),
            QueryStage::Unload(Ok(codecs)) => QueryStageView::Done(codec_views(codecs@)),
            QueryStage::Unload(Err(failure)) => QueryStageView::Failed(*failure),
        }
    }
}

/// The content of a [`QueryProgress`].
#[verifier::ext_equal]
pub enum QueryProgressView {
    Call(u32, QueryStageView, LoaderCall),
    Done(Seq<CodecInfoView>),
    Failed(QueryFailure),
}

impl View for QueryProgress {
    type V = QueryProgressView;

    open spec fn view(&self) -> QueryProgressView {
        match self {
            QueryProgress::Call(query, call) => QueryProgressView::Call(
                query.render_node,
                query.stage@,
                *call,
            ),
            QueryProgress::Done(codecs) => QueryProgressView::Done(codec_views(codecs@)),
            QueryProgress::Failed(failure) => QueryProgressView::Failed(*failure),
        }
    }
}

impl QueryStageView {
    /// The call that is awaited at this stage.
    pub open spec fn call(self, render_node: u32) -> LoaderCall {
        match self {
            QueryStageView::Load => LoaderCall::Load,
            QueryStageView::ImplConfig => LoaderCall::CreateConfig,
            QueryStageView::ImplFilter => LoaderCall::SetFilter(Filter::Hardware),
            QueryStageView::NodeConfig => LoaderCall::CreateConfig,
            QueryStageView::NodeFilter => LoaderCall::SetFilter(Filter::RenderNode(render_node)),
            QueryStageView::Description => LoaderCall::EnumDescription(0),
            QueryStageView::ReleaseDescription(_) => LoaderCall::ReleaseDescription,
            QueryStageView::Done(_) => LoaderCall::Unload,
            QueryStageView::Failed(_) => LoaderCall::Unload,
        }
    }

    /// What is held of the dispatcher before the call of this stage is made.
    pub open spec fn held(self) -> Held {
        Held {
            loader: self !is Load,
            description: self is ReleaseDescription,
            device: false,
        }
    }

    /// The query at this stage.
    pub open spec fn at(self, render_node: u32) -> QueryProgressView {
        QueryProgressView::Call(render_node, self, self.call(render_node))
    }

    /// What the reply to the awaited call leads to.
    pub open spec fn after(self, render_node: u32, reply: LoaderReply) -> QueryProgressView {
        let status = reply.status;
        match self {
            QueryStageView::Load => if reply.handle is Null {
                QueryProgressView::Failed(QueryFailure::NullLoader)
            } else {
                QueryStageView::ImplConfig.at(render_node)
            },
            QueryStageView::ImplConfig => if reply.handle is Null {
                QueryStageView::Failed(QueryFailure::NullConfig).at(render_node)
            } else {
                QueryStageView::ImplFilter.at(render_node)
            },
            QueryStageView::ImplFilter => if status != sys::MFX_ERR_NONE {
                QueryStageView::Failed(QueryFailure::Filter(status)).at(render_node)
            } else {
                QueryStageView::NodeConfig.at(render_node)
            },
            QueryStageView::NodeConfig => if reply.handle is Null {
                QueryStageView::Failed(QueryFailure::NullConfig).at(render_node)
            } else {
                QueryStageView::NodeFilter.at(render_node)
            },
            QueryStageView::NodeFilter => if status != sys::MFX_ERR_NONE {
                QueryStageView::Failed(QueryFailure::Filter(status)).at(render_node)
            } else {
                QueryStageView::Description.at(render_node)
            },
            QueryStageView::Description => if status != sys::MFX_ERR_NONE {
                QueryStageView::Failed(QueryFailure::Enumerate(status)).at(render_node)
            } else {
                match reply.handle {
                    Handle::Description(description) => QueryStageView::ReleaseDescription(
                        codec_infos_of(description),
                    ).at(render_node),
                    _ => QueryStageView::Failed(QueryFailure::NullDescription).at(render_node),
                }
            },
            QueryStageView::ReleaseDescription(codecs) => QueryStageView::Done(codecs).at(
                render_node,
            ),
            QueryStageView::Done(codecs) => QueryProgressView::Done(codecs),
            QueryStageView::Failed(failure) => QueryProgressView::Failed(failure),
        }
    }
}

impl CodecQuery {
    fn goes_on(render_node: u32, stage: QueryStage) -> (r: QueryProgress)
        ensures
            r@ == stage@.at(render_node),
    {
        let call = match &stage {
            QueryStage::Load => LoaderCall::Load,
            QueryStage::ImplConfig => LoaderCall::CreateConfig,
            QueryStage::ImplFilter => LoaderCall::SetFilter(Filter::Hardware),
            QueryStage::NodeConfig => LoaderCall::CreateConfig,
            QueryStage::NodeFilter => LoaderCall::SetFilter(Filter::RenderNode(render_node)),
            QueryStage::Description => LoaderCall::EnumDescription(0),
            QueryStage::ReleaseDescription(_) => LoaderCall::ReleaseDescription,
            QueryStage::Unload(_) => LoaderCall::Unload,
        };
        QueryProgress::Call(CodecQuery { render_node, stage }, call)
    }

    /// Takes the reply to the call named last.
    pub fn step(self, reply: LoaderReply) -> (r: QueryProgress)
        ensures
            r@ == self.stage@.after(self.render_node, reply),
    {
        let node: u32 = self.render_node;
        let status: i32 = reply.status;
        let null = matches!(&reply.handle, Handle::Null);
        match self.stage {
            QueryStage::Load => if null {
                QueryProgress::Failed(QueryFailure::NullLoader)
            } else {
                Self::goes_on(node, QueryStage::ImplConfig)
            },
            QueryStage::ImplConfig => if null {
                Self::goes_on(node, QueryStage::Unload(Err(QueryFailure::NullConfig)))
            } else {
                Self::goes_on(node, QueryStage::ImplFilter)
            },
            QueryStage::ImplFilter => if status != sys::MFX_ERR_NONE {
                Self::goes_on(node, QueryStage::Unload(Err(QueryFailure::Filter(status))))
            } else {
                Self::goes_on(node, QueryStage::NodeConfig)
            },
            QueryStage::NodeConfig => if null {
                Self::goes_on(node, QueryStage::Unload(Err(QueryFailure::NullConfig)))
            } else {
                Self::goes_on(node, QueryStage::NodeFilter)
            },
            QueryStage::NodeFilter => if status != sys::MFX_ERR_NONE {
                Self::goes_on(node, QueryStage::Unload(Err(QueryFailure::Filter(status))))
            } else {
                Self::goes_on(node, QueryStage::Description)
            },
            QueryStage::Description => if status != sys::MFX_ERR_NONE {
                Self::goes_on(node, QueryStage::Unload(Err(QueryFailure::Enumerate(status))))
            } else {
                match reply.handle {
                    Handle::Description(description) => Self::goes_on(
                        node,
                        QueryStage::ReleaseDescription(build_codec_info_list(&description)),
                    ),
                    _ => Self::goes_on(
                        node,
                        QueryStage::Unload(Err(QueryFailure::NullDescription)),
                    ),
                }
            },
            QueryStage::ReleaseDescription(codecs) => Self::goes_on(
                node,
                QueryStage::Unload(Ok(codecs)),
            ),
            QueryStage::Unload(Ok(codecs)) => QueryProgress::Done(codecs),
            QueryStage::Unload(Err(failure)) => QueryProgress::Failed(failure),
        }
    }
}

/// What querying the codecs of `adapter` starts with.
pub open spec fn query_start(adapter: AdapterSelector) -> Result<(u32, LoaderCall), ErrorView> {
    match adapter.verdict() {
        Ok(()) => Ok((adapter.render_node(), LoaderCall::Load)),
        Err(error) => Err(error),
    }
}

/// Starts to query what the implementation on `adapter` can encode and decode. An adapter that
/// cannot be meant is refused before the dispatcher is asked anything.
pub fn supported_codecs(adapter: AdapterSelector) -> (r: Result<(CodecQuery, LoaderCall), Error>)
    ensures
        match r {
            Ok((query, call)) => {
                &&& query_start(adapter) == Ok::<(u32, LoaderCall), ErrorView>(
                    (query.render_node, call),
                )
                &&& query.stage is Load
            },
            Err(error) => query_start(adapter) == Err::<(u32, LoaderCall), ErrorView>(error@),
        },
{
    match adapter.validate() {
        Ok(()) => {
            let AdapterSelector::DrmRenderNode(render_node) = adapter;
            Ok((CodecQuery { render_node, stage: QueryStage::Load }, LoaderCall::Load))
        },
        Err(error) => Err(error),
    }
}

/// Whatever the dispatcher replies, the query accounts for what it holds: each call that it names
/// finds held what the calls before it left held, and when it ends nothing is held.
pub proof fn law_query_releases_what_it_holds(
    stage: QueryStageView,
    render_node: u32,
    reply: LoaderReply,
)
    ensures
        match stage.after(render_node, reply) {
            QueryProgressView::Call(node, next, call) => {
                &&& node == render_node
                &&& call == next.call(render_node)
                &&& next.held() == stage.held().after(stage.call(render_node), reply)
            },
            _ => stage.held().after(stage.call(render_node), reply) == Held::nothing(),
        },
{
}

/// No identifier stands for two profiles of one codec, so each identifier that an encoder lists
/// yields at most one profile.
pub proof fn law_profile_tables_are_unambiguous(id: u32)
    ensures
        entries_of(h264_table(), id).len() <= 1,
        entries_of(hevc_table(), id).len() <= 1,
        entries_of(vp9_table(), id).len() <= 1,
        entries_of(av1_table(), id).len() <= 1,
{
    reveal_with_fuel(entries_of, 8);
}

/// What a query comes to after so many calls of a dispatcher whose first implementation has this
/// description.
pub open spec fn query_run(
    at: QueryProgressView,
    description: ImplDescription,
    calls: nat,
) -> QueryProgressView
    decreases calls,
{
    match at {
        QueryProgressView::Call(node, stage, call) => if calls == 0 {
            at
        } else {
            let handle = if call == LoaderCall::EnumDescription(0) {
                Handle::Description(description)
            } else {
                Handle::Opaque
            };
            query_run(
                stage.after(node, LoaderReply { status: sys::MFX_ERR_NONE, handle }),
                description,
                (calls - 1) as nat,
            )
        },
        _ => at,
    }
}

/// A query of a dispatcher ends in what its first implementation says of the codecs.
pub proof fn law_query_reports_the_first_implementation(
    render_node: u32,
    description: ImplDescription,
)
    ensures
        query_run(QueryStageView::Load.at(render_node), description, 8) == QueryProgressView::Done(
            codec_infos_of(description),
        ),
{
    reveal_with_fuel(query_run, 9);
}

/// A codec is named by its four-character code, the same in a query as in the settings of an encoder.
pub proof fn law_codecs_are_named(codec: VideoCodecType)
    ensures
        codec == VideoCodecType::H264 <==> codec.codec_id() == sys::four_characters('A', 'V', 'C', ' '),
        codec == VideoCodecType::Hevc <==> codec.codec_id() == sys::four_characters('H', 'E', 'V', 'C'),
        codec == VideoCodecType::Vp9 <==> codec.codec_id() == sys::four_characters('V', 'P', '9', ' '),
        codec == VideoCodecType::Av1 <==> codec.codec_id() == sys::four_characters('A', 'V', '1', ' '),
{
}

/// The four codecs are reported in this order, each with what its own tables say.
pub proof fn law_every_codec_is_reported(description: ImplDescription)
    ensures
        ({
            let infos = codec_infos_of(description);
            &&& infos.len() == 4
            &&& infos[0].codec == VideoCodecType::H264
            &&& infos[1].codec == VideoCodecType::Hevc
            &&& infos[2].codec == VideoCodecType::Vp9
            &&& infos[3].codec == VideoCodecType::Av1
            &&& forall|i: int|
                0 <= i < 4 ==> #[trigger] infos[i] == codec_info_of(description, infos[i].codec)
        }),
{
}

/// A codec can be decoded, and in hardware, exactly if the table of decoders is there and has the
/// codec in any place.
pub proof fn law_decoding_is_reported_if_listed(description: ImplDescription, codec: VideoCodecType)
    ensures
        ({
            let info = codec_info_of(description, codec);
            let listed = description.decoders is Some && exists|k: int|
                0 <= k < description.decoders->0@.len() && #[trigger] description.decoders->0@[k]
                    == codec.codec_id();
            &&& info.codec == codec
            &&& info.decoding.supported <==> listed
            &&& info.decoding.hardware_accelerated <==> listed
        }),
{
    if description.decoders is Some {
        let ids = description.decoders->0@;
        if ids.contains(codec.codec_id()) {
            let k = choose|k: int| 0 <= k < ids.len() && ids[k] == codec.codec_id();
            assert(ids[k] == codec.codec_id());
        }
    }
}

proof fn lemma_first_encoder(entries: Seq<EncoderEntry>, id: u32, k: int)
    requires
        0 <= k < entries.len(),
        entries[k].codec_id == id,
        forall|j: int| 0 <= j < k ==> (#[trigger] entries[j]).codec_id != id,
    ensures
        encoder_of(entries, id) == Some(entries[k]),
    decreases k,
{
    if k > 0 {
        assert(entries.first() == entries[0]);
        let rest = entries.drop_first();
        assert forall|j: int| 0 <= j < k - 1 implies (#[trigger] rest[j]).codec_id != id by {
            assert(rest[j] == entries[j + 1]);
        }
        lemma_first_encoder(rest, id, k - 1);
    }
}

proof fn lemma_no_encoder(entries: Seq<EncoderEntry>, id: u32)
    requires
        forall|j: int| 0 <= j < entries.len() ==> (#[trigger] entries[j]).codec_id != id,
    ensures
        encoder_of(entries, id) is None,
    decreases entries.len(),
{
    if entries.len() > 0 {
        assert(entries.first() == entries[0]);
        let rest = entries.drop_first();
        assert forall|j: int| 0 <= j < rest.len() implies (#[trigger] rest[j]).codec_id != id by {
            assert(rest[j] == entries[j + 1]);
        }
        lemma_no_encoder(rest, id);
    }
}

/// A codec with an encoder in the table can be encoded, in hardware and in one pass, and the first
/// encoder of the codec says the rest: frames are reordered exactly if its bidirectional prediction is
/// not zero, and the profiles are its own. This holds of every codec.
pub proof fn law_first_encoder_is_reported(
    description: ImplDescription,
    codec: VideoCodecType,
    k: int,
)
    requires
        description.encoders is Some,
        0 <= k < description.encoders->0@.len(),
        description.encoders->0@[k].codec_id == codec.codec_id(),
        forall|j: int|
            0 <= j < k ==> (#[trigger] description.encoders->0@[j]).codec_id != codec.codec_id(),
    ensures
        ({
            let entry = description.encoders->0@[k];
            let encoding = codec_info_of(description, codec).encoding;
            &&& encoding.supported
            &&& encoding.hardware_accelerated
            &&& encoding.supports_frame_reordering <==> entry.bidirectional_prediction != 0
            &&& !encoding.supports_multi_pass
            &&& encoding.profiles == encoding_profiles_of(codec, entry)
        }),
{
    lemma_first_encoder(description.encoders->0@, codec.codec_id(), k);
}

/// A codec without an encoder in the table, or without a table, cannot be encoded at all.
pub proof fn law_missing_encoder_is_reported(description: ImplDescription, codec: VideoCodecType)
    requires
        description.encoders is None || forall|j: int|
            0 <= j < description.encoders->0@.len() ==> (
            #[trigger] description.encoders->0@[j]).codec_id != codec.codec_id(),
    ensures
        ({
            let encoding = codec_info_of(description, codec).encoding;
            &&& !encoding.supported
            &&& !encoding.hardware_accelerated
            &&& !encoding.supports_frame_reordering
            &&& !encoding.supports_multi_pass
            &&& encoding.profiles is Unsupported
        }),
{
    if description.encoders is Some {
        lemma_no_encoder(description.encoders->0@, codec.codec_id());
    }
}

/// An identifier that an encoder of this codec lists adds the profile that it stands for behind those
/// before it, and one that stands for none adds nothing. Without identifiers there are no profiles.
pub proof fn law_h264_profiles_are_listed_by_their_numbers(
    entry: EncoderEntry,
    longer: EncoderEntry,
    id: u32,
)
    requires
        longer.profiles is Some,
        longer.profiles->0@ == (match entry.profiles {
            Some(ids) => ids@,
            None => Seq::empty(),
        }).push(id),
    ensures
        ({
            let some = encoding_profiles_of(VideoCodecType::H264, entry)->H264_0;
            let more = encoding_profiles_of(VideoCodecType::H264, longer)->H264_0;
            &&& encoding_profiles_of(VideoCodecType::H264, entry) is H264
            &&& encoding_profiles_of(VideoCodecType::H264, longer) is H264
            &&& entry.profiles is None || entry.profiles->0@.len() == 0 ==> some.len() == 0
            &&& id == 66 ==> more == some.push(H264EncodingProfile::Baseline)
            &&& id == 578 ==> more == some.push(H264EncodingProfile::ConstrainedBaseline)
            &&& id == 77 ==> more == some.push(H264EncodingProfile::Main)
            &&& id == 100 ==> more == some.push(H264EncodingProfile::High)
            &&& id == 12388 ==> more == some.push(H264EncodingProfile::ConstrainedHigh)
            &&& id == 110 ==> more == some.push(H264EncodingProfile::High10)
            &&& id == 122 ==> more == some.push(H264EncodingProfile::High422)
            &&& id != 66 && id != 578 && id != 77 && id != 100 && id != 12388 && id != 110 && id != 122 ==> more == some
        }),
{
    let ids = profile_ids_of(entry);
    let table = h264_table();
    assert(profile_ids_of(longer).drop_last() =~= ids);
    let some = matched(ids, table);
    reveal_with_fuel(entries_of, 8);
    assert(matched(profile_ids_of(longer), table) =~= some + entries_of(table, id));
    if id == 66 {
        assert(some + entries_of(table, id) =~= some.push(H264EncodingProfile::Baseline));
    }
    if id == 578 {
        assert(some + entries_of(table, id) =~= some.push(H264EncodingProfile::ConstrainedBaseline));
    }
    if id == 77 {
        assert(some + entries_of(table, id) =~= some.push(H264EncodingProfile::Main));
    }
    if id == 100 {
        assert(some + entries_of(table, id) =~= some.push(H264EncodingProfile::High));
    }
    if id == 12388 {
        assert(some + entries_of(table, id) =~= some.push(H264EncodingProfile::ConstrainedHigh));
    }
    if id == 110 {
        assert(some + entries_of(table, id) =~= some.push(H264EncodingProfile::High10));
    }
    if id == 122 {
        assert(some + entries_of(table, id) =~= some.push(H264EncodingProfile::High422));
    }
    if id != 66 && id != 578 && id != 77 && id != 100 && id != 12388 && id != 110 && id != 122 {
        assert(some + entries_of(table, id) =~= some);
    }
}

/// An identifier that an encoder of this codec lists adds the profile that it stands for behind those
/// before it, and one that stands for none adds nothing. Without identifiers there are no profiles.
pub proof fn law_hevc_profiles_are_listed_by_their_numbers(
    entry: EncoderEntry,
    longer: EncoderEntry,
    id: u32,
)
    requires
        longer.profiles is Some,
        longer.profiles->0@ == (match entry.profiles {
            Some(ids) => ids@,
            None => Seq::empty(),
        }).push(id),
    ensures
        ({
            let some = encoding_profiles_of(VideoCodecType::Hevc, entry)->Hevc_0;
            let more = encoding_profiles_of(VideoCodecType::Hevc, longer)->Hevc_0;
            &&& encoding_profiles_of(VideoCodecType::Hevc, entry) is Hevc
            &&& encoding_profiles_of(VideoCodecType::Hevc, longer) is Hevc
            &&& entry.profiles is None || entry.profiles->0@.len() == 0 ==> some.len() == 0
            &&& id == 1 ==> more == some.push(HevcEncodingProfile::Main)
            &&& id == 2 ==> more == some.push(HevcEncodingProfile::Main10)
            &&& id == 3 ==> more == some.push(HevcEncodingProfile::MainSp)
            &&& id == 4 ==> more == some.push(HevcEncodingProfile::Rext)
            &&& id == 9 ==> more == some.push(HevcEncodingProfile::Scc)
            &&& id != 1 && id != 2 && id != 3 && id != 4 && id != 9 ==> more == some
        }),
{
    let ids = profile_ids_of(entry);
    let table = hevc_table();
    assert(profile_ids_of(longer).drop_last() =~= ids);
    let some = matched(ids, table);
    reveal_with_fuel(entries_of, 8);
    assert(matched(profile_ids_of(longer), table) =~= some + entries_of(table, id));
    if id == 1 {
        assert(some + entries_of(table, id) =~= some.push(HevcEncodingProfile::Main));
    }
    if id == 2 {
        assert(some + entries_of(table, id) =~= some.push(HevcEncodingProfile::Main10));
    }
    if id == 3 {
        assert(some + entries_of(table, id) =~= some.push(HevcEncodingProfile::MainSp));
    }
    if id == 4 {
        assert(some + entries_of(table, id) =~= some.push(HevcEncodingProfile::Rext));
    }
    if id == 9 {
        assert(some + entries_of(table, id) =~= some.push(HevcEncodingProfile::Scc));
    }
    if id != 1 && id != 2 && id != 3 && id != 4 && id != 9 {
        assert(some + entries_of(table, id) =~= some);
    }
}

/// An identifier that an encoder of this codec lists adds the profile that it stands for behind those
/// before it, and one that stands for none adds nothing. Without identifiers there are no profiles.
pub proof fn law_vp9_profiles_are_listed_by_their_numbers(
    entry: EncoderEntry,
    longer: EncoderEntry,
    id: u32,
)
    requires
        longer.profiles is Some,
        longer.profiles->0@ == (match entry.profiles {
            Some(ids) => ids@,
            None => Seq::empty(),
        }).push(id),
    ensures
        ({
            let some = encoding_profiles_of(VideoCodecType::Vp9, entry)->Vp9_0;
            let more = encoding_profiles_of(VideoCodecType::Vp9, longer)->Vp9_0;
            &&& encoding_profiles_of(VideoCodecType::Vp9, entry) is Vp9
            &&& encoding_profiles_of(VideoCodecType::Vp9, longer) is Vp9
            &&& entry.profiles is None || entry.profiles->0@.len() == 0 ==> some.len() == 0
            &&& id == 1 ==> more == some.push(Vp9EncodingProfile::Profile0)
            &&& id == 2 ==> more == some.push(Vp9EncodingProfile::Profile1)
            &&& id == 3 ==> more == some.push(Vp9EncodingProfile::Profile2)
            &&& id == 4 ==> more == some.push(Vp9EncodingProfile::Profile3)
            &&& id != 1 && id != 2 && id != 3 && id != 4 ==> more == some
        }),
{
    let ids = profile_ids_of(entry);
    let table = vp9_table();
    assert(profile_ids_of(longer).drop_last() =~= ids);
    let some = matched(ids, table);
    reveal_with_fuel(entries_of, 8);
    assert(matched(profile_ids_of(longer), table) =~= some + entries_of(table, id));
    if id == 1 {
        assert(some + entries_of(table, id) =~= some.push(Vp9EncodingProfile::Profile0));
    }
    if id == 2 {
        assert(some + entries_of(table, id) =~= some.push(Vp9EncodingProfile::Profile1));
    }
    if id == 3 {
        assert(some + entries_of(table, id) =~= some.push(Vp9EncodingProfile::Profile2));
    }
    if id == 4 {
        assert(some + entries_of(table, id) =~= some.push(Vp9EncodingProfile::Profile3));
    }
    if id != 1 && id != 2 && id != 3 && id != 4 {
        assert(some + entries_of(table, id) =~= some);
    }
}

/// An identifier that an encoder of this codec lists adds the profile that it stands for behind those
/// before it, and one that stands for none adds nothing. Without identifiers there are no profiles.
pub proof fn law_av1_profiles_are_listed_by_their_numbers(
    entry: EncoderEntry,
    longer: EncoderEntry,
    id: u32,
)
    requires
        longer.profiles is Some,
        longer.profiles->0@ == (match entry.profiles {
            Some(ids) => ids@,
            None => Seq::empty(),
        }).push(id),
    ensures
        ({
            let some = encoding_profiles_of(VideoCodecType::Av1, entry)->Av1_0;
            let more = encoding_profiles_of(VideoCodecType::Av1, longer)->Av1_0;
            &&& encoding_profiles_of(VideoCodecType::Av1, entry) is Av1
            &&& encoding_profiles_of(VideoCodecType::Av1, longer) is Av1
            &&& entry.profiles is None || entry.profiles->0@.len() == 0 ==> some.len() == 0
            &&& id == 1 ==> more == some.push(Av1EncodingProfile::Main)
            &&& id != 1 ==> more == some
        }),
{
    let ids = profile_ids_of(entry);
    let table = av1_table();
    assert(profile_ids_of(longer).drop_last() =~= ids);
    let some = matched(ids, table);
    reveal_with_fuel(entries_of, 8);
    assert(matched(profile_ids_of(longer), table) =~= some + entries_of(table, id));
    if id == 1 {
        assert(some + entries_of(table, id) =~= some.push(Av1EncodingProfile::Main));
    }
    if id != 1 {
        assert(some + entries_of(table, id) =~= some);
    }
}

/// Codecs are queried on every render node but 0, on that very node; 0 is refused.
pub proof fn law_query_is_for_the_render_node(node: u32)
    ensures
        ({
            let start = query_start(AdapterSelector::DrmRenderNode(node));
            &&& start is Ok <==> node != 0
            &&& node != 0 ==> start->Ok_0 == (node, LoaderCall::Load)
            &&& node == 0 ==> {
                &&& start->Err_0.function == "AdapterSelector::validate"@
                &&& start->Err_0.status_code is None
                &&& start->Err_0.status_message == Some(
                    "DrmRenderNode(0) is reserved by libvpl and cannot be used"@,
                )
            }
        }),
{
}

/// The calls of a query filter by hardware and by the render node, and ask for the first that is left.
pub proof fn law_query_asks_in_order(stage: QueryStageView, node: u32, reply: LoaderReply)
    ensures
        stage.after(node, reply) matches QueryProgressView::Call(same, next, call) ==> {
            &&& same == node
            &&& match next {
                QueryStageView::Load => call == LoaderCall::Load,
                QueryStageView::ImplConfig => call == LoaderCall::CreateConfig,
                QueryStageView::ImplFilter => call == LoaderCall::SetFilter(Filter::Hardware),
                QueryStageView::NodeConfig => call == LoaderCall::CreateConfig,
                QueryStageView::NodeFilter => call == LoaderCall::SetFilter(
                    Filter::RenderNode(node),
                ),
                QueryStageView::Description => call == LoaderCall::EnumDescription(0),
                QueryStageView::ReleaseDescription(_) => call == LoaderCall::ReleaseDescription,
                QueryStageView::Done(_) => call == LoaderCall::Unload,
                QueryStageView::Failed(_) => call == LoaderCall::Unload,
            }
        },
{
}

/// A query goes wrong if the dispatcher cannot be loaded or configured, does not take a filter, or
/// fails to enumerate, and it says which. If all goes well it comes to what the description says.
pub proof fn law_query_failures(stage: QueryStageView, node: u32, reply: LoaderReply)
    ensures
        ({
            let next = |expected: QueryStageView|
                stage.after(node, reply) matches QueryProgressView::Call(_, at, _) && at == expected;
            let null = reply.handle is Null;
            match stage {
                QueryStageView::Load => {
                    &&& null ==> stage.after(node, reply) == QueryProgressView::Failed(
                        QueryFailure::NullLoader,
                    )
                    &&& !null ==> next(QueryStageView::ImplConfig)
                },
                QueryStageView::ImplConfig => next(
                    if null {
                        QueryStageView::Failed(QueryFailure::NullConfig)
                    } else {
                        QueryStageView::ImplFilter
                    },
                ),
                QueryStageView::ImplFilter => next(
                    if reply.status != 0 {
                        QueryStageView::Failed(QueryFailure::Filter(reply.status))
                    } else {
                        QueryStageView::NodeConfig
                    },
                ),
                QueryStageView::NodeConfig => next(
                    if null {
                        QueryStageView::Failed(QueryFailure::NullConfig)
                    } else {
                        QueryStageView::NodeFilter
                    },
                ),
                QueryStageView::NodeFilter => next(
                    if reply.status != 0 {
                        QueryStageView::Failed(QueryFailure::Filter(reply.status))
                    } else {
                        QueryStageView::Description
                    },
                ),
                QueryStageView::Description => {
                    &&& reply.status != 0 ==> next(
                        QueryStageView::Failed(QueryFailure::Enumerate(reply.status)),
                    )
                    &&& reply.status == 0 && reply.handle !is Description ==> next(
                        QueryStageView::Failed(QueryFailure::NullDescription),
                    )
                    &&& reply.status == 0 && reply.handle is Description ==> next(
                        QueryStageView::ReleaseDescription(
                            codec_infos_of(reply.handle->Description_0),
                        ),
                    )
                },
                QueryStageView::ReleaseDescription(codecs) => next(QueryStageView::Done(codecs)),
                QueryStageView::Done(codecs) => stage.after(node, reply) == QueryProgressView::Done(
                    codecs,
                ),
                QueryStageView::Failed(failure) => stage.after(node, reply)
                    == QueryProgressView::Failed(failure),
            }
        }),
{
}

/// A failure is reported by the function that failed, with its status if it gave one.
pub proof fn law_query_failures_are_reported(failure: QueryFailure)
    ensures
        ({
            let error = failure.error_view();
            match failure {
                QueryFailure::NullLoader => error.function == "MFXLoad"@ && error.status_code is None
                    && error.status_message == Some("returned null"@),
                QueryFailure::NullConfig => error.function == "MFXCreateConfig"@ && error.status_code is None
                    && error.status_message == Some("returned null"@),
                QueryFailure::Filter(status) => error == ErrorView::mfx(
                    status,
                    "MFXSetConfigFilterProperty"@,
                ),
                QueryFailure::Enumerate(status) => error == ErrorView::mfx(
                    status,
                    "MFXEnumImplementations"@,
                ),
                QueryFailure::NullDescription => error.function == "MFXEnumImplementations"@
                    && error.status_code is None && error.status_message == Some(
                    "returned null handle"@,
                ),
            }
        }),
{
}

/// A report is seen as it is, codec by codec.
pub proof fn law_report_is_seen_as_it_is(list: Seq<CodecInfo>, i: int)
    requires
        0 <= i < list.len(),
    ensures
        codec_views(list).len() == list.len(),
        ({
            let seen = codec_views(list)[i];
            &&& seen.codec == list[i].codec
            &&& seen.decoding == list[i].decoding
            &&& seen.encoding.supported == list[i].encoding.supported
            &&& seen.encoding.hardware_accelerated == list[i].encoding.hardware_accelerated
            &&& seen.encoding.supports_frame_reordering
                == list[i].encoding.supports_frame_reordering
            &&& seen.encoding.supports_multi_pass == list[i].encoding.supports_multi_pass
            &&& match list[i].encoding.profiles {
                EncodingProfiles::H264(own) => seen.encoding.profiles == EncodingProfilesView::H264(
                    own@,
                ),
                EncodingProfiles::Hevc(own) => seen.encoding.profiles == EncodingProfilesView::Hevc(
                    own@,
                ),
                EncodingProfiles::Vp9(own) => seen.encoding.profiles == EncodingProfilesView::Vp9(
                    own@,
                ),
                EncodingProfiles::Av1(own) => seen.encoding.profiles == EncodingProfilesView::Av1(
                    own@,
                ),
                EncodingProfiles::Unsupported => seen.encoding.profiles is Unsupported,
            }
        }),
{
}

/// Looking identifiers up in a table gives, for each identifier in turn, every profile that the table
/// has under it, in the order of the table; an identifier that comes again is looked up again.
pub proof fn law_matching_looks_every_identifier_up<T>(
    ids: Seq<u32>,
    id: u32,
    table: Seq<(u32, T)>,
    entry: (u32, T),
)
    ensures
        matched(Seq::empty(), table).len() == 0,
        matched(ids, Seq::<(u32, T)>::empty()).len() == 0,
        matched(ids.push(id), table) == matched(ids, table) + matched(seq![id], table),
        matched(seq![id], table.push(entry)) == (if entry.0 == id {
            matched(seq![id], table).push(entry.1)
        } else {
            matched(seq![id], table)
        }),
    decreases ids.len(),
{
    let one = seq![id];
    reveal_with_fuel(matched, 2);
    assert(one.drop_last() =~= Seq::<u32>::empty());
    assert(one.last() == id);
    assert(matched(one.drop_last(), table) =~= Seq::<T>::empty());
    assert(matched(one.drop_last(), table.push(entry)) =~= Seq::<T>::empty());
    assert(ids.push(id).drop_last() =~= ids);
    assert(table.push(entry).drop_last() =~= table);
    assert(matched(one, table) =~= entries_of(table, id));
    assert(matched(one, table.push(entry)) =~= entries_of(table.push(entry), id));
    if ids.len() > 0 {
        law_matching_looks_every_identifier_up(ids.drop_last(), id, table, entry);
    }
}

} // verus!
