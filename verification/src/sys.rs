//! Numeric constants of the Intel VPL interface.
//!
//! The values are those of the enumerations in `mfxdefs.h`, `mfxcommon.h`, `mfxstructures.h` and
//! `mfxdispatcher.h`.
use vstd::prelude::*;

verus! {

// --- mfxStatus ---
pub const MFX_ERR_NONE: i32 = 0;
pub const MFX_ERR_UNKNOWN: i32 = -1;
pub const MFX_ERR_NULL_PTR: i32 = -2;
pub const MFX_ERR_UNSUPPORTED: i32 = -3;
pub const MFX_ERR_MEMORY_ALLOC: i32 = -4;
pub const MFX_ERR_NOT_ENOUGH_BUFFER: i32 = -5;
pub const MFX_ERR_INVALID_HANDLE: i32 = -6;
pub const MFX_ERR_LOCK_MEMORY: i32 = -7;
pub const MFX_ERR_NOT_INITIALIZED: i32 = -8;
pub const MFX_ERR_NOT_FOUND: i32 = -9;
pub const MFX_ERR_MORE_DATA: i32 = -10;
pub const MFX_ERR_MORE_SURFACE: i32 = -11;
pub const MFX_ERR_ABORTED: i32 = -12;
pub const MFX_ERR_DEVICE_LOST: i32 = -13;
pub const MFX_ERR_INCOMPATIBLE_VIDEO_PARAM: i32 = -14;
pub const MFX_ERR_INVALID_VIDEO_PARAM: i32 = -15;
pub const MFX_ERR_UNDEFINED_BEHAVIOR: i32 = -16;
pub const MFX_ERR_DEVICE_FAILED: i32 = -17;
pub const MFX_ERR_MORE_BITSTREAM: i32 = -18;
pub const MFX_ERR_GPU_HANG: i32 = -21;
pub const MFX_ERR_REALLOC_SURFACE: i32 = -22;
pub const MFX_ERR_RESOURCE_MAPPED: i32 = -23;
pub const MFX_ERR_NOT_IMPLEMENTED: i32 = -24;
pub const MFX_ERR_MORE_EXTBUFFER: i32 = -25;
pub const MFX_WRN_IN_EXECUTION: i32 = 1;
pub const MFX_WRN_DEVICE_BUSY: i32 = 2;
pub const MFX_WRN_VIDEO_PARAM_CHANGED: i32 = 3;
pub const MFX_WRN_PARTIAL_ACCELERATION: i32 = 4;
pub const MFX_WRN_INCOMPATIBLE_VIDEO_PARAM: i32 = 5;
pub const MFX_WRN_VALUE_NOT_CHANGED: i32 = 6;
pub const MFX_WRN_OUT_OF_RANGE: i32 = 7;
pub const MFX_WRN_FILTER_SKIPPED: i32 = 10;
pub const MFX_WRN_ALLOC_TIMEOUT_EXPIRED: i32 = 13;

// --- Codec identifiers ("AVC ", "HEVC", "VP9 ", "AV1 " as little-endian four-character codes) ---
pub const MFX_CODEC_AVC: u32 = 0x2043_5641;
pub const MFX_CODEC_HEVC: u32 = 0x4356_4548;
pub const MFX_CODEC_VP9: u32 = 0x2039_5056;
pub const MFX_CODEC_AV1: u32 = 0x2031_5641;

// --- Codec profiles ---
pub const MFX_PROFILE_UNKNOWN: u16 = 0;
pub const MFX_PROFILE_AVC_BASELINE: u16 = 66;
pub const MFX_PROFILE_AVC_MAIN: u16 = 77;
pub const MFX_PROFILE_AVC_HIGH: u16 = 100;
pub const MFX_PROFILE_AVC_HIGH10: u16 = 110;
pub const MFX_PROFILE_AVC_HIGH_422: u16 = 122;
// BASELINE with constraint_set1.
pub const MFX_PROFILE_AVC_CONSTRAINED_BASELINE: u16 = 578;
// HIGH with constraint_set4 and constraint_set5.
pub const MFX_PROFILE_AVC_CONSTRAINED_HIGH: u16 = 12388;
pub const MFX_PROFILE_HEVC_MAIN: u16 = 1;
pub const MFX_PROFILE_HEVC_MAIN10: u16 = 2;
pub const MFX_PROFILE_HEVC_MAINSP: u16 = 3;
pub const MFX_PROFILE_HEVC_REXT: u16 = 4;
pub const MFX_PROFILE_HEVC_SCC: u16 = 9;
pub const MFX_PROFILE_VP9_0: u16 = 1;
pub const MFX_PROFILE_VP9_1: u16 = 2;
pub const MFX_PROFILE_VP9_2: u16 = 3;
pub const MFX_PROFILE_VP9_3: u16 = 4;
pub const MFX_PROFILE_AV1_MAIN: u16 = 1;

// --- Frame formats ("NV12", "YUY2", "RGB4" as little-endian four-character codes) ---
pub const MFX_FOURCC_NV12: u32 = 0x3231_564E;
pub const MFX_FOURCC_YUY2: u32 = 0x3259_5559;
pub const MFX_FOURCC_RGB4: u32 = 0x3442_4752;
pub const MFX_CHROMAFORMAT_YUV420: u16 = 1;
pub const MFX_CHROMAFORMAT_YUV422: u16 = 2;
pub const MFX_CHROMAFORMAT_YUV444: u16 = 3;
pub const MFX_PICSTRUCT_PROGRESSIVE: u16 = 1;

// --- Memory ---
pub const MFX_IOPATTERN_IN_SYSTEM_MEMORY: u16 = 0x02;
pub const MFX_IOPATTERN_OUT_SYSTEM_MEMORY: u16 = 0x20;
pub const MFX_MAP_READ: u32 = 0x1;
pub const MFX_MAP_WRITE: u32 = 0x2;

// --- Encoder controls ---
pub const MFX_TARGETUSAGE_BALANCED: u16 = 4;
pub const MFX_CODINGOPTION_UNKNOWN: u16 = 0;
pub const MFX_CODINGOPTION_ON: u16 = 0x10;
pub const MFX_CODINGOPTION_OFF: u16 = 0x20;
pub const MFX_CODINGOPTION_ADAPTIVE: u16 = 0x30;
pub const MFX_RATECONTROL_CBR: u16 = 1;
pub const MFX_RATECONTROL_VBR: u16 = 2;
pub const MFX_RATECONTROL_CQP: u16 = 3;
pub const MFX_RATECONTROL_AVBR: u16 = 4;
pub const MFX_RATECONTROL_LA: u16 = 8;
pub const MFX_RATECONTROL_ICQ: u16 = 9;
pub const MFX_RATECONTROL_VCM: u16 = 10;
pub const MFX_RATECONTROL_LA_ICQ: u16 = 11;
pub const MFX_RATECONTROL_LA_HRD: u16 = 13;
pub const MFX_RATECONTROL_QVBR: u16 = 14;

// --- Frame types and group-of-pictures flags ---
pub const MFX_FRAMETYPE_I: u16 = 0x0001;
pub const MFX_FRAMETYPE_P: u16 = 0x0002;
pub const MFX_FRAMETYPE_B: u16 = 0x0004;
pub const MFX_FRAMETYPE_S: u16 = 0x0008;
pub const MFX_FRAMETYPE_REF: u16 = 0x0040;
pub const MFX_FRAMETYPE_IDR: u16 = 0x0080;
pub const MFX_GOP_CLOSED: u16 = 1;
pub const MFX_GOP_STRICT: u16 = 2;

// --- Dispatcher ---
pub const MFX_IMPL_TYPE_HARDWARE: u32 = 2;
pub const MFX_MEDIA_INTEGRATED: u16 = 0;
pub const MFX_MEDIA_DISCRETE: u16 = 1;

/// The status codes have the values that the interface gives them: zero is success, errors are
/// negative, warnings positive.
pub proof fn law_statuses_have_their_values()
    ensures
        MFX_ERR_NONE == 0,
        MFX_ERR_UNKNOWN == -1,
        MFX_ERR_NULL_PTR == -2,
        MFX_ERR_UNSUPPORTED == -3,
        MFX_ERR_MEMORY_ALLOC == -4,
        MFX_ERR_NOT_ENOUGH_BUFFER == -5,
        MFX_ERR_INVALID_HANDLE == -6,
        MFX_ERR_LOCK_MEMORY == -7,
        MFX_ERR_NOT_INITIALIZED == -8,
        MFX_ERR_NOT_FOUND == -9,
        MFX_ERR_MORE_DATA == -10,
        MFX_ERR_MORE_SURFACE == -11,
        MFX_ERR_ABORTED == -12,
        MFX_ERR_DEVICE_LOST == -13,
        MFX_ERR_INCOMPATIBLE_VIDEO_PARAM == -14,
        MFX_ERR_INVALID_VIDEO_PARAM == -15,
        MFX_ERR_UNDEFINED_BEHAVIOR == -16,
        MFX_ERR_DEVICE_FAILED == -17,
        MFX_ERR_MORE_BITSTREAM == -18,
        MFX_ERR_GPU_HANG == -21,
        MFX_ERR_REALLOC_SURFACE == -22,
        MFX_ERR_RESOURCE_MAPPED == -23,
        MFX_ERR_NOT_IMPLEMENTED == -24,
        MFX_ERR_MORE_EXTBUFFER == -25,
        MFX_WRN_IN_EXECUTION == 1,
        MFX_WRN_DEVICE_BUSY == 2,
        MFX_WRN_VIDEO_PARAM_CHANGED == 3,
        MFX_WRN_PARTIAL_ACCELERATION == 4,
        MFX_WRN_INCOMPATIBLE_VIDEO_PARAM == 5,
        MFX_WRN_VALUE_NOT_CHANGED == 6,
        MFX_WRN_OUT_OF_RANGE == 7,
        MFX_WRN_FILTER_SKIPPED == 10,
        MFX_WRN_ALLOC_TIMEOUT_EXPIRED == 13,
{
}

/// The number that four characters make, the first in the lowest byte.
pub open spec fn four_characters(a: char, b: char, c: char, d: char) -> nat {
    (a as u32 + b as u32 * 0x100 + c as u32 * 0x1_0000 + d as u32 * 0x100_0000) as nat
}

/// Codecs and frame formats are numbered by four-character codes.
pub proof fn law_codes_spell_their_names()
    ensures
        MFX_CODEC_AVC == four_characters('A', 'V', 'C', ' '),
        MFX_CODEC_HEVC == four_characters('H', 'E', 'V', 'C'),
        MFX_CODEC_VP9 == four_characters('V', 'P', '9', ' '),
        MFX_CODEC_AV1 == four_characters('A', 'V', '1', ' '),
        MFX_FOURCC_NV12 == four_characters('N', 'V', '1', '2'),
        MFX_FOURCC_YUY2 == four_characters('Y', 'U', 'Y', '2'),
        MFX_FOURCC_RGB4 == four_characters('R', 'G', 'B', '4'),
{
}

/// The other numbers have the values that the interface gives them.
pub proof fn law_numbers_have_their_values()
    ensures
        MFX_CHROMAFORMAT_YUV420 == 1,
        MFX_CHROMAFORMAT_YUV422 == 2,
        MFX_CHROMAFORMAT_YUV444 == 3,
        MFX_PICSTRUCT_PROGRESSIVE == 1,
        MFX_IOPATTERN_IN_SYSTEM_MEMORY == 0x02,
        MFX_IOPATTERN_OUT_SYSTEM_MEMORY == 0x20,
        MFX_MAP_READ == 0x1,
        MFX_MAP_WRITE == 0x2,
        MFX_TARGETUSAGE_BALANCED == 4,
        MFX_CODINGOPTION_UNKNOWN == 0,
        MFX_CODINGOPTION_ON == 0x10,
        MFX_CODINGOPTION_OFF == 0x20,
        MFX_CODINGOPTION_ADAPTIVE == 0x30,
        MFX_RATECONTROL_CBR == 1,
        MFX_RATECONTROL_VBR == 2,
        MFX_RATECONTROL_CQP == 3,
        MFX_RATECONTROL_AVBR == 4,
        MFX_RATECONTROL_LA == 8,
        MFX_RATECONTROL_ICQ == 9,
        MFX_RATECONTROL_VCM == 10,
        MFX_RATECONTROL_LA_ICQ == 11,
        MFX_RATECONTROL_LA_HRD == 13,
        MFX_RATECONTROL_QVBR == 14,
        MFX_FRAMETYPE_I == 0x0001,
        MFX_FRAMETYPE_P == 0x0002,
        MFX_FRAMETYPE_B == 0x0004,
        MFX_FRAMETYPE_S == 0x0008,
        MFX_FRAMETYPE_REF == 0x0040,
        MFX_FRAMETYPE_IDR == 0x0080,
        MFX_GOP_CLOSED == 1,
        MFX_GOP_STRICT == 2,
        MFX_IMPL_TYPE_HARDWARE == 2,
        MFX_MEDIA_INTEGRATED == 0,
        MFX_MEDIA_DISCRETE == 1,
{
}

/// An H.264 profile is numbered by the profile_idc of the standard in the low byte and by the
/// constraint flags above it; the other codecs count their profiles.
pub proof fn law_profiles_have_their_values()
    ensures
        MFX_PROFILE_UNKNOWN == 0,
        MFX_PROFILE_AVC_BASELINE == 66,
        MFX_PROFILE_AVC_MAIN == 77,
        MFX_PROFILE_AVC_HIGH == 100,
        MFX_PROFILE_AVC_HIGH10 == 110,
        MFX_PROFILE_AVC_HIGH_422 == 122,
        MFX_PROFILE_AVC_CONSTRAINED_BASELINE == MFX_PROFILE_AVC_BASELINE + 0x100 * 2,
        MFX_PROFILE_AVC_CONSTRAINED_HIGH == MFX_PROFILE_AVC_HIGH + 0x100 * (16 + 32),
        MFX_PROFILE_HEVC_MAIN == 1,
        MFX_PROFILE_HEVC_MAIN10 == 2,
        MFX_PROFILE_HEVC_MAINSP == 3,
        MFX_PROFILE_HEVC_REXT == 4,
        MFX_PROFILE_HEVC_SCC == 9,
        MFX_PROFILE_VP9_0 == 1,
        MFX_PROFILE_VP9_1 == 2,
        MFX_PROFILE_VP9_2 == 3,
        MFX_PROFILE_VP9_3 == 4,
        MFX_PROFILE_AV1_MAIN == 1,
{
}

} // verus!
