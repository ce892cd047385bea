//! Frame types of `mfxEncodeCtrl.FrameType`, to be combined by bitwise OR in
//! `EncodeOptions::frame_type`.
use vstd::prelude::*;

use crate::sys;

verus! {

/// No frame type: the encoder decides.
pub const UNKNOWN: u16 = 0;

/// I frame.
pub const I: u16 = sys::MFX_FRAMETYPE_I;

/// P frame.
pub const P: u16 = sys::MFX_FRAMETYPE_P;

/// B frame.
pub const B: u16 = sys::MFX_FRAMETYPE_B;

/// S frame (skip frame).
pub const S: u16 = sys::MFX_FRAMETYPE_S;

/// Reference frame.
pub const REF: u16 = sys::MFX_FRAMETYPE_REF;

/// IDR frame.
pub const IDR: u16 = sys::MFX_FRAMETYPE_IDR;

} // verus!
