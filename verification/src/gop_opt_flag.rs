//! Flags of `mfxInfoMFX.GopOptFlag`, to be combined by bitwise OR in
//! `EncoderConfig::gop_opt_flag`.
use vstd::prelude::*;

use crate::sys;

verus! {

/// Closed GOP: no frame refers to one of the GOP before.
pub const CLOSED: u16 = sys::MFX_GOP_CLOSED;

/// Strict GOP: the encoder does not change frame types.
pub const STRICT: u16 = sys::MFX_GOP_STRICT;

} // verus!
