//! The functions of the VPL library: what their statuses mean, and the surfaces that they hand out.
use vstd::prelude::*;

use crate::adapter::AdapterSelector;
use crate::error::answer;
use crate::error::check;
use crate::error::check_allow_warn;
use crate::error::Error;
use crate::error::ErrorView;
use crate::loader::session_start;
use crate::loader::LoaderCall;
use crate::loader::SessionSetup;
use crate::loader::SessionStage;
use crate::sys;

verus! {

/// The VPL library. Its methods say what to make of the status that a function of it returned.
#[derive(Debug, Clone, Copy, PartialEq, Eq, Structural)]
pub struct VplLibrary;

impl VplLibrary {
    /// The library is linked in, so it is always there.
    pub fn load() -> (r: Result<VplLibrary, Error>)
        ensures
            r == Ok::<VplLibrary, Error>(VplLibrary),
    {
        Ok(VplLibrary)
    }

    /// Starts to open a session on `adapter`. An adapter that cannot be meant is refused before the
    /// dispatcher is asked anything.
    pub fn create_session(&self, adapter: AdapterSelector) -> (r: Result<
        (SessionSetup, LoaderCall),
        Error,
    >)
        ensures
            answer(r) == session_start(adapter),
    {
        match adapter.validate() {
            Ok(()) => {
                let AdapterSelector::DrmRenderNode(render_node) = adapter;
                Ok((SessionSetup { render_node, stage: SessionStage::Load }, LoaderCall::Load))
            },
            Err(error) => Err(error),
        }
    }

    /// `MFXClose`.
    pub fn mfx_close(&self, status: i32) -> (r: Result<(), Error>)
        ensures
            answer(r) == check(status, "MFXClose"@),
    {
        Error::check_mfx(status, "MFXClose")
    }

    /// `MFXVideoENCODE_Init`. A warning comes with an initialised encoder.
    pub fn mfx_video_encode_init(&self, status: i32) -> (r: Result<(), Error>)
        ensures
            answer(r) == check_allow_warn(status, "MFXVideoENCODE_Init"@),
    {
        Error::check_mfx_allow_warn(status, "MFXVideoENCODE_Init")
    }

    /// `MFXVideoENCODE_Close`.
    pub fn mfx_video_encode_close(&self, status: i32) -> (r: Result<(), Error>)
        ensures
            answer(r) == check(status, "MFXVideoENCODE_Close"@),
    {
        Error::check_mfx(status, "MFXVideoENCODE_Close")
    }

    /// `MFXVideoENCODE_Query`. A warning comes with corrected parameters.
    pub fn mfx_video_encode_query(&self, status: i32) -> (r: Result<(), Error>)
        ensures
            answer(r) == check_allow_warn(status, "MFXVideoENCODE_Query"@),
    {
        Error::check_mfx_allow_warn(status, "MFXVideoENCODE_Query")
    }

    /// `MFXVideoENCODE_Reset`. A warning comes with a reset encoder.
    pub fn mfx_video_encode_reset(&self, status: i32) -> (r: Result<(), Error>)
        ensures
            answer(r) == check_allow_warn(status, "MFXVideoENCODE_Reset"@),
    {
        Error::check_mfx_allow_warn(status, "MFXVideoENCODE_Reset")
    }

    /// `MFXVideoENCODE_GetVideoParam`.
    pub fn mfx_video_encode_get_video_param(&self, status: i32) -> (r: Result<(), Error>)
        ensures
            answer(r) == check(status, "MFXVideoENCODE_GetVideoParam"@),
    {
        Error::check_mfx(status, "MFXVideoENCODE_GetVideoParam")
    }

    /// `MFXVideoENCODE_GetEncodeStat`.
    pub fn mfx_video_encode_get_encode_stat(&self, status: i32) -> (r: Result<(), Error>)
        ensures
            answer(r) == check(status, "MFXVideoENCODE_GetEncodeStat"@),
    {
        Error::check_mfx(status, "MFXVideoENCODE_GetEncodeStat")
    }

    /// `MFXVideoDECODE_DecodeHeader`.
    pub fn mfx_video_decode_decode_header(&self, status: i32) -> (r: Result<(), Error>)
        ensures
            answer(r) == check(status, "MFXVideoDECODE_DecodeHeader"@),
    {
        Error::check_mfx(status, "MFXVideoDECODE_DecodeHeader")
    }

    /// `MFXVideoDECODE_Init`. A warning comes with an initialised decoder.
    pub fn mfx_video_decode_init(&self, status: i32) -> (r: Result<(), Error>)
        ensures
            answer(r) == check_allow_warn(status, "MFXVideoDECODE_Init"@),
    {
        Error::check_mfx_allow_warn(status, "MFXVideoDECODE_Init")
    }

    /// `MFXVideoDECODE_Close`.
    pub fn mfx_video_decode_close(&self, status: i32) -> (r: Result<(), Error>)
        ensures
            answer(r) == check(status, "MFXVideoDECODE_Close"@),
    {
        Error::check_mfx(status, "MFXVideoDECODE_Close")
    }
}

/// A call of a surface's `mfxFrameSurfaceInterface`.
#[derive(Debug, Clone, Copy, PartialEq, Eq, Structural)]
pub enum SurfaceCall {
    /// `Map` with these flags.
    MapPlanes { surface: usize, flags: u32 },
    /// `Unmap`.
    Unmap { surface: usize },
    /// `Release`.
    Release { surface: usize },
}

/// A surface that the library handed out.
///
/// Mapping and unmapping take two steps: the first names the call, or refuses it; the second takes
/// the status that the call returned.
#[derive(Debug, PartialEq, Eq, Structural)]
pub struct FrameSurface {
    surface: usize,
    mapped: bool,
}

/// The state of a [`FrameSurface`].
pub struct SurfaceView {
    pub address: usize,
    pub mapped: bool,
}

impl View for FrameSurface {
    type V = SurfaceView;

    closed spec fn view(&self) -> SurfaceView {
        SurfaceView { address: self.surface, mapped: self.mapped }
    }
}

impl SurfaceView {
    /// The calls that give the surface back. Their statuses are of no consequence.
    pub open spec fn giving_back(self) -> Seq<SurfaceCall> {
        if self.mapped {
            seq![
                SurfaceCall::Unmap { surface: self.address },
                SurfaceCall::Release { surface: self.address },
            ]
        } else {
            seq![SurfaceCall::Release { surface: self.address }]
        }
    }
}

impl FrameSurface {
    #[verifier::type_invariant]
    spec fn inv(self) -> bool {
        self.surface != 0
    }

    /// Takes charge of the surface at this address. A null address is refused.
    pub fn new(surface: usize) -> (r: Result<FrameSurface, Error>)
        ensures
            match r {
                Ok(taken) => surface != 0 && taken@.address == surface && !taken@.mapped,
                Err(error) => surface == 0 && error@ == ErrorView::custom(
                    "FrameSurface::new"@,
                    "surface pointer is null"@,
                ),
            },
    {
        if surface == 0 {
            return Err(Error::new_custom("FrameSurface::new", "surface pointer is null"));
        }
        Ok(FrameSurface { surface, mapped: false })
    }

    /// The address of the surface, which is not null.
    pub fn as_ptr(&self) -> (r: usize)
        ensures
            r == self@.address,
            r != 0,
    {
        proof {
            use_type_invariant(self);
        }
        self.surface
    }

    /// Names the call that maps the surface for writing. A mapped surface is refused.
    pub fn map_write(&self) -> (r: Result<SurfaceCall, Error>)
        ensures
            answer(r) == (if self@.mapped {
                Err(
                    ErrorView::custom("FrameSurface::map_write"@, "surface is already mapped"@),
                )
            } else {
                Ok(SurfaceCall::MapPlanes { surface: self@.address, flags: sys::MFX_MAP_WRITE })
            }),
    {
        if self.mapped {
            return Err(Error::new_custom("FrameSurface::map_write", "surface is already mapped"));
        }
        Ok(SurfaceCall::MapPlanes { surface: self.surface, flags: sys::MFX_MAP_WRITE })
    }

    /// Names the call that maps the surface for reading. A mapped surface is refused.
    pub fn map_read(&self) -> (r: Result<SurfaceCall, Error>)
        ensures
            answer(r) == (if self@.mapped {
                Err(ErrorView::custom("FrameSurface::map_read"@, "surface is already mapped"@))
            } else {
                Ok(SurfaceCall::MapPlanes { surface: self@.address, flags: sys::MFX_MAP_READ })
            }),
    {
        if self.mapped {
            return Err(Error::new_custom("FrameSurface::map_read", "surface is already mapped"));
        }
        Ok(SurfaceCall::MapPlanes { surface: self.surface, flags: sys::MFX_MAP_READ })
    }

    /// Takes the status of the mapping call. The surface is mapped if it succeeded.
    pub fn finish_map(&mut self, status: i32) -> (r: Result<(), Error>)
        ensures
            answer(r) == check(status, "mfxFrameSurfaceInterface::Map"@),
            final(self)@.address == old(self)@.address,
            final(self)@.mapped == (old(self)@.mapped || status == sys::MFX_ERR_NONE),
    {
        let checked = Error::check_mfx(status, "mfxFrameSurfaceInterface::Map");
        if checked.is_ok() {
            proof {
                use_type_invariant(&*self);
            }
            self.mapped = true;
        }
        checked
    }

    /// Names the call that unmaps the surface. A surface that is not mapped is refused.
    pub fn unmap(&self) -> (r: Result<SurfaceCall, Error>)
        ensures
            answer(r) == (if self@.mapped {
                Ok(SurfaceCall::Unmap { surface: self@.address })
            } else {
                Err(ErrorView::custom("FrameSurface::unmap"@, "surface is not mapped"@))
            }),
    {
        if !self.mapped {
            return Err(Error::new_custom("FrameSurface::unmap", "surface is not mapped"));
        }
        Ok(SurfaceCall::Unmap { surface: self.surface })
    }

    /// Takes the status of the unmapping call. The surface is mapped no more if it succeeded.
    pub fn finish_unmap(&mut self, status: i32) -> (r: Result<(), Error>)
        ensures
            answer(r) == check(status, "mfxFrameSurfaceInterface::Unmap"@),
            final(self)@.address == old(self)@.address,
            final(self)@.mapped == (old(self)@.mapped && status != sys::MFX_ERR_NONE),
    {
        let checked = Error::check_mfx(status, "mfxFrameSurfaceInterface::Unmap");
        if checked.is_ok() {
            proof {
                use_type_invariant(&*self);
            }
            self.mapped = false;
        }
        checked
    }

    /// Names the calls that give the surface back: it is unmapped if it is mapped, then released.
    pub fn give_back(&self) -> (r: Vec<SurfaceCall>)
        ensures
            r@ == self@.giving_back(),
    {
        if self.mapped {
            vec![
                SurfaceCall::Unmap { surface: self.surface },
                SurfaceCall::Release { surface: self.surface },
            ]
        } else {
            vec![SurfaceCall::Release { surface: self.surface }]
        }
    }
}

/// Giving a surface back releases it once, as the last call, and never while it is mapped.
pub proof fn law_surface_is_released_once_and_unmapped(surface: SurfaceView)
    ensures
        surface.giving_back().len() > 0,
        surface.giving_back().last() == (SurfaceCall::Release { surface: surface.address }),
        forall|i: int|
            0 <= i < surface.giving_back().len() - 1 ==> (#[trigger] surface.giving_back()[i])
                == (SurfaceCall::Unmap { surface: surface.address }),
        surface.giving_back().len() == 2 <==> surface.mapped,
{
}

} // verus!
