//! Statuses of the library's functions, and surfaces.
use shiguredo_vpl::sys;
use shiguredo_vpl::vpl::FrameSurface;
use shiguredo_vpl::vpl::SurfaceCall;
use shiguredo_vpl::vpl::VplLibrary;
use shiguredo_vpl::Error;

/// A surface together with the calls made on it, each of which succeeds.
struct Driven {
    surface: FrameSurface,
    calls: Vec<SurfaceCall>,
}

impl Driven {
    fn new(address: usize) -> Driven {
        Driven {
            surface: FrameSurface::new(address).expect("FrameSurface::new should succeed"),
            calls: Vec::new(),
        }
    }

    fn map_write(&mut self) -> Result<(), Error> {
        self.calls.push(self.surface.map_write()?);
        self.surface.finish_map(sys::MFX_ERR_NONE)
    }

    fn map_read(&mut self) -> Result<(), Error> {
        self.calls.push(self.surface.map_read()?);
        self.surface.finish_map(sys::MFX_ERR_NONE)
    }

    fn unmap(&mut self) -> Result<(), Error> {
        self.calls.push(self.surface.unmap()?);
        self.surface.finish_unmap(sys::MFX_ERR_NONE)
    }
}

#[test]
fn frame_surface_new_rejects_null() {
    let result = FrameSurface::new(0);
    assert!(result.is_err());
    let error = result.expect_err("a null surface");
    assert_eq!(
        error.to_string(),
        "FrameSurface::new() failed: surface pointer is null"
    );
}

#[test]
fn frame_surface_gpu_required() {
    {
        let mut fs = Driven::new(0x1000);
        fs.map_write()
            .expect("map_write should succeed on a valid surface");
        fs.unmap().expect("unmap should succeed");
        assert_eq!(
            fs.calls,
            vec![
                SurfaceCall::MapPlanes {
                    surface: 0x1000,
                    flags: sys::MFX_MAP_WRITE
                },
                SurfaceCall::Unmap { surface: 0x1000 },
            ]
        );
        assert_eq!(
            fs.surface.give_back(),
            vec![SurfaceCall::Release { surface: 0x1000 }]
        );
    }

    {
        let mut fs = Driven::new(0x1000);
        fs.map_write()
            .expect("first map_write should succeed on a valid surface");
        let result = fs.map_write();
        assert!(result.is_err(), "second map_write should fail");
        fs.unmap().expect("unmap should succeed");
    }

    {
        let mut fs = Driven::new(0x1000);
        fs.map_read()
            .expect("first map_read should succeed on a valid surface");
        let result = fs.map_read();
        assert!(result.is_err(), "second map_read should fail");
        fs.unmap().expect("unmap should succeed");
    }

    {
        let mut fs = Driven::new(0x1000);
        fs.map_write()
            .expect("map_write should succeed on a valid surface");
        fs.unmap().expect("first unmap should succeed");
        let result = fs.unmap();
        assert!(result.is_err(), "second unmap should fail");
    }

    {
        let mut fs = Driven::new(0x1000);
        let result = fs.unmap();
        assert!(result.is_err(), "unmap on a non-mapped surface should fail");
    }
}

#[test]
fn frame_surface_errors_name_the_operation() {
    let mut fs = Driven::new(7);
    assert_eq!(fs.surface.as_ptr(), 7);
    let text = |result: Result<(), Error>| result.expect_err("an error").to_string();
    assert_eq!(
        text(fs.unmap()),
        "FrameSurface::unmap() failed: surface is not mapped"
    );
    fs.map_read().expect("not mapped yet");
    assert_eq!(
        text(fs.map_read()),
        "FrameSurface::map_read() failed: surface is already mapped"
    );
    assert_eq!(
        text(fs.map_write()),
        "FrameSurface::map_write() failed: surface is already mapped"
    );
    assert_eq!(fs.calls.len(), 1, "a refused call is not made");
}

#[test]
fn frame_surface_keeps_its_state_when_a_call_fails() {
    let mut surface = FrameSurface::new(7).expect("not null");
    let error = surface.finish_map(sys::MFX_ERR_LOCK_MEMORY).expect_err("it failed");
    assert_eq!(error.function(), "mfxFrameSurfaceInterface::Map");
    assert!(surface.unmap().is_err());
    surface.finish_map(sys::MFX_ERR_NONE).expect("it succeeded");
    let error = surface.finish_unmap(sys::MFX_ERR_UNKNOWN).expect_err("it failed");
    assert_eq!(error.function(), "mfxFrameSurfaceInterface::Unmap");
    assert_eq!(
        surface.give_back(),
        vec![
            SurfaceCall::Unmap { surface: 7 },
            SurfaceCall::Release { surface: 7 },
        ]
    );
}

#[test]
fn statuses_of_the_functions() {
    let vpl = VplLibrary::load().expect("it is linked in");
    let warning = sys::MFX_WRN_INCOMPATIBLE_VIDEO_PARAM;
    assert!(vpl.mfx_video_encode_init(warning).is_ok());
    assert!(vpl.mfx_video_encode_query(warning).is_ok());
    assert!(vpl.mfx_video_encode_reset(warning).is_ok());
    assert!(vpl.mfx_video_decode_init(warning).is_ok());
    let checked: Vec<(&str, Result<(), Error>)> = vec![
        ("MFXClose", vpl.mfx_close(warning)),
        ("MFXVideoENCODE_Close", vpl.mfx_video_encode_close(warning)),
        (
            "MFXVideoENCODE_GetVideoParam",
            vpl.mfx_video_encode_get_video_param(warning),
        ),
        (
            "MFXVideoENCODE_GetEncodeStat",
            vpl.mfx_video_encode_get_encode_stat(warning),
        ),
        (
            "MFXVideoDECODE_DecodeHeader",
            vpl.mfx_video_decode_decode_header(warning),
        ),
        ("MFXVideoDECODE_Close", vpl.mfx_video_decode_close(warning)),
        (
            "MFXVideoENCODE_Init",
            vpl.mfx_video_encode_init(sys::MFX_ERR_INVALID_VIDEO_PARAM),
        ),
        (
            "MFXVideoENCODE_Query",
            vpl.mfx_video_encode_query(sys::MFX_ERR_UNSUPPORTED),
        ),
        (
            "MFXVideoENCODE_Reset",
            vpl.mfx_video_encode_reset(sys::MFX_ERR_UNSUPPORTED),
        ),
        (
            "MFXVideoDECODE_Init",
            vpl.mfx_video_decode_init(sys::MFX_ERR_UNSUPPORTED),
        ),
    ];
    for (function, result) in checked {
        let error = result.expect_err(function);
        assert_eq!(error.function(), function);
    }
}
