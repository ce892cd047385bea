//! Encoding and decoding, against a simulated device that keeps every pixel.
use std::collections::HashMap;
use std::collections::VecDeque;
use std::sync::mpsc;

use shiguredo_vpl::adapter::ScanProgress;
use shiguredo_vpl::decode::DecodeStart;
use shiguredo_vpl::decode::DrainProgress;
use shiguredo_vpl::decode::FeedCall;
use shiguredo_vpl::decode::FeedProgress;
use shiguredo_vpl::decode::FeedReply;
use shiguredo_vpl::decode_worker;
use shiguredo_vpl::decode_worker::DecodeSyncData;
use shiguredo_vpl::decode_worker::SurfaceInfo;
use shiguredo_vpl::encode::DriverReply;
use shiguredo_vpl::encode::EncodeCall;
use shiguredo_vpl::encode::EncodeProgress;
use shiguredo_vpl::encode::FinishCall;
use shiguredo_vpl::encode::FinishProgress;
use shiguredo_vpl::encode::QueueProgress;
use shiguredo_vpl::encode_worker;
use shiguredo_vpl::encode_worker::SyncData;
use shiguredo_vpl::frame_type;
use shiguredo_vpl::loader::DeviceId;
use shiguredo_vpl::loader::Handle;
use shiguredo_vpl::loader::ImplDescription;
use shiguredo_vpl::loader::LoaderCall;
use shiguredo_vpl::loader::LoaderReply;
use shiguredo_vpl::loader::SessionProgress;
use shiguredo_vpl::loader::SessionSetup;
use shiguredo_vpl::param::VideoParam;
use shiguredo_vpl::sys;
use shiguredo_vpl::vpl::FrameSurface;
use shiguredo_vpl::vpl::SurfaceCall;
use shiguredo_vpl::AdapterSelector;
use shiguredo_vpl::Av1EncoderConfig;
use shiguredo_vpl::Av1Profile;
use shiguredo_vpl::CodecConfig;
use shiguredo_vpl::DecodeHandler;
use shiguredo_vpl::DecodedFrame;
use shiguredo_vpl::DecoderCodec;
use shiguredo_vpl::DecoderConfig;
use shiguredo_vpl::EncodeHandler;
use shiguredo_vpl::EncodeOptions;
use shiguredo_vpl::EncodedFrame;
use shiguredo_vpl::EncoderConfig;
use shiguredo_vpl::Error;
use shiguredo_vpl::FnDecodeHandler;
use shiguredo_vpl::FnEncodeHandler;
use shiguredo_vpl::FrameFormat;
use shiguredo_vpl::H264EncoderConfig;
use shiguredo_vpl::H264Profile;
use shiguredo_vpl::HevcEncoderConfig;
use shiguredo_vpl::HevcProfile;
use shiguredo_vpl::PictureType;
use shiguredo_vpl::RateControlMode;
use shiguredo_vpl::Vp9EncoderConfig;
use shiguredo_vpl::Vp9Profile;

// ---------------------------------------------------------------------------
// The dispatcher
// ---------------------------------------------------------------------------

/// The replies of a dispatcher with one implementation, on render node 128.
fn dispatch(call: LoaderCall) -> LoaderReply {
    let none = sys::MFX_ERR_NONE;
    match call {
        LoaderCall::EnumDescription(0) => LoaderReply {
            status: none,
            handle: Handle::Description(ImplDescription {
                impl_name: b"simulated".to_vec(),
                media_adapter_type: sys::MFX_MEDIA_DISCRETE,
                decoders: None,
                encoders: None,
            }),
        },
        LoaderCall::EnumDescription(_) => LoaderReply {
            status: sys::MFX_ERR_NOT_FOUND,
            handle: Handle::Null,
        },
        LoaderCall::EnumDevice(_) => LoaderReply {
            status: none,
            handle: Handle::Device(DeviceId {
                drm_render_node: 128,
                device_name: b"simulated".to_vec(),
                device_id: 1,
                pci_domain: 0,
                pci_bus: 0,
                pci_device: 2,
                pci_function: 0,
            }),
        },
        _ => LoaderReply {
            status: none,
            handle: Handle::Opaque,
        },
    }
}

fn test_adapter() -> AdapterSelector {
    let (scan, call) = shiguredo_vpl::list_adapters();
    let mut at = ScanProgress::Call(scan, call);
    loop {
        match at {
            ScanProgress::Call(scan, call) => at = scan.step(dispatch(call)),
            ScanProgress::Done(adapters) => {
                let first = adapters.first().expect("Intel HW アダプタが見つからない");
                return AdapterSelector::DrmRenderNode(first.drm_render_node);
            }
            ScanProgress::Failed(failure) => panic!("{}", failure.error().to_string()),
        }
    }
}

fn open_session(setup: SessionSetup, call: LoaderCall) -> Result<(), Error> {
    let node = setup.render_node;
    assert_eq!(node, 128);
    let mut at = SessionProgress::Call(setup, call);
    loop {
        match at {
            SessionProgress::Call(setup, call) => at = setup.step(&dispatch(call)),
            SessionProgress::Created => return Ok(()),
            SessionProgress::Failed(failure) => return Err(failure.error(node)),
        }
    }
}

// ---------------------------------------------------------------------------
// The device
// ---------------------------------------------------------------------------

/// The surfaces of a device, which have to come back unmapped.
#[derive(Default)]
struct Surfaces {
    next: usize,
    live: HashMap<usize, Surface>,
}

#[derive(Default, Clone)]
struct Surface {
    mapped: bool,
    time_stamp: u64,
    pitch: usize,
    crop: (usize, usize),
    primary: Vec<u8>,
    chroma: Vec<u8>,
}

impl Surfaces {
    fn take(&mut self, surface: Surface) -> usize {
        self.next += 0x100;
        self.live.insert(self.next, surface);
        self.next
    }

    fn call(&mut self, call: SurfaceCall) -> i32 {
        match call {
            SurfaceCall::MapPlanes { surface, .. } => {
                let surface = self.live.get_mut(&surface).expect("a live surface");
                assert!(!surface.mapped);
                surface.mapped = true;
            }
            SurfaceCall::Unmap { surface } => {
                let surface = self.live.get_mut(&surface).expect("a live surface");
                assert!(surface.mapped);
                surface.mapped = false;
            }
            SurfaceCall::Release { surface } => {
                let surface = self.live.remove(&surface).expect("a live surface");
                assert!(!surface.mapped);
            }
        }
        sys::MFX_ERR_NONE
    }

    fn give_back(&mut self, surface: &FrameSurface) {
        for call in surface.give_back() {
            self.call(call);
        }
    }
}

/// A picture in the simulated bitstream: its number, its sizes and its NV12 planes.
#[derive(Clone)]
struct Picture {
    number: u64,
    frame_type: u16,
    coded: (usize, usize),
    crop: (usize, usize),
    nv12: Vec<u8>,
}

impl Picture {
    fn write(&self) -> Vec<u8> {
        let mut out = b"PICT".to_vec();
        out.extend(self.number.to_le_bytes());
        for size in [self.coded.0, self.coded.1, self.crop.0, self.crop.1] {
            out.extend((size as u16).to_le_bytes());
        }
        out.extend(&self.nv12);
        out
    }

    fn read(data: &[u8]) -> Picture {
        assert!(data.starts_with(b"PICT"), "not a picture");
        let mut number = [0u8; 8];
        number.copy_from_slice(&data[4..12]);
        let size = |i: usize| u16::from_le_bytes([data[12 + 2 * i], data[13 + 2 * i]]) as usize;
        Picture {
            number: u64::from_le_bytes(number),
            frame_type: 0,
            coded: (size(0), size(1)),
            crop: (size(2), size(3)),
            nv12: data[20..].to_vec(),
        }
    }
}

/// The encoding side of the device. It is busy at every fourth submission, keeps back frames for B
/// pictures, and gives one output at a time.
struct EncoderDevice {
    param: VideoParam,
    ivf: bool,
    surfaces: Surfaces,
    held: Vec<Picture>,
    ready: VecDeque<Picture>,
    outputs: HashMap<usize, Picture>,
    next_output: usize,
    submissions: usize,
    written: usize,
}

impl EncoderDevice {
    fn new(param: VideoParam) -> EncoderDevice {
        EncoderDevice {
            param,
            ivf: param.write_ivf_headers == Some(sys::MFX_CODINGOPTION_ON),
            surfaces: Surfaces::default(),
            held: Vec::new(),
            ready: VecDeque::new(),
            outputs: HashMap::new(),
            next_output: 1,
            submissions: 0,
            written: 0,
        }
    }

    fn coded(&self) -> (usize, usize) {
        (
            self.param.frame_info.width as usize,
            self.param.frame_info.height as usize,
        )
    }

    fn get_surface(&mut self, format: FrameFormat) -> usize {
        let (width, height) = self.coded();
        let pitch = width * format.bytes_per_row_pixel() + 32;
        self.surfaces.take(Surface {
            pitch,
            primary: vec![0xee; pitch * height],
            chroma: vec![0xee; pitch * height / 2],
            ..Surface::default()
        })
    }

    /// The picture in a surface. Packed pixels are reduced to their second byte.
    fn picture(&self, surface: &Surface, format: FrameFormat) -> Picture {
        let (width, height) = self.coded();
        let mut nv12 = Vec::new();
        for row in 0..height {
            for x in 0..width {
                nv12.push(match format {
                    FrameFormat::Nv12 => surface.primary[row * surface.pitch + x],
                    FrameFormat::Yuy2 => surface.primary[row * surface.pitch + 2 * x],
                    FrameFormat::Bgra => surface.primary[row * surface.pitch + 4 * x + 1],
                });
            }
        }
        for row in 0..height / 2 {
            for x in 0..width {
                nv12.push(match format {
                    FrameFormat::Nv12 => surface.chroma[row * surface.pitch + x],
                    _ => 128,
                });
            }
        }
        Picture {
            number: surface.time_stamp,
            frame_type: 0,
            coded: (width, height),
            crop: (
                self.param.frame_info.crop_w as usize,
                self.param.frame_info.crop_h as usize,
            ),
            nv12,
        }
    }

    fn flush_held(&mut self) {
        for mut picture in std::mem::take(&mut self.held) {
            picture.frame_type = frame_type::P | frame_type::REF;
            self.ready.push_back(picture);
        }
    }

    fn submit(&mut self, surface: usize, format: FrameFormat, forced: Option<u16>) -> DriverReply {
        self.submissions += 1;
        if self.submissions % 4 == 0 {
            return driver_reply(sys::MFX_WRN_DEVICE_BUSY, 0);
        }
        let distance = self.param.gop_ref_dist as usize;
        let mut delay = distance - 1;
        if surface == 0 {
            self.flush_held();
            delay = 0;
        } else {
            let content = self.surfaces.live[&surface].clone();
            assert!(!content.mapped);
            let mut picture = self.picture(&content, format);
            if picture.number == 0 || forced.is_some() {
                self.flush_held();
                picture.frame_type = forced.unwrap_or(
                    frame_type::IDR | frame_type::I | frame_type::REF,
                );
                self.ready.push_back(picture);
            } else {
                self.held.push(picture);
                if self.held.len() == distance {
                    let mut last = self.held.pop().expect("just pushed");
                    last.frame_type = frame_type::P | frame_type::REF;
                    self.ready.push_back(last);
                    for mut picture in std::mem::take(&mut self.held) {
                        picture.frame_type = frame_type::B;
                        self.ready.push_back(picture);
                    }
                }
            }
        }
        if self.held.len() + self.ready.len() <= delay {
            return driver_reply(sys::MFX_ERR_MORE_DATA, 0);
        }
        match self.ready.pop_front() {
            Some(picture) => {
                let sync_point = self.next_output;
                self.next_output += 1;
                self.outputs.insert(sync_point, picture);
                driver_reply(sys::MFX_ERR_NONE, sync_point)
            }
            None => driver_reply(sys::MFX_ERR_MORE_DATA, 0),
        }
    }

    /// The output at a sync point, written to `buffer`.
    fn sync(&mut self, sync_point: usize, mut buffer: Vec<u8>) -> SyncData {
        let picture = self.outputs.remove(&sync_point).expect("a known sync point");
        let mut data = Vec::new();
        if self.ivf {
            if self.written == 0 {
                data.extend(b"DKIF");
                data.resize(32, 0);
            }
            data.extend([0u8; 12]);
        }
        self.written += 1;
        data.extend(picture.write());
        let data_offset = 16;
        buffer[data_offset..data_offset + data.len()].copy_from_slice(&data);
        SyncData {
            sync_point,
            status: sys::MFX_ERR_NONE,
            data_offset: data_offset as u32,
            data_length: data.len() as u32,
            time_stamp: picture.number,
            frame_type: picture.frame_type,
            buffer,
        }
    }
}

fn driver_reply(status: i32, handle: usize) -> DriverReply {
    DriverReply {
        status,
        handle,
        accepted: true,
    }
}

/// The decoding side of the device. It is short of surfaces at every fourth submission, and gives
/// pictures in the order of their numbers.
#[derive(Default)]
struct DecoderDevice {
    surfaces: Surfaces,
    held: Vec<(u64, Picture)>,
    submissions: usize,
    pauses: usize,
}

impl DecoderDevice {
    fn submit(&mut self, input: Option<(u64, &[u8])>) -> FeedReply {
        self.submissions += 1;
        if self.submissions % 4 == 0 {
            let left = input.map_or(0, |(_, data)| data.len());
            return feed_reply(sys::MFX_ERR_MORE_SURFACE, 0, 0, left);
        }
        let delay = match input {
            Some((time_stamp, data)) => {
                self.held.push((time_stamp, Picture::read(data)));
                2
            }
            None => {
                self.pauses += 1;
                if self.pauses == 1 {
                    return feed_reply(sys::MFX_WRN_ALLOC_TIMEOUT_EXPIRED, 0, 0, 0);
                }
                0
            }
        };
        if self.held.len() <= delay {
            return feed_reply(sys::MFX_ERR_MORE_DATA, 0, 0, 0);
        }
        let mut first = 0;
        for i in 0..self.held.len() {
            if self.held[i].1.number < self.held[first].1.number {
                first = i;
            }
        }
        let (time_stamp, picture) = self.held.remove(first);
        let (width, height) = picture.coded;
        let pitch = width + 64;
        let mut surface = Surface {
            time_stamp,
            pitch,
            crop: picture.crop,
            ..Surface::default()
        };
        for row in picture.nv12.chunks(width) {
            let plane = if surface.primary.len() < pitch * height {
                &mut surface.primary
            } else {
                &mut surface.chroma
            };
            plane.extend(row);
            plane.extend([0u8; 64]);
        }
        let surface = self.surfaces.take(surface);
        feed_reply(sys::MFX_ERR_NONE, surface + 1, surface, 0)
    }
}

fn feed_reply(status: i32, sync_point: usize, surface: usize, left: usize) -> FeedReply {
    FeedReply {
        status,
        sync_point,
        surface,
        data_length: left as u32,
        accepted: true,
    }
}

// ---------------------------------------------------------------------------
// Encoder and decoder on that device
// ---------------------------------------------------------------------------

struct Encoder<H: EncodeHandler> {
    core: shiguredo_vpl::Encoder,
    format: FrameFormat,
    device: EncoderDevice,
    worker: encode_worker::SyncWorker<H::UserData>,
    handler: H,
}

impl<H: EncodeHandler> Encoder<H> {
    fn new(config: EncoderConfig, handler: H) -> Result<Self, Error> {
        let (plan, setup, call) = shiguredo_vpl::Encoder::new(&config)?;
        open_session(setup, call)?;
        let param = plan.init_param();
        let device = EncoderDevice::new(param);
        let (reading, mut block) = plan
            .initialized(sys::MFX_WRN_INCOMPATIBLE_VIDEO_PARAM, param)
            .map_err(|failure| failure.error)?;
        // The device reports what it was given.
        if block.write_ivf_headers.is_some() {
            block.write_ivf_headers = param.write_ivf_headers;
        }
        let ready = reading
            .read_back(sys::MFX_ERR_NONE, block)
            .map_err(|failure| failure.error)?;
        let core = ready.started(None).map_err(|failure| failure.error)?;
        Ok(Encoder {
            core,
            format: config.frame_format,
            device,
            worker: encode_worker::SyncWorker::new(),
            handler,
        })
    }

    fn coded_size(&self) -> (usize, usize) {
        self.core.coded_size()
    }

    fn write_ivf_headers(&self) -> bool {
        self.core.write_ivf_headers()
    }

    fn command(
        &mut self,
        command: encode_worker::WorkerCommand<H::UserData>,
    ) -> Option<Result<(), Error>> {
        let output = self.worker.handle(command);
        for notice in output.notices {
            self.handler.on_encoded(notice.map_err(Into::into));
        }
        output.reply
    }

    fn sync(&mut self, sync_point: usize) {
        let sync = self.device.sync(sync_point, self.core.create_bitstream());
        self.command(encode_worker::WorkerCommand::Sync(sync));
    }

    fn answer(&mut self, call: EncodeCall, frame_data: &[u8]) -> DriverReply {
        match call {
            EncodeCall::GetSurface => {
                let surface = self.device.get_surface(self.format);
                driver_reply(sys::MFX_ERR_NONE, surface)
            }
            EncodeCall::Surface(call) => driver_reply(self.device.surfaces.call(call), 0),
            EncodeCall::Fill {
                surface,
                time_stamp,
            } => {
                let surface = self
                    .device
                    .surfaces
                    .live
                    .get_mut(&surface)
                    .expect("a live surface");
                assert!(surface.mapped);
                surface.time_stamp = time_stamp;
                self.core.fill(
                    frame_data,
                    &mut surface.primary,
                    &mut surface.chroma,
                    surface.pitch,
                );
                driver_reply(sys::MFX_ERR_NONE, 0)
            }
            EncodeCall::Submit {
                surface,
                frame_type,
            } => self.device.submit(surface, self.format, frame_type),
            EncodeCall::Wait => driver_reply(sys::MFX_ERR_NONE, 0),
        }
    }

    fn encode(
        &mut self,
        frame_data: &[u8],
        user_data: H::UserData,
        options: &EncodeOptions,
    ) -> Result<(), Error> {
        let (run, call) = self.core.encode(frame_data, user_data, options)?;
        let mut at = EncodeProgress::Call(run, call);
        let queue = loop {
            match at {
                EncodeProgress::Call(run, call) => at = run.step(self.answer(call, frame_data)),
                EncodeProgress::Queue(queue, frame_seq, pending_frame) => {
                    self.command(encode_worker::WorkerCommand::QueueFrame {
                        frame_seq,
                        pending_frame,
                    });
                    break queue;
                }
                EncodeProgress::Failed(error, surface) => {
                    if let Some(surface) = surface {
                        self.device.surfaces.give_back(&surface);
                    }
                    return Err(error);
                }
            }
        };
        let mut at = queue.queued(true);
        loop {
            match at {
                QueueProgress::Sync(sync, sync_point) => {
                    self.sync(sync_point);
                    at = sync.sent(true);
                }
                QueueProgress::Accepted(surface) => {
                    self.device.surfaces.give_back(&surface);
                    return self.core.frame_accepted();
                }
                QueueProgress::Failed(error, surface) => {
                    self.device.surfaces.give_back(&surface);
                    return Err(error);
                }
            }
        }
    }

    fn finish(&mut self) -> Result<(), Error> {
        let (run, call) = self.core.finish();
        let mut at = FinishProgress::Call(run, call);
        loop {
            match at {
                FinishProgress::Call(run, call) => {
                    let reply = match call {
                        FinishCall::Submit => self.device.submit(0, self.format, None),
                        FinishCall::Wait => driver_reply(sys::MFX_ERR_NONE, 0),
                        FinishCall::Sync { sync_point } => {
                            self.sync(sync_point);
                            driver_reply(sys::MFX_ERR_NONE, 0)
                        }
                    };
                    at = run.step(reply);
                }
                FinishProgress::WaitIdle => {
                    let reply = self.command(encode_worker::WorkerCommand::WaitIdle);
                    return self.core.finish_idle(true, reply);
                }
                FinishProgress::Failed(error) => return Err(error),
            }
        }
    }
}

impl<H: EncodeHandler> Drop for Encoder<H> {
    fn drop(&mut self) {
        self.command(encode_worker::WorkerCommand::Stop);
        assert!(self.device.surfaces.live.is_empty(), "every surface came back");
    }
}

struct Decoder<H: DecodeHandler> {
    core: shiguredo_vpl::Decoder,
    device: DecoderDevice,
    worker: decode_worker::SyncWorker<H::UserData>,
    handler: H,
}

impl<H: DecodeHandler> Decoder<H> {
    fn new(config: DecoderConfig, handler: H) -> Result<Self, Error> {
        let (plan, setup, call) = shiguredo_vpl::Decoder::new(&config)?;
        open_session(setup, call)?;
        Ok(Decoder {
            core: plan.started(None)?,
            device: DecoderDevice::default(),
            worker: decode_worker::SyncWorker::new(),
            handler,
        })
    }

    fn command(
        &mut self,
        command: decode_worker::WorkerCommand<H::UserData>,
        planes: (&[u8], &[u8]),
    ) -> Option<Result<(), Error>> {
        let output = self.worker.handle(command);
        for notice in output.notices {
            match notice {
                Ok(decoded) => {
                    let y = &planes.0[..decoded.layout.y_size];
                    let uv = &planes.1[..decoded.layout.uv_size];
                    let frame = DecodedFrame::from_planes(y, uv, decoded);
                    self.handler.on_decoded(Ok(frame));
                }
                Err(error) => self.handler.on_decoded(Err(error.into())),
            }
        }
        output.reply
    }

    /// Waits for an output, maps its surface, has the worker look at it, and gives it back.
    fn sync(&mut self, sync_point: usize, address: usize) {
        let mut surface = FrameSurface::new(address).expect("an output has a surface");
        let map = surface.map_read().expect("it is not mapped");
        let map_status = self.device.surfaces.call(map);
        surface.finish_map(map_status).expect("it can be mapped");
        let content = self.device.surfaces.live[&address].clone();
        let sync = DecodeSyncData {
            sync_point,
            sync_status: sys::MFX_ERR_NONE,
            map_status,
            surface: SurfaceInfo {
                time_stamp: content.time_stamp,
                crop_w: content.crop.0 as u16,
                crop_h: content.crop.1 as u16,
                pitch: content.pitch as u16,
                y_null: false,
                uv_null: false,
            },
        };
        self.command(
            decode_worker::WorkerCommand::Sync(sync),
            (&content.primary, &content.chroma),
        );
        self.device.surfaces.give_back(&surface);
    }

    fn answer(&mut self, call: FeedCall, input: Option<(u64, &[u8])>) -> FeedReply {
        match call {
            FeedCall::Submit => self.device.submit(input),
            FeedCall::Wait => feed_reply(sys::MFX_ERR_NONE, 0, 0, 0),
            FeedCall::Sync {
                sync_point,
                surface,
            } => {
                self.sync(sync_point, surface);
                feed_reply(sys::MFX_ERR_NONE, 0, 0, 0)
            }
        }
    }

    fn decode(&mut self, data: &[u8], user_data: H::UserData) -> Result<(), Error> {
        let input = match self.core.decode(data, user_data)? {
            DecodeStart::Header(run, block) => {
                let (run, _) = run.parsed(sys::MFX_ERR_NONE, block, data.len() as u32)?;
                run.initialized(&mut self.core, sys::MFX_WRN_PARTIAL_ACCELERATION)?
            }
            DecodeStart::Queue(input) => input,
        };
        let frame_seq = input.frame_seq;
        self.command(
            decode_worker::WorkerCommand::QueueFrame {
                frame_seq,
                user_data: input.user_data,
            },
            (&[], &[]),
        );
        let queued = feed_reply(sys::MFX_ERR_NONE, 0, 0, 0);
        let mut at = input.run.step(&mut self.core, queued);
        loop {
            match at {
                FeedProgress::Call(run, call) => {
                    let reply = self.answer(call, Some((frame_seq, data)));
                    at = run.step(&mut self.core, reply);
                }
                FeedProgress::Done => return Ok(()),
                FeedProgress::Failed(error, _) => return Err(error),
            }
        }
    }

    fn finish(&mut self) -> Result<(), Error> {
        let Some((run, call)) = self.core.finish() else {
            return Ok(());
        };
        let mut at = DrainProgress::Call(run, call);
        loop {
            match at {
                DrainProgress::Call(run, call) => at = run.step(self.answer(call, None)),
                DrainProgress::WaitIdle => {
                    let reply = self.command(decode_worker::WorkerCommand::WaitIdle, (&[], &[]));
                    return self.core.finish_idle(true, reply);
                }
                DrainProgress::Failed(error, _) => return Err(error),
            }
        }
    }
}

impl<H: DecodeHandler> Drop for Decoder<H> {
    fn drop(&mut self) {
        self.command(decode_worker::WorkerCommand::Stop, (&[], &[]));
        assert!(self.device.surfaces.live.is_empty(), "every surface came back");
    }
}

// ---------------------------------------------------------------------------
// Helpers
// ---------------------------------------------------------------------------

struct DecodedFrameInfo {
    y_data: Vec<u8>,
    pitch: usize,
    width: usize,
    height: usize,
    user_data: usize,
}

fn generate_dummy_nv12(
    width: usize,
    height: usize,
    coded_width: usize,
    coded_height: usize,
    frame_index: usize,
) -> Vec<u8> {
    assert!(
        width <= coded_width && height <= coded_height,
        "入力サイズ {}x{} が coded サイズ {}x{} を超えている",
        width,
        height,
        coded_width,
        coded_height,
    );
    let y_size = coded_width * coded_height;
    let uv_height = coded_height.div_ceil(2);
    let uv_size = coded_width * uv_height;
    let mut data = vec![0u8; y_size + uv_size];
    for i in 0..uv_size {
        data[y_size + i] = 128;
    }

    for y in 0..height {
        for x in 0..width {
            data[y * coded_width + x] = ((x + y + frame_index * 7) % 256) as u8;
        }
    }

    data
}

fn generate_colorbar_nv12(
    width: usize,
    height: usize,
    coded_width: usize,
    coded_height: usize,
) -> Vec<u8> {
    assert!(
        width <= coded_width && height <= coded_height,
        "入力サイズ {}x{} が coded サイズ {}x{} を超えている",
        width,
        height,
        coded_width,
        coded_height,
    );
    let bars: [(u8, u8, u8); 7] = [
        (235, 235, 235), // white
        (235, 235, 16),  // yellow
        (16, 235, 235),  // cyan
        (16, 235, 16),   // green
        (235, 16, 235),  // magenta
        (235, 16, 16),   // red
        (16, 16, 235),   // blue
    ];

    let y_size = coded_width * coded_height;
    let uv_height = coded_height.div_ceil(2);
    let uv_size = coded_width * uv_height;
    let mut data = vec![0u8; y_size + uv_size];
    let uv_offset = y_size;
    for i in 0..uv_size {
        data[uv_offset + i] = 128;
    }

    for y in 0..height {
        for x in 0..width {
            let bar_index = x * 7 / width;
            let (r, g, b) = bars[bar_index];

            let rf = r as f64;
            let gf = g as f64;
            let bf = b as f64;
            let yv = (0.257 * rf + 0.504 * gf + 0.098 * bf + 16.0).clamp(16.0, 235.0) as u8;
            data[y * coded_width + x] = yv;

            if y % 2 == 0 && x % 2 == 0 {
                let u = (-0.148 * rf - 0.291 * gf + 0.439 * bf + 128.0).clamp(16.0, 240.0) as u8;
                let v = (0.439 * rf - 0.368 * gf - 0.071 * bf + 128.0).clamp(16.0, 240.0) as u8;
                let uv_row = y / 2;
                let uv_col = x; // U and V are interleaved
                data[uv_offset + uv_row * coded_width + uv_col] = u;
                data[uv_offset + uv_row * coded_width + uv_col + 1] = v;
            }
        }
    }

    data
}

fn psnr_y(original: &[u8], decoded_y: &[u8], pitch: usize, width: usize, height: usize) -> f64 {
    let mut mse_sum: f64 = 0.0;
    let pixels = width * height;
    for row in 0..height {
        for col in 0..width {
            let orig = original[row * width + col] as f64;
            let dec = decoded_y[row * pitch + col] as f64;
            let diff = orig - dec;
            mse_sum += diff * diff;
        }
    }
    let mse = mse_sum / pixels as f64;
    if mse == 0.0 {
        return f64::INFINITY;
    }
    10.0 * (255.0_f64 * 255.0 / mse).log10()
}

fn create_encoder(
    config: EncoderConfig,
) -> (
    Encoder<impl EncodeHandler<UserData = usize>>,
    mpsc::Receiver<Result<EncodedFrame<usize>, Error>>,
) {
    let (tx, rx) = mpsc::channel::<Result<EncodedFrame<usize>, Error>>();
    let encoder = Encoder::new(
        config,
        FnEncodeHandler::new(move |result: Result<EncodedFrame<usize>, Error>| {
            tx.send(result).expect("エンコード結果の送信に失敗した");
        }),
    )
    .expect("エンコーダの生成に失敗した");
    (encoder, rx)
}

fn encode(config: EncoderConfig, frames: &[Vec<u8>]) -> (Vec<EncodedFrame<usize>>, Vec<Vec<u8>>) {
    let (encoder, rx) = create_encoder(config);
    encode_with_encoder(encoder, rx, frames)
}

fn encode_with_encoder<H: EncodeHandler<UserData = usize>>(
    mut encoder: Encoder<H>,
    rx: mpsc::Receiver<Result<EncodedFrame<usize>, Error>>,
    frames: &[Vec<u8>],
) -> (Vec<EncodedFrame<usize>>, Vec<Vec<u8>>) {
    let options = EncodeOptions {
        frame_type: frame_type::UNKNOWN,
    };

    for (index, frame) in frames.iter().enumerate() {
        encoder
            .encode(frame, index, &options)
            .expect("エンコードに失敗した");
    }
    encoder.finish().expect("finish に失敗した");

    let mut encoded_frames = Vec::new();
    let mut bitstreams: Vec<Vec<u8>> = Vec::new();
    for _ in 0..frames.len() {
        let result = rx
            .try_recv()
            .expect("エンコード結果の受信がタイムアウトした");
        let encoded = result.expect("エンコードに失敗した");
        bitstreams.push(encoded.data().to_vec());
        encoded_frames.push(encoded);
    }

    let mut seen = vec![0u32; frames.len()];
    for frame in &encoded_frames {
        let user_data = *frame.user_data();
        assert!(
            user_data < frames.len(),
            "エンコード結果の user_data {user_data} が範囲外"
        );
        seen[user_data] += 1;
    }
    for (index, count) in seen.iter().enumerate() {
        assert_eq!(
            *count, 1,
            "コールバックの user_data {index} は 1 回だけ呼ばれること (実際は {count} 回)"
        );
    }

    (encoded_frames, bitstreams)
}

fn decode(decoder_codec: DecoderCodec, bitstreams: &[Vec<u8>]) -> Vec<DecodedFrameInfo> {
    let num_frames = bitstreams.len();
    let config = DecoderConfig::new(test_adapter(), decoder_codec);
    let (tx, rx) = mpsc::channel::<Result<DecodedFrameInfo, Error>>();
    let mut decoder = Decoder::new(
        config,
        FnDecodeHandler::new(move |result: Result<DecodedFrame<'_, usize>, Error>| {
            let info = result.map(|frame| {
                let y_data = frame.y().to_vec();
                DecodedFrameInfo {
                    y_data,
                    pitch: frame.pitch(),
                    width: frame.width(),
                    height: frame.height(),
                    user_data: *frame.user_data(),
                }
            });
            tx.send(info)
                .expect("デコード結果コールバックの送信に失敗した");
        }),
    )
    .expect("デコーダの生成に失敗した");

    for (index, bs) in bitstreams.iter().enumerate() {
        decoder.decode(bs, index).expect("デコードに失敗した");
    }
    decoder.finish().expect("finish に失敗した");

    let mut decoded_frames = Vec::new();
    for _ in 0..num_frames {
        let result = rx
            .try_recv()
            .expect("デコード結果コールバックの受信がタイムアウトした");
        let info = result.expect("デコードに失敗した");
        decoded_frames.push(info);
    }

    decoded_frames
}

fn roundtrip(
    encoder_config: EncoderConfig,
    decoder_codec: DecoderCodec,
    input_frames: &[Vec<u8>],
) -> (Vec<EncodedFrame<usize>>, Vec<DecodedFrameInfo>) {
    let width = encoder_config.width as usize;
    let height = encoder_config.height as usize;
    let num_frames = input_frames.len();

    let (encoded_frames, bitstreams) = encode(encoder_config, input_frames);

    assert!(
        !encoded_frames.is_empty(),
        "エンコードされたフレームが生成されなかった"
    );
    for (i, frame) in encoded_frames.iter().enumerate() {
        assert!(
            !frame.data().is_empty(),
            "エンコード結果フレーム {i} のデータが空"
        );
    }

    let decoded_frames = decode(decoder_codec, &bitstreams);

    assert_eq!(
        decoded_frames.len(),
        num_frames,
        "デコード結果 {} フレーム、期待値 {num_frames} フレーム",
        decoded_frames.len()
    );
    for (i, frame) in decoded_frames.iter().enumerate() {
        assert_eq!(
            frame.width, width,
            "デコード結果フレーム {i} の width が不一致"
        );
        assert_eq!(
            frame.height, height,
            "デコード結果フレーム {i} の height が不一致"
        );
        assert!(
            !frame.y_data.is_empty(),
            "デコード結果フレーム {i} の Y プレーンが空"
        );
    }

    (encoded_frames, decoded_frames)
}

fn coded_size_for(config: &EncoderConfig) -> (usize, usize) {
    let ignore = FnEncodeHandler::new(|_: Result<EncodedFrame<()>, Error>| {});
    let encoder = Encoder::new(config.clone(), ignore).expect("エンコーダの生成に失敗した");
    encoder.coded_size()
}

fn roundtrip_colorbar(
    encoder_config: EncoderConfig,
    decoder_codec: DecoderCodec,
    num_frames: usize,
    min_psnr_db: f64,
) {
    let width = encoder_config.width as usize;
    let height = encoder_config.height as usize;
    let (coded_width, coded_height) = coded_size_for(&encoder_config);

    let colorbar = generate_colorbar_nv12(width, height, coded_width, coded_height);
    let colorbar_for_psnr = generate_colorbar_nv12(width, height, width, height);
    let input_frames: Vec<Vec<u8>> = (0..num_frames).map(|_| colorbar.clone()).collect();

    let (_, decoded_frames) = roundtrip(encoder_config, decoder_codec, &input_frames);

    for (i, decoded) in decoded_frames.iter().enumerate() {
        let psnr = psnr_y(
            &colorbar_for_psnr,
            &decoded.y_data,
            decoded.pitch,
            width,
            height,
        );
        assert!(
            psnr >= min_psnr_db,
            "フレーム {i}: PSNR {psnr:.1} dB が {min_psnr_db} dB 未満"
        );
    }
}

fn roundtrip_b_frames(
    encoder_config: EncoderConfig,
    decoder_codec: DecoderCodec,
    input_frames: &[Vec<u8>],
) -> Vec<DecodedFrameInfo> {
    let num_frames = input_frames.len();
    assert!(
        num_frames >= 15,
        "B フレームテストは N >= 15 で行うこと (実際は {num_frames})"
    );

    let (mut encoder, rx) = create_encoder(encoder_config);
    let options = EncodeOptions {
        frame_type: frame_type::UNKNOWN,
    };
    for (index, frame) in input_frames.iter().enumerate() {
        encoder
            .encode(frame, index, &options)
            .expect("エンコードに失敗した");
    }
    encoder.finish().expect("finish に失敗した");

    let mut encoded_frames: Vec<EncodedFrame<usize>> = Vec::new();
    while encoded_frames.len() < num_frames {
        let encoded = rx
            .try_recv()
            .expect("エンコード結果の受信がタイムアウトした")
            .expect("エンコードに失敗した");
        encoded_frames.push(encoded);
    }

    let b_count = encoded_frames
        .iter()
        .filter(|frame| frame.picture_type() == PictureType::B)
        .count();
    assert!(
        b_count >= 1,
        "B ピクチャが 1 枚以上生成されること (実際は {b_count} 枚)"
    );

    let decoder_config = DecoderConfig::new(test_adapter(), decoder_codec);
    let (tx, rx) = mpsc::channel::<Result<DecodedFrameInfo, Error>>();
    let mut decoder = Decoder::new(
        decoder_config,
        FnDecodeHandler::new(move |result: Result<DecodedFrame<'_, usize>, Error>| {
            let info = result.map(|frame| {
                let y_data = frame.y().to_vec();
                DecodedFrameInfo {
                    y_data,
                    pitch: frame.pitch(),
                    width: frame.width(),
                    height: frame.height(),
                    user_data: *frame.user_data(),
                }
            });
            tx.send(info)
                .expect("デコード結果コールバックの送信に失敗した");
        }),
    )
    .expect("デコーダの生成に失敗した");

    for frame in &encoded_frames {
        decoder
            .decode(frame.data(), *frame.user_data())
            .expect("デコードに失敗した");
    }
    decoder.finish().expect("finish に失敗した");

    let mut decoded_frames = Vec::new();
    while decoded_frames.len() < num_frames {
        let result = rx
            .try_recv()
            .expect("デコード結果コールバックの受信がタイムアウトした");
        decoded_frames.push(result.expect("デコードに失敗した"));
    }

    decoded_frames
}

fn assert_user_data_matches_input(
    decoded_frames: &[DecodedFrameInfo],
    input_frames_for_psnr: &[Vec<u8>],
    width: usize,
    height: usize,
) {
    let mut seen = vec![0u32; input_frames_for_psnr.len()];
    for frame in decoded_frames {
        let user_data = frame.user_data;
        assert!(
            user_data < input_frames_for_psnr.len(),
            "user_data {user_data} が範囲外"
        );
        seen[user_data] += 1;
    }
    for (index, count) in seen.iter().enumerate() {
        assert_eq!(
            *count, 1,
            "user_data {index} は 1 回だけ出現すること (実際は {count} 回)"
        );
    }

    for frame in decoded_frames {
        let i = frame.user_data;
        let psnr_with_i = psnr_y(
            &input_frames_for_psnr[i],
            &frame.y_data,
            frame.pitch,
            width,
            height,
        );
        assert!(
            psnr_with_i >= 25.0,
            "user_data {i}: 入力 {i} との PSNR {psnr_with_i:.1} dB が 25.0 dB 未満"
        );

        let mut max_wrong_psnr = 0.0_f64;
        for (j, other) in input_frames_for_psnr.iter().enumerate() {
            if j == i {
                continue;
            }
            let psnr = psnr_y(other, &frame.y_data, frame.pitch, width, height);
            max_wrong_psnr = max_wrong_psnr.max(psnr);
        }
        assert!(
            psnr_with_i > max_wrong_psnr + 5.0,
            "user_data {i}: 正しい入力との PSNR {psnr_with_i:.1} dB が誤対応の最大 {max_wrong_psnr:.1} dB より十分高いこと"
        );
    }
}

// --- H.264 ---

#[test]
fn test_roundtrip_h264_cbr() {
    let mut config = EncoderConfig::new(
        test_adapter(),
        CodecConfig::H264(H264EncoderConfig {
            profile: Some(H264Profile::High),
        }),
        320,
        240,
        FrameFormat::Nv12,
        30,
        1,
        RateControlMode::Cbr,
    );
    config.target_kbps = Some(1000);
    config.gop_pic_size = Some(30);

    roundtrip_colorbar(config, DecoderCodec::H264, 30, 25.0);
}

#[test]
fn test_roundtrip_h264_cqp() {
    let mut config = EncoderConfig::new(
        test_adapter(),
        CodecConfig::H264(H264EncoderConfig {
            profile: Some(H264Profile::Main),
        }),
        320,
        240,
        FrameFormat::Nv12,
        30,
        1,
        RateControlMode::Cqp,
    );
    config.qpi = Some(26);
    config.qpp = Some(28);
    config.qpb = Some(30);
    config.gop_pic_size = Some(10);

    roundtrip_colorbar(config, DecoderCodec::H264, 10, 25.0);
}

#[test]
fn test_roundtrip_h264_force_idr() {
    let mut config = EncoderConfig::new(
        test_adapter(),
        CodecConfig::H264(H264EncoderConfig {
            profile: Some(H264Profile::High),
        }),
        320,
        240,
        FrameFormat::Nv12,
        30,
        1,
        RateControlMode::Cbr,
    );
    config.target_kbps = Some(1000);
    config.gop_pic_size = Some(300);

    let width = config.width as usize;
    let height = config.height as usize;
    let (tx, rx) = mpsc::channel::<Result<EncodedFrame<usize>, Error>>();
    let mut encoder = Encoder::new(
        config,
        FnEncodeHandler::new(move |result: Result<EncodedFrame<usize>, Error>| {
            tx.send(result)
                .expect("エンコード結果コールバックの送信に失敗した");
        }),
    )
    .expect("エンコーダの生成に失敗した");
    let (coded_width, coded_height) = encoder.coded_size();
    let mut encoded_frames = Vec::new();
    let mut bitstreams: Vec<Vec<u8>> = Vec::new();

    for i in 0..15 {
        let frame_data = generate_dummy_nv12(width, height, coded_width, coded_height, i);
        let options = if i == 10 {
            EncodeOptions {
                frame_type: frame_type::IDR | frame_type::I | frame_type::REF,
            }
        } else {
            EncodeOptions {
                frame_type: frame_type::UNKNOWN,
            }
        };
        encoder
            .encode(&frame_data, i, &options)
            .expect("エンコードに失敗した");
    }
    encoder.finish().expect("finish に失敗した");
    for _ in 0..15 {
        let encoded = rx
            .try_recv()
            .expect("エンコード結果コールバックの受信がタイムアウトした")
            .expect("エンコードに失敗した");
        bitstreams.push(encoded.data().to_vec());
        encoded_frames.push(encoded);
    }

    let idr_count = encoded_frames
        .iter()
        .filter(|f| f.picture_type() == PictureType::Idr)
        .count();
    assert!(
        idr_count >= 2,
        "IDR フレームが 2 枚以上であること (実際は {idr_count} 枚)"
    );

    let decoded_frames = decode(DecoderCodec::H264, &bitstreams);
    assert_eq!(decoded_frames.len(), 15);

    let mut seen = [0u32; 15];
    for frame in &decoded_frames {
        let user_data = frame.user_data;
        assert!(
            user_data < 15,
            "デコード結果の user_data {user_data} が範囲外"
        );
        seen[user_data] += 1;
    }
    for (index, count) in seen.iter().enumerate() {
        assert_eq!(
            *count, 1,
            "デコード結果の user_data {index} は 1 回だけ出現すること (実際は {count} 回)"
        );
    }
}

#[test]
fn test_roundtrip_h264_b_frame_user_data() {
    let mut config = EncoderConfig::new(
        test_adapter(),
        CodecConfig::H264(H264EncoderConfig {
            profile: Some(H264Profile::High),
        }),
        320,
        240,
        FrameFormat::Nv12,
        30,
        1,
        RateControlMode::Cbr,
    );
    config.target_kbps = Some(1000);
    config.gop_pic_size = Some(30);
    config.gop_ref_dist = Some(3);

    let num_frames = 15;
    let width = config.width as usize;
    let height = config.height as usize;
    let (coded_width, coded_height) = coded_size_for(&config);
    let input_frames: Vec<Vec<u8>> = (0..num_frames)
        .map(|i| generate_dummy_nv12(width, height, coded_width, coded_height, i))
        .collect();
    let input_for_psnr: Vec<Vec<u8>> = (0..num_frames)
        .map(|i| generate_dummy_nv12(width, height, width, height, i))
        .collect();

    let decoded_frames = roundtrip_b_frames(config, DecoderCodec::H264, &input_frames);

    assert_user_data_matches_input(&decoded_frames, &input_for_psnr, width, height);
}

#[test]
fn test_encode_user_data_callback() {
    let mut config = EncoderConfig::new(
        test_adapter(),
        CodecConfig::H264(H264EncoderConfig {
            profile: Some(H264Profile::High),
        }),
        320,
        240,
        FrameFormat::Nv12,
        30,
        1,
        RateControlMode::Cbr,
    );
    config.target_kbps = Some(1000);
    config.gop_pic_size = Some(30);

    let (tx, rx) = mpsc::channel::<Result<EncodedFrame<usize>, Error>>();
    let mut encoder = Encoder::new(
        config,
        FnEncodeHandler::new(move |result: Result<EncodedFrame<usize>, Error>| {
            tx.send(result)
                .expect("エンコード結果コールバックの送信に失敗した");
        }),
    )
    .expect("エンコーダの生成に失敗した");
    let (coded_width, coded_height) = encoder.coded_size();
    let options = EncodeOptions {
        frame_type: frame_type::UNKNOWN,
    };

    for i in 0..8 {
        let frame_data = generate_dummy_nv12(320, 240, coded_width, coded_height, i);
        encoder
            .encode(&frame_data, i, &options)
            .expect("エンコードに失敗した");
    }
    encoder.finish().expect("finish に失敗した");

    let mut seen = [false; 8];
    for _ in 0..8 {
        let encoded = rx
            .try_recv()
            .expect("エンコード結果コールバックの受信がタイムアウトした")
            .expect("エンコードに失敗した");
        let user_data = *encoded.user_data();
        assert!(user_data < 8, "user_data {user_data} が範囲外");
        seen[user_data] = true;
    }

    for (index, appeared) in seen.iter().enumerate() {
        assert!(
            *appeared,
            "user_data {index} がコールバックに出現しなかった"
        );
    }
}

#[test]
fn test_decode_user_data_callback() {
    let mut config = EncoderConfig::new(
        test_adapter(),
        CodecConfig::H264(H264EncoderConfig {
            profile: Some(H264Profile::High),
        }),
        320,
        240,
        FrameFormat::Nv12,
        30,
        1,
        RateControlMode::Cbr,
    );
    config.target_kbps = Some(1000);
    config.gop_pic_size = Some(30);

    let width = config.width as usize;
    let height = config.height as usize;
    let (coded_width, coded_height) = coded_size_for(&config);
    let num_frames = 8;
    let input_frames: Vec<Vec<u8>> = (0..num_frames)
        .map(|i| generate_dummy_nv12(width, height, coded_width, coded_height, i))
        .collect();
    let (_, bitstreams) = encode(config, &input_frames);

    let decoder_config = DecoderConfig::new(test_adapter(), DecoderCodec::H264);
    let (tx, rx) = mpsc::channel::<Result<usize, Error>>();
    let mut decoder = Decoder::new(
        decoder_config,
        FnDecodeHandler::new(move |result: Result<DecodedFrame<'_, usize>, Error>| {
            let user_data = result.map(|frame| *frame.user_data());
            tx.send(user_data)
                .expect("デコード結果コールバックの送信に失敗した");
        }),
    )
    .expect("デコーダの生成に失敗した");

    for (i, bs) in bitstreams.iter().enumerate() {
        decoder.decode(bs, i).expect("デコードに失敗した");
    }
    decoder.finish().expect("finish に失敗した");

    let mut seen = [false; 8];
    for _ in 0..num_frames {
        let user_data = rx
            .try_recv()
            .expect("デコード結果コールバックの受信がタイムアウトした")
            .expect("デコードに失敗した");
        assert!(user_data < num_frames, "user_data {user_data} が範囲外");
        seen[user_data] = true;
    }

    for (index, appeared) in seen.iter().enumerate() {
        assert!(
            *appeared,
            "user_data {index} がコールバックに出現しなかった"
        );
    }
}

#[test]
fn test_drop_cancels_pending_callbacks() {
    let mut config = EncoderConfig::new(
        test_adapter(),
        CodecConfig::H264(H264EncoderConfig {
            profile: Some(H264Profile::High),
        }),
        320,
        240,
        FrameFormat::Nv12,
        30,
        1,
        RateControlMode::Cbr,
    );
    config.target_kbps = Some(1000);
    config.gop_pic_size = Some(30);
    config.gop_ref_dist = Some(3);

    let (tx, rx) = mpsc::channel::<Result<EncodedFrame<usize>, Error>>();
    {
        let mut encoder = Encoder::new(
            config,
            FnEncodeHandler::new(move |result: Result<EncodedFrame<usize>, Error>| {
                tx.send(result)
                    .expect("エンコード結果コールバックの送信に失敗した");
            }),
        )
        .expect("エンコーダの生成に失敗した");
        let (coded_width, coded_height) = encoder.coded_size();
        let options = EncodeOptions {
            frame_type: frame_type::UNKNOWN,
        };

        let frame_data = generate_dummy_nv12(320, 240, coded_width, coded_height, 0);
        encoder
            .encode(&frame_data, 0, &options)
            .expect("エンコードに失敗した");
    }

    let result = rx
            .try_recv()
        .expect("コールバック結果の受信がタイムアウトした");
    let error = match result {
        Ok(_) => panic!("drop 時のコールバックはエラーであること"),
        Err(error) => error,
    };
    assert_eq!(
        error.status_code(),
        Some(sys::MFX_ERR_ABORTED),
        "キャンセルされたコールバックは MFX_ERR_ABORTED を返すこと"
    );
    assert!(
        rx.try_recv().is_err(),
        "キャンセル結果の後に予期しない追加コールバックが送信された"
    );
}

// --- H.265 ---

#[test]
fn test_roundtrip_hevc_cbr() {
    let mut config = EncoderConfig::new(
        test_adapter(),
        CodecConfig::Hevc(HevcEncoderConfig {
            profile: Some(HevcProfile::Main),
        }),
        320,
        240,
        FrameFormat::Nv12,
        30,
        1,
        RateControlMode::Cbr,
    );
    config.target_kbps = Some(1000);
    config.gop_pic_size = Some(30);

    roundtrip_colorbar(config, DecoderCodec::Hevc, 30, 25.0);
}

#[test]
fn test_roundtrip_hevc_cqp() {
    let mut config = EncoderConfig::new(
        test_adapter(),
        CodecConfig::Hevc(HevcEncoderConfig {
            profile: Some(HevcProfile::Main),
        }),
        320,
        240,
        FrameFormat::Nv12,
        30,
        1,
        RateControlMode::Cqp,
    );
    config.qpi = Some(26);
    config.qpp = Some(28);
    config.qpb = Some(30);
    config.gop_pic_size = Some(10);

    roundtrip_colorbar(config, DecoderCodec::Hevc, 10, 25.0);
}

#[test]
fn test_roundtrip_hevc_b_frame_user_data() {
    let mut config = EncoderConfig::new(
        test_adapter(),
        CodecConfig::Hevc(HevcEncoderConfig {
            profile: Some(HevcProfile::Main),
        }),
        320,
        240,
        FrameFormat::Nv12,
        30,
        1,
        RateControlMode::Cbr,
    );
    config.target_kbps = Some(1000);
    config.gop_pic_size = Some(30);
    config.gop_ref_dist = Some(3);

    let num_frames = 15;
    let width = config.width as usize;
    let height = config.height as usize;
    let (coded_width, coded_height) = coded_size_for(&config);
    let input_frames: Vec<Vec<u8>> = (0..num_frames)
        .map(|i| generate_dummy_nv12(width, height, coded_width, coded_height, i))
        .collect();
    let input_for_psnr: Vec<Vec<u8>> = (0..num_frames)
        .map(|i| generate_dummy_nv12(width, height, width, height, i))
        .collect();

    let decoded_frames = roundtrip_b_frames(config, DecoderCodec::Hevc, &input_frames);

    assert_user_data_matches_input(&decoded_frames, &input_for_psnr, width, height);
}

// --- AV1 ---

#[test]
fn test_roundtrip_av1_cbr() {
    let mut config = EncoderConfig::new(
        test_adapter(),
        CodecConfig::Av1(Av1EncoderConfig {
            profile: Some(Av1Profile::Main),
        }),
        320,
        240,
        FrameFormat::Nv12,
        30,
        1,
        RateControlMode::Cbr,
    );
    config.target_kbps = Some(1000);
    config.gop_pic_size = Some(30);

    roundtrip_colorbar(config, DecoderCodec::Av1, 30, 25.0);
}

#[test]
fn test_roundtrip_av1_cqp() {
    let mut config = EncoderConfig::new(
        test_adapter(),
        CodecConfig::Av1(Av1EncoderConfig {
            profile: Some(Av1Profile::Main),
        }),
        320,
        240,
        FrameFormat::Nv12,
        30,
        1,
        RateControlMode::Cqp,
    );
    config.qpi = Some(26);
    config.qpp = Some(28);
    config.qpb = Some(30);
    config.gop_pic_size = Some(10);

    roundtrip_colorbar(config, DecoderCodec::Av1, 10, 25.0);
}


fn generate_dummy_yuy2(
    width: usize,
    height: usize,
    coded_width: usize,
    coded_height: usize,
    frame_index: usize,
) -> Vec<u8> {
    assert!(
        width <= coded_width && height <= coded_height,
        "入力サイズ {}x{} が coded サイズ {}x{} を超えている",
        width,
        height,
        coded_width,
        coded_height,
    );
    let mut data = vec![0u8; coded_width * coded_height * 2];
    for y in 0..height {
        for x in (0..width).step_by(2) {
            let offset = (y * coded_width + x) * 2;
            let y0 = ((x + y + frame_index * 7) % 256) as u8;
            let y1 = ((x + 1 + y + frame_index * 7) % 256) as u8;
            data[offset] = y0; // Y0
            data[offset + 1] = 128; // U
            data[offset + 2] = y1; // Y1
            data[offset + 3] = 128; // V
        }
    }
    data
}

fn generate_dummy_bgra(
    width: usize,
    height: usize,
    coded_width: usize,
    coded_height: usize,
    frame_index: usize,
) -> Vec<u8> {
    assert!(
        width <= coded_width && height <= coded_height,
        "入力サイズ {}x{} が coded サイズ {}x{} を超えている",
        width,
        height,
        coded_width,
        coded_height,
    );
    let mut data = vec![0u8; coded_width * coded_height * 4];
    for y in 0..height {
        for x in 0..width {
            let offset = (y * coded_width + x) * 4;
            let v = ((x + y + frame_index * 7) % 256) as u8;
            data[offset] = v; // B
            data[offset + 1] = v; // G
            data[offset + 2] = v; // R
            data[offset + 3] = 255; // A
        }
    }
    data
}

fn generate_dummy_frame(
    format: FrameFormat,
    width: usize,
    height: usize,
    coded_width: usize,
    coded_height: usize,
    frame_index: usize,
) -> Vec<u8> {
    match format {
        FrameFormat::Nv12 => {
            generate_dummy_nv12(width, height, coded_width, coded_height, frame_index)
        }
        FrameFormat::Yuy2 => {
            generate_dummy_yuy2(width, height, coded_width, coded_height, frame_index)
        }
        FrameFormat::Bgra => {
            generate_dummy_bgra(width, height, coded_width, coded_height, frame_index)
        }
    }
}

fn roundtrip_format(
    codec_config: CodecConfig,
    decoder_codec: DecoderCodec,
    format: FrameFormat,
    num_frames: usize,
) {
    roundtrip_format_with_size(codec_config, decoder_codec, format, num_frames, 320, 240);
}

fn roundtrip_format_with_size(
    codec_config: CodecConfig,
    decoder_codec: DecoderCodec,
    format: FrameFormat,
    num_frames: usize,
    width: u32,
    height: u32,
) {
    let mut config = EncoderConfig::new(
        test_adapter(),
        codec_config,
        width,
        height,
        format,
        30,
        1,
        RateControlMode::Cbr,
    );
    config.target_kbps = Some(1000);
    config.gop_pic_size = Some(30);
    let (coded_width, coded_height) = coded_size_for(&config);

    let input_frames: Vec<Vec<u8>> = (0..num_frames)
        .map(|i| {
            generate_dummy_frame(
                format,
                width as usize,
                height as usize,
                coded_width,
                coded_height,
                i,
            )
        })
        .collect();

    let expected_size = format
        .frame_size(coded_width, coded_height)
        .expect("フレームサイズ計算がオーバーフローした");
    for (i, frame) in input_frames.iter().enumerate() {
        assert_eq!(
            frame.len(),
            expected_size,
            "frame {i}: size {} != expected {expected_size} for {format:?}",
            frame.len()
        );
    }

    let (_, decoded_frames) = roundtrip(config, decoder_codec, &input_frames);

    assert_eq!(
        decoded_frames.len(),
        num_frames,
        "{format:?}: decoded {} frames, expected {num_frames}",
        decoded_frames.len()
    );
}


#[test]
fn test_roundtrip_h264_bgra() {
    roundtrip_format(
        CodecConfig::H264(H264EncoderConfig {
            profile: Some(H264Profile::High),
        }),
        DecoderCodec::H264,
        FrameFormat::Bgra,
        10,
    );
}

#[test]
fn test_roundtrip_h264_nv12_alignment_mismatch() {
    let mut config = EncoderConfig::new(
        test_adapter(),
        CodecConfig::H264(H264EncoderConfig {
            profile: Some(H264Profile::High),
        }),
        318,
        238,
        FrameFormat::Nv12,
        30,
        1,
        RateControlMode::Cbr,
    );
    config.target_kbps = Some(1000);
    config.gop_pic_size = Some(30);
    let (coded_width, coded_height) = coded_size_for(&config);
    assert_ne!(coded_width, config.width as usize);
    assert_ne!(coded_height, config.height as usize);

    roundtrip_colorbar(config, DecoderCodec::H264, 10, 25.0);
}

#[test]
fn test_roundtrip_h264_bgra_alignment_mismatch() {
    roundtrip_format_with_size(
        CodecConfig::H264(H264EncoderConfig {
            profile: Some(H264Profile::High),
        }),
        DecoderCodec::H264,
        FrameFormat::Bgra,
        10,
        318,
        238,
    );
}

// --- VP9 ---

fn strip_vp9_ivf_headers(data: &[u8]) -> Vec<u8> {
    let after_file_header = if data.starts_with(b"DKIF") {
        assert!(
            data.len() >= 32,
            "IVF ファイルヘッダー (32 byte) 未満の入力: {} byte",
            data.len()
        );
        &data[32..]
    } else {
        data
    };
    assert!(
        after_file_header.len() >= 12,
        "IVF フレームヘッダー (12 byte) 未満の入力: {} byte",
        after_file_header.len()
    );
    after_file_header[12..].to_vec()
}

fn roundtrip_vp9(write_ivf_headers: bool) {
    let mut config = EncoderConfig::new(
        test_adapter(),
        CodecConfig::Vp9(Vp9EncoderConfig {
            profile: Some(Vp9Profile::Profile0),
            write_ivf_headers,
        }),
        320,
        240,
        FrameFormat::Nv12,
        30,
        1,
        RateControlMode::Cbr,
    );
    config.target_kbps = Some(1000);
    config.gop_pic_size = Some(30);

    let (encoder, rx) = create_encoder(config.clone());

    assert_eq!(
        encoder.write_ivf_headers(),
        write_ivf_headers,
        "write_ivf_headers の getter は設定した値を返すこと"
    );

    let width = config.width as usize;
    let height = config.height as usize;
    let (coded_width, coded_height) = encoder.coded_size();
    let colorbar = generate_colorbar_nv12(width, height, coded_width, coded_height);
    let colorbar_for_psnr = generate_colorbar_nv12(width, height, width, height);
    let input_frames: Vec<Vec<u8>> = (0..10).map(|_| colorbar.clone()).collect();

    let (encoded_frames, bitstreams) = encode_with_encoder(encoder, rx, &input_frames);

    for (i, frame) in encoded_frames.iter().enumerate() {
        if write_ivf_headers {
            if i == 0 {
                assert!(
                    frame.data().starts_with(b"DKIF"),
                    "IVF 付きの先頭フレームは DKIF で始まること"
                );
                assert!(
                    frame.data().len() >= 44,
                    "先頭フレームは 32 + 12 byte のヘッダー以上が必要 (実際は {} byte)",
                    frame.data().len()
                );
            } else {
                assert!(
                    !frame.data().starts_with(b"DKIF"),
                    "IVF 付きのフレーム {i} が DKIF で始まってはいけない"
                );
            }
        } else {
            assert!(
                !frame.data().starts_with(b"DKIF"),
                "raw VP9 のフレーム {i} が DKIF で始まってはいけない"
            );
        }
    }

    let decoded_frames = if write_ivf_headers {
        let stripped: Vec<Vec<u8>> = bitstreams
            .iter()
            .map(|bs| strip_vp9_ivf_headers(bs))
            .collect();
        decode(DecoderCodec::Vp9, &stripped)
    } else {
        decode(DecoderCodec::Vp9, &bitstreams)
    };
    assert_eq!(
        decoded_frames.len(),
        input_frames.len(),
        "デコードされたフレーム数が入力と一致すること"
    );

    for (i, decoded) in decoded_frames.iter().enumerate() {
        assert_eq!(
            decoded.width, width,
            "デコード結果のフレーム {i} の width が入力と一致すること"
        );
        assert_eq!(
            decoded.height, height,
            "デコード結果のフレーム {i} の height が入力と一致すること"
        );
        let psnr = psnr_y(
            &colorbar_for_psnr,
            &decoded.y_data,
            decoded.pitch,
            width,
            height,
        );
        assert!(
            psnr >= 25.0,
            "フレーム {i}: PSNR {psnr:.1} dB が 25.0 dB 未満"
        );
    }
}

#[test]
fn test_roundtrip_vp9_write_ivf_headers_false() {
    roundtrip_vp9(false);
}

#[test]
fn test_roundtrip_vp9_write_ivf_headers_true() {
    roundtrip_vp9(true);
}

#[test]
fn test_write_ivf_headers_getter_false_for_non_vp9() {
    let config = EncoderConfig::new(
        test_adapter(),
        CodecConfig::H264(H264EncoderConfig {
            profile: Some(H264Profile::High),
        }),
        320,
        240,
        FrameFormat::Nv12,
        30,
        1,
        RateControlMode::Cbr,
    );
    let encoder = Encoder::new(
        config,
        FnEncodeHandler::new(|_: Result<EncodedFrame<()>, Error>| {}),
    )
    .expect("エンコーダの生成に失敗した");
    assert!(
        !encoder.write_ivf_headers(),
        "非 VP9 コーデックの getter は false を返すこと"
    );
}
