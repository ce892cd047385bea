//! Enumeration of adapters and opening of sessions, against a simulated dispatcher.
use shiguredo_vpl::adapter::AdapterScan;
use shiguredo_vpl::adapter::ScanProgress;
use shiguredo_vpl::codec_info::QueryProgress;
use shiguredo_vpl::loader::DeviceId;
use shiguredo_vpl::loader::EncoderEntry;
use shiguredo_vpl::loader::Filter;
use shiguredo_vpl::loader::Handle;
use shiguredo_vpl::loader::ImplDescription;
use shiguredo_vpl::loader::LoaderCall;
use shiguredo_vpl::loader::LoaderReply;
use shiguredo_vpl::loader::SessionProgress;
use shiguredo_vpl::loader::SessionSetup;
use shiguredo_vpl::sys;
use shiguredo_vpl::AdapterInfo;
use shiguredo_vpl::AdapterSelector;
use shiguredo_vpl::CodecConfig;
use shiguredo_vpl::CodecInfo;
use shiguredo_vpl::Decoder;
use shiguredo_vpl::DecoderCodec;
use shiguredo_vpl::DecoderConfig;
use shiguredo_vpl::Encoder;
use shiguredo_vpl::EncoderConfig;
use shiguredo_vpl::Error;
use shiguredo_vpl::FrameFormat;
use shiguredo_vpl::H264EncoderConfig;
use shiguredo_vpl::MediaAdapterType;
use shiguredo_vpl::RateControlMode;

/// A dispatcher with some implementations, that keeps track of what it has handed out. An
/// implementation may not tell its device.
struct Dispatcher {
    implementations: Vec<(ImplDescription, Option<DeviceId>)>,
    calls: Vec<LoaderCall>,
    render_node: Option<u32>,
    loaders: i32,
    descriptions: i32,
    devices: i32,
    /// The call that fails, counted from 0, and its status.
    failing: Option<(usize, i32)>,
}

fn reply(status: i32, handle: Handle) -> LoaderReply {
    LoaderReply { status, handle }
}

impl Dispatcher {
    fn new(implementations: Vec<(ImplDescription, Option<DeviceId>)>) -> Dispatcher {
        Dispatcher {
            implementations,
            calls: Vec::new(),
            render_node: None,
            loaders: 0,
            descriptions: 0,
            devices: 0,
            failing: None,
        }
    }

    /// The implementations that pass the filter.
    fn visible(&self) -> Vec<&(ImplDescription, Option<DeviceId>)> {
        self.implementations
            .iter()
            .filter(|(_, device)| match (self.render_node, device) {
                (None, _) => true,
                (Some(node), Some(device)) => device.drm_render_node == node,
                (Some(_), None) => false,
            })
            .collect()
    }

    fn answer(&mut self, call: LoaderCall) -> LoaderReply {
        let number = self.calls.len();
        self.calls.push(call);
        if let Some((failing, status)) = self.failing {
            if failing == number {
                return reply(status, Handle::Null);
            }
        }
        let none = sys::MFX_ERR_NONE;
        match call {
            LoaderCall::Load => {
                self.loaders += 1;
                reply(none, Handle::Opaque)
            }
            LoaderCall::CreateConfig => reply(none, Handle::Opaque),
            LoaderCall::SetFilter(Filter::Hardware) => reply(none, Handle::Null),
            LoaderCall::SetFilter(Filter::RenderNode(node)) => {
                self.render_node = Some(node);
                reply(none, Handle::Null)
            }
            LoaderCall::CreateSession(i) => {
                if (i as usize) < self.visible().len() {
                    reply(none, Handle::Opaque)
                } else {
                    reply(sys::MFX_ERR_NOT_FOUND, Handle::Null)
                }
            }
            LoaderCall::EnumDescription(i) => {
                let found = self.visible().get(i as usize).map(|(d, _)| d.clone());
                match found {
                    Some(description) => {
                        self.descriptions += 1;
                        reply(none, Handle::Description(description))
                    }
                    None => reply(sys::MFX_ERR_NOT_FOUND, Handle::Null),
                }
            }
            LoaderCall::EnumDevice(i) => {
                let found = self.visible()[i as usize].1.clone();
                match found {
                    Some(device) => {
                        self.devices += 1;
                        reply(none, Handle::Device(device))
                    }
                    None => reply(sys::MFX_ERR_UNSUPPORTED, Handle::Null),
                }
            }
            LoaderCall::ReleaseDevice => {
                self.devices -= 1;
                reply(none, Handle::Null)
            }
            LoaderCall::ReleaseDescription => {
                self.descriptions -= 1;
                reply(none, Handle::Null)
            }
            LoaderCall::Unload => {
                self.loaders -= 1;
                reply(none, Handle::Null)
            }
        }
    }

    fn is_settled(&self) -> bool {
        self.loaders == 0 && self.descriptions == 0 && self.devices == 0
    }
}

fn description(name: &str) -> ImplDescription {
    let mut impl_name = name.as_bytes().to_vec();
    impl_name.resize(32, 0);
    ImplDescription {
        impl_name,
        media_adapter_type: sys::MFX_MEDIA_INTEGRATED,
        decoders: Some(vec![sys::MFX_CODEC_AVC, sys::MFX_CODEC_HEVC]),
        encoders: Some(vec![EncoderEntry {
            codec_id: sys::MFX_CODEC_AVC,
            bidirectional_prediction: 1,
            profiles: Some(vec![100, 77]),
        }]),
    }
}

fn device(node: u32, name: &[u8]) -> DeviceId {
    DeviceId {
        drm_render_node: node,
        device_name: name.to_vec(),
        device_id: 0x56a6,
        pci_domain: 0,
        pci_bus: 3,
        pci_device: 2,
        pci_function: 1,
    }
}

fn test_dispatcher() -> Dispatcher {
    Dispatcher::new(vec![
        (description("third"), Some(device(130, b"GPU C\0garbage"))),
        (description("first"), Some(device(128, b"GPU A"))),
        (description("unset"), Some(device(0, b"GPU"))),
        (description("old"), None),
        (description("again"), Some(device(130, b"GPU C again"))),
        (description("second"), Some(device(129, b"\xff\xfe"))),
    ])
}

fn run_scan(dispatcher: &mut Dispatcher) -> Result<Vec<AdapterInfo>, Error> {
    let (mut scan, mut call): (AdapterScan, LoaderCall) = shiguredo_vpl::list_adapters();
    loop {
        assert!(scan.may_go_on());
        match scan.step(dispatcher.answer(call)) {
            ScanProgress::Call(next, next_call) => {
                scan = next;
                call = next_call;
            }
            ScanProgress::Done(adapters) => return Ok(adapters),
            ScanProgress::Failed(failure) => return Err(failure.error()),
        }
    }
}

fn list_adapters() -> Result<Vec<AdapterInfo>, Error> {
    run_scan(&mut test_dispatcher())
}

fn run_session(
    dispatcher: &mut Dispatcher,
    setup: SessionSetup,
    call: LoaderCall,
) -> Result<(), Error> {
    let node = setup.render_node;
    let mut at = SessionProgress::Call(setup, call);
    loop {
        match at {
            SessionProgress::Call(setup, call) => at = setup.step(&dispatcher.answer(call)),
            SessionProgress::Created => return Ok(()),
            SessionProgress::Failed(failure) => return Err(failure.error(node)),
        }
    }
}

fn supported_codecs(
    dispatcher: &mut Dispatcher,
    adapter: AdapterSelector,
) -> Result<Vec<CodecInfo>, Error> {
    let (query, call) = shiguredo_vpl::supported_codecs(adapter)?;
    let mut at = QueryProgress::Call(query, call);
    loop {
        match at {
            QueryProgress::Call(query, call) => at = query.step(dispatcher.answer(call)),
            QueryProgress::Done(codecs) => return Ok(codecs),
            QueryProgress::Failed(failure) => return Err(failure.error()),
        }
    }
}

fn encoder_config(adapter: AdapterSelector, width: u32, height: u32) -> EncoderConfig {
    EncoderConfig::new(
        adapter,
        CodecConfig::H264(H264EncoderConfig { profile: None }),
        width,
        height,
        FrameFormat::Nv12,
        30,
        1,
        RateControlMode::Cqp,
    )
}

fn into_err<T>(result: Result<T, Error>, message: &str) -> Error {
    match result {
        Ok(_) => panic!("{message}"),
        Err(e) => e,
    }
}

#[test]
fn test_list_adapters_sorted_and_deduped() {
    let adapters = list_adapters().expect("list_adapters に失敗");

    let mut nodes: Vec<u32> = adapters.iter().map(|a| a.drm_render_node).collect();
    let original = nodes.clone();
    nodes.sort();
    assert_eq!(nodes, original, "drm_render_node が昇順になっていない");

    let mut deduped = nodes.clone();
    deduped.dedup();
    assert_eq!(deduped, nodes, "drm_render_node が重複している");
    assert_eq!(nodes, vec![128, 129, 130]);
}

#[test]
fn test_list_adapters_keeps_the_first_on_each_node() {
    let adapters = list_adapters().expect("list_adapters に失敗");
    assert_eq!(adapters[0].impl_name, "first");
    assert_eq!(adapters[0].device_name, "GPU A");
    assert_eq!(adapters[1].impl_name, "second");
    assert_eq!(adapters[1].device_name, "", "not UTF-8");
    assert_eq!(adapters[2].impl_name, "third");
    assert_eq!(adapters[2].device_name, "GPU C", "cut at the NUL");
    assert_eq!(adapters[2].pci_device_id, 0x56a6);
    assert_eq!(adapters[2].pci_address.bus, 3);
    assert_eq!(adapters[2].pci_address.device, 2);
    assert_eq!(adapters[2].pci_address.function, 1);
    assert_eq!(adapters[2].pci_address.domain, 0);
    assert_eq!(adapters[2].media_adapter_type, MediaAdapterType::Integrated);
}

#[test]
fn test_list_adapters_without_hardware() {
    let mut dispatcher = Dispatcher::new(Vec::new());
    let adapters = run_scan(&mut dispatcher).expect("nothing is no error");
    assert!(adapters.is_empty());
    assert!(dispatcher.is_settled());
}

#[test]
fn test_list_adapters_releases_everything_whatever_fails() {
    let mut whole = test_dispatcher();
    run_scan(&mut whole).expect("nothing fails");
    assert!(whole.is_settled());
    for failing in 0..whole.calls.len() {
        if matches!(
            whole.calls[failing],
            LoaderCall::ReleaseDevice | LoaderCall::ReleaseDescription | LoaderCall::Unload
        ) {
            continue;
        }
        let mut dispatcher = test_dispatcher();
        dispatcher.failing = Some((failing, sys::MFX_ERR_UNKNOWN));
        let result = run_scan(&mut dispatcher);
        assert!(dispatcher.is_settled(), "call {failing} fails");
        match whole.calls[failing] {
            LoaderCall::Load => {
                assert_eq!(into_err(result, "no loader").function(), "MFXLoad");
            }
            LoaderCall::CreateConfig => {
                assert_eq!(into_err(result, "no config").function(), "MFXCreateConfig");
            }
            LoaderCall::SetFilter(_) => {
                let error = into_err(result, "no filter");
                assert_eq!(error.function(), "MFXSetConfigFilterProperty");
                assert_eq!(error.status_code(), Some(-1));
            }
            LoaderCall::EnumDescription(_) => {
                let error = into_err(result, "no description");
                assert_eq!(error.function(), "MFXEnumImplementations");
            }
            // Without a device the entry is passed over.
            _ => assert!(result.is_ok()),
        }
    }
}

#[test]
fn test_list_adapters_null_description() {
    let mut dispatcher = test_dispatcher();
    dispatcher.failing = Some((3, sys::MFX_ERR_NONE));
    let error = into_err(run_scan(&mut dispatcher), "no description");
    assert_eq!(
        error.to_string(),
        "MFXEnumImplementations() failed: returned null handle for IMPLDESCSTRUCTURE"
    );
    assert!(dispatcher.is_settled());
}

#[test]
fn test_media_adapter_types() {
    use_of_type(sys::MFX_MEDIA_INTEGRATED, MediaAdapterType::Integrated);
    use_of_type(sys::MFX_MEDIA_DISCRETE, MediaAdapterType::Discrete);
    use_of_type(0xffff, MediaAdapterType::Unknown);
    use_of_type(2, MediaAdapterType::Unknown);
}

fn use_of_type(value: u16, expected: MediaAdapterType) {
    assert_eq!(
        shiguredo_vpl::adapter::map_media_adapter_type(value),
        expected
    );
}

#[test]
fn test_encoder_rejects_render_node_zero() {
    let config = encoder_config(AdapterSelector::DrmRenderNode(0), 1920, 1080);
    let err = into_err(Encoder::new(&config), "Encoder::new が成功してはいけない");
    assert_eq!(err.function(), "AdapterSelector::validate");
}

#[test]
fn test_decoder_rejects_render_node_zero() {
    let config = DecoderConfig::new(AdapterSelector::DrmRenderNode(0), DecoderCodec::H264);
    let err = into_err(Decoder::new(&config), "Decoder::new が成功してはいけない");
    assert_eq!(err.function(), "AdapterSelector::validate");
}

#[test]
fn test_supported_codecs_rejects_render_node_zero() {
    let err = supported_codecs(&mut test_dispatcher(), AdapterSelector::DrmRenderNode(0))
        .expect_err("supported_codecs が成功してはいけない");
    assert_eq!(err.function(), "AdapterSelector::validate");
}

#[test]
fn test_encoder_not_found_for_invalid_render_node() {
    let bogus_node = u32::MAX;
    let config = encoder_config(AdapterSelector::DrmRenderNode(bogus_node), 1920, 1080);
    let (_, setup, call) = Encoder::new(&config).expect("the settings are fine");
    let mut dispatcher = test_dispatcher();
    let err = into_err(
        run_session(&mut dispatcher, setup, call),
        "Encoder::new が成功してはいけない",
    );
    assert_eq!(
        err.status_name(),
        Some("MFX_ERR_NOT_FOUND"),
        "status_name が MFX_ERR_NOT_FOUND ではない: {}",
        err.to_string(),
    );
    let message = err.status_message().expect("status_message が空");
    assert!(
        message.contains(&bogus_node.to_string()),
        "メッセージに render node 番号 {bogus_node} が含まれていない: {message}",
    );
    assert!(dispatcher.is_settled());
}

#[test]
fn test_real_adapter_session() {
    let adapters = list_adapters().expect("list_adapters に失敗");
    assert!(!adapters.is_empty());
    let node = adapters[0].drm_render_node;
    let adapter = AdapterSelector::DrmRenderNode(node);

    let (_, setup, call) = Encoder::new(&encoder_config(adapter, 320, 240)).expect("accepted");
    let mut dispatcher = test_dispatcher();
    run_session(&mut dispatcher, setup, call).expect("a session");
    assert_eq!(dispatcher.loaders, 1, "the loader lives as long as the session");
    assert_eq!(
        dispatcher.calls,
        vec![
            LoaderCall::Load,
            LoaderCall::CreateConfig,
            LoaderCall::SetFilter(Filter::Hardware),
            LoaderCall::CreateConfig,
            LoaderCall::SetFilter(Filter::RenderNode(node)),
            LoaderCall::CreateSession(0),
        ]
    );

    let config = DecoderConfig::new(adapter, DecoderCodec::H264);
    let (_, setup, call) = Decoder::new(&config).expect("accepted");
    run_session(&mut test_dispatcher(), setup, call).expect("a session");

    let codecs = supported_codecs(&mut test_dispatcher(), adapter).expect("supported_codecs に失敗");
    assert!(!codecs.is_empty());
}

#[test]
fn test_session_unloads_the_loader_whatever_fails() {
    let adapter = AdapterSelector::DrmRenderNode(128);
    let expected = [
        "MFXLoad",
        "MFXCreateConfig",
        "MFXSetConfigFilterProperty",
        "MFXCreateConfig",
        "MFXSetConfigFilterProperty",
        "MFXCreateSession",
    ];
    for (failing, function) in expected.iter().enumerate() {
        let (_, setup, call) = Encoder::new(&encoder_config(adapter, 320, 240)).expect("accepted");
        let mut dispatcher = test_dispatcher();
        dispatcher.failing = Some((failing, sys::MFX_ERR_UNKNOWN));
        let error = into_err(run_session(&mut dispatcher, setup, call), "it fails");
        assert_eq!(error.function(), *function);
        assert!(dispatcher.is_settled());
        let unloads = dispatcher
            .calls
            .iter()
            .filter(|call| **call == LoaderCall::Unload)
            .count();
        assert_eq!(unloads, if failing == 0 { 0 } else { 1 });
    }
}

#[test]
fn test_filters() {
    assert_eq!(Filter::Hardware.property(), "mfxImplDescription.Impl");
    assert_eq!(Filter::Hardware.value(), 2);
    let node = Filter::RenderNode(129);
    assert_eq!(node.property(), "mfxExtendedDeviceId.DRMRenderNodeNum");
    assert_eq!(node.value(), 129);
}

#[test]
fn test_supported_codecs_releases_everything_whatever_fails() {
    let adapter = AdapterSelector::DrmRenderNode(129);
    let expected = [
        "MFXLoad",
        "MFXCreateConfig",
        "MFXSetConfigFilterProperty",
        "MFXCreateConfig",
        "MFXSetConfigFilterProperty",
        "MFXEnumImplementations",
    ];
    for (failing, function) in expected.iter().enumerate() {
        let mut dispatcher = test_dispatcher();
        dispatcher.failing = Some((failing, sys::MFX_ERR_UNKNOWN));
        let error = into_err(supported_codecs(&mut dispatcher, adapter), "it fails");
        assert_eq!(error.function(), *function);
        assert!(dispatcher.is_settled());
    }
    let mut dispatcher = test_dispatcher();
    dispatcher.failing = Some((5, sys::MFX_ERR_NONE));
    let error = into_err(supported_codecs(&mut dispatcher, adapter), "no description");
    assert_eq!(
        error.to_string(),
        "MFXEnumImplementations() failed: returned null handle"
    );
}

/// Scans implementations that reply like this when they are asked for their device.
fn scan_devices(devices: Vec<LoaderReply>) -> Result<Vec<AdapterInfo>, Error> {
    let (mut scan, mut call): (AdapterScan, LoaderCall) = shiguredo_vpl::list_adapters();
    loop {
        let answer = match call {
            LoaderCall::EnumDescription(i) => {
                if (i as usize) < devices.len() {
                    reply(sys::MFX_ERR_NONE, Handle::Description(description("impl")))
                } else {
                    reply(sys::MFX_ERR_NOT_FOUND, Handle::Null)
                }
            }
            LoaderCall::EnumDevice(i) => devices[i as usize].clone(),
            _ => reply(sys::MFX_ERR_NONE, Handle::Opaque),
        };
        match scan.step(answer) {
            ScanProgress::Call(next, next_call) => {
                scan = next;
                call = next_call;
            }
            ScanProgress::Done(adapters) => return Ok(adapters),
            ScanProgress::Failed(failure) => return Err(failure.error()),
        }
    }
}

#[test]
fn test_list_adapters_passes_over_what_does_not_tell_its_device() {
    let told = |node: u32| reply(sys::MFX_ERR_NONE, Handle::Device(device(node, b"GPU")));
    let unsupported = reply(
        sys::MFX_ERR_UNSUPPORTED,
        Handle::Device(device(127, b"GPU")),
    );
    let nodes = |devices: Vec<LoaderReply>| {
        scan_devices(devices).map(|adapters| {
            adapters
                .iter()
                .map(|adapter| adapter.drm_render_node)
                .collect::<Vec<u32>>()
        })
    };
    let listed = nodes(vec![
        reply(sys::MFX_ERR_UNSUPPORTED, Handle::Null),
        told(130),
        unsupported,
        told(0),
        reply(sys::MFX_ERR_NONE, Handle::Null),
        told(129),
        reply(sys::MFX_ERR_UNKNOWN, Handle::Null),
    ]);
    assert_eq!(listed.expect("a list"), vec![129, 130]);
    let error = into_err(
        nodes(vec![
            told(128),
            reply(
                sys::MFX_ERR_DEVICE_FAILED,
                Handle::Device(device(129, b"GPU")),
            ),
        ]),
        "the second gives an error",
    );
    assert_eq!(error.function(), "MFXEnumImplementations");
    assert_eq!(error.status_code(), Some(sys::MFX_ERR_DEVICE_FAILED));
}
