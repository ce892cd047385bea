//! Selection and enumeration of Intel hardware adapters.
use vstd::prelude::*;

use crate::error::answer;
use crate::error::Error;
use crate::error::ErrorView;
use crate::loader::DeviceId;
use crate::loader::Filter;
use crate::loader::Handle;
use crate::loader::Held;
use crate::loader::ImplDescription;
use crate::loader::LoaderCall;
use crate::loader::LoaderReply;
use crate::sequence::lemma_present_at;
use crate::sequence::lemma_present_from;
use crate::sequence::lemma_present_order;
use crate::sequence::present;
use crate::sequence::present_before;
use crate::sys;
use crate::text::c_array_to_string;
use crate::text::c_text;

verus! {

/// The adapter on which a session is opened.
#[derive(Debug, Clone, Copy, PartialEq, Eq, Structural)]
#[non_exhaustive]
pub enum AdapterSelector {
    /// The `N` of `/dev/dri/renderD<N>`, usually at least 128.
    DrmRenderNode(u32),
}

impl AdapterSelector {
    /// The number of the render node.
    pub open spec fn render_node(self) -> u32 {
        match self {
            AdapterSelector::DrmRenderNode(node) => node,
        }
    }

    /// Whether the adapter can be meant: render node 0 stands for "not set".
    pub open spec fn verdict(self) -> Result<(), ErrorView> {
        if self.render_node() == 0 {
            Err(
                ErrorView::custom(
                    "AdapterSelector::validate"@,
                    "DrmRenderNode(0) is reserved by libvpl and cannot be used"@,
                ),
            )
        } else {
            Ok(())
        }
    }

    /// Refuses render node 0, which VPL reserves for "not set".
    pub fn validate(self) -> (r: Result<(), Error>)
        ensures
            answer(r) == self.verdict(),
    {
        match self {
            AdapterSelector::DrmRenderNode(node) => if node == 0 {
                Err(
                    Error::new_custom(
                        "AdapterSelector::validate",
                        "DrmRenderNode(0) is reserved by libvpl and cannot be used",
                    ),
                )
            } else {
                Ok(())
            },
        }
    }
}

/// Whether a GPU is integrated or discrete.
#[derive(Debug, Clone, Copy, PartialEq, Eq, Structural)]
#[non_exhaustive]
pub enum MediaAdapterType {
    Integrated,
    Discrete,
    /// Not known: `MFX_MEDIA_UNKNOWN` or a value without a meaning.
    Unknown,
}

/// A PCI address.
#[derive(Debug, Clone, Copy, PartialEq, Eq, Structural)]
#[non_exhaustive]
pub struct PciAddress {
    pub domain: u32,
    pub bus: u32,
    pub device: u32,
    pub function: u32,
}

/// An Intel hardware implementation as the dispatcher lists it.
#[derive(Debug, Clone)]
#[non_exhaustive]
pub struct AdapterInfo {
    /// The `N` of `/dev/dri/renderD<N>`; goes into [`AdapterSelector::DrmRenderNode`].
    pub drm_render_node: u32,
    /// The name of the implementation, such as "mfx-gen". Empty if it cannot be read.
    pub impl_name: String,
    /// The name of the GPU. Empty if it cannot be read.
    pub device_name: String,
    /// The PCI device ID.
    pub pci_device_id: u16,
    pub pci_address: PciAddress,
    pub media_adapter_type: MediaAdapterType,
}

/// The content of an [`AdapterInfo`].
pub struct AdapterInfoView {
    pub drm_render_node: u32,
    pub impl_name: Seq<char>,
    pub device_name: Seq<char>,
    pub pci_device_id: u16,
    pub pci_address: PciAddress,
    pub media_adapter_type: MediaAdapterType,
}

impl View for AdapterInfo {
    type V = AdapterInfoView;

    open spec fn view(&self) -> AdapterInfoView {
        AdapterInfoView {
            drm_render_node: self.drm_render_node,
            impl_name: self.impl_name@,
            device_name: self.device_name@,
            pci_device_id: self.pci_device_id,
            pci_address: self.pci_address,
            media_adapter_type: self.media_adapter_type,
        }
    }
}

/// The meaning of a `MediaAdapterType` value.
pub open spec fn media_adapter_type_of(value: u16) -> MediaAdapterType {
    if value == sys::MFX_MEDIA_INTEGRATED {
        MediaAdapterType::Integrated
    } else if value == sys::MFX_MEDIA_DISCRETE {
        MediaAdapterType::Discrete
    } else {
        MediaAdapterType::Unknown
    }
}

/// The meaning of a `MediaAdapterType` value.
pub fn map_media_adapter_type(value: u16) -> (r: MediaAdapterType)
    ensures
        r == media_adapter_type_of(value),
{
    if value == sys::MFX_MEDIA_INTEGRATED {
        MediaAdapterType::Integrated
    } else if value == sys::MFX_MEDIA_DISCRETE {
        MediaAdapterType::Discrete
    } else {
        MediaAdapterType::Unknown
    }
}

/// What the two descriptions of one implementation say.
pub open spec fn adapter_of(description: ImplDescription, device: DeviceId) -> AdapterInfoView {
    AdapterInfoView {
        drm_render_node: device.drm_render_node,
        impl_name: c_text(description.impl_name@),
        device_name: c_text(device.device_name@),
        pci_device_id: device.device_id,
        pci_address: PciAddress {
            domain: device.pci_domain,
            bus: device.pci_bus,
            device: device.pci_device,
            function: device.pci_function,
        },
        media_adapter_type: media_adapter_type_of(description.media_adapter_type),
    }
}

fn read_adapter(description: &ImplDescription, device: &DeviceId) -> (r: AdapterInfo)
    ensures
        r@ == adapter_of(*description, *device),
{
    AdapterInfo {
        drm_render_node: device.drm_render_node,
        impl_name: c_array_to_string(description.impl_name.as_slice()),
        device_name: c_array_to_string(device.device_name.as_slice()),
        pci_device_id: device.device_id,
        pci_address: PciAddress {
            domain: device.pci_domain,
            bus: device.pci_bus,
            device: device.pci_device,
            function: device.pci_function,
        },
        media_adapter_type: map_media_adapter_type(description.media_adapter_type),
    }
}

/// Whether an adapter on this render node is in the list.
pub open spec fn has_node(list: Seq<AdapterInfoView>, node: u32) -> bool {
    exists|i: int| 0 <= i < list.len() && (#[trigger] list[i]).drm_render_node == node
}

/// Whether the render nodes in the list ascend, each occurring once.
pub open spec fn ascending(list: Seq<AdapterInfoView>) -> bool {
    forall|i: int, j: int|
        0 <= i < j < list.len() ==> list[i].drm_render_node < list[j].drm_render_node
}

/// The length of the longest prefix whose render nodes are all below `node`.
pub open spec fn place(list: Seq<AdapterInfoView>, node: u32) -> nat
    decreases list.len(),
{
    if list.len() == 0 || list.first().drm_render_node >= node {
        0
    } else {
        1 + place(list.drop_first(), node)
    }
}

/// The list after `info` was found: an unset render node and one already listed change nothing.
pub open spec fn listed_with(
    list: Seq<AdapterInfoView>,
    info: AdapterInfoView,
) -> Seq<AdapterInfoView> {
    if info.drm_render_node == 0 || has_node(list, info.drm_render_node) {
        list
    } else {
        list.insert(place(list, info.drm_render_node) as int, info)
    }
}

/// The views of a list of adapters.
pub open spec fn views(list: Seq<AdapterInfo>) -> Seq<AdapterInfoView> {
    list.map_values(|info: AdapterInfo| info@)
}

proof fn lemma_place(list: Seq<AdapterInfoView>, node: u32, at: int)
    requires
        0 <= at <= list.len(),
        forall|i: int| 0 <= i < at ==> (#[trigger] list[i]).drm_render_node < node,
        at == list.len() || list[at].drm_render_node >= node,
    ensures
        place(list, node) == at,
    decreases list.len(),
{
    if at > 0 {
        assert(list.first() == list[0]);
        assert forall|i: int| 0 <= i < at - 1 implies (#[trigger] list.drop_first()[i]).drm_render_node
            < node by {
            assert(list.drop_first()[i] == list[i + 1]);
        }
        lemma_place(list.drop_first(), node, at - 1);
    }
}

proof fn lemma_place_bounds(list: Seq<AdapterInfoView>, node: u32)
    ensures
        0 <= place(list, node) <= list.len(),
        forall|i: int|
            0 <= i < place(list, node) ==> (#[trigger] list[i]).drm_render_node < node,
        place(list, node) < list.len() ==> list[place(list, node) as int].drm_render_node >= node,
    decreases list.len(),
{
    if list.len() > 0 && list.first().drm_render_node < node {
        lemma_place_bounds(list.drop_first(), node);
        assert forall|i: int| 0 <= i < place(list, node) implies (#[trigger] list[i]).drm_render_node
            < node by {
            if i > 0 {
                assert(list[i] == list.drop_first()[i - 1]);
            }
        }
    }
}

/// Adds `info` to an ascending list unless its render node is unset or already listed.
fn add_adapter(list: &mut Vec<AdapterInfo>, info: AdapterInfo)
    requires
        ascending(views(old(list)@)),
    ensures
        views(final(list)@) == listed_with(views(old(list)@), info@),
{
    let ghost before = views(list@);
    let node: u32 = info.drm_render_node;
    if node == 0 {
        return ;
    }
    let mut at: usize = 0;
    while at < list.len() && list[at].drm_render_node < node
        invariant
            at <= list@.len(),
            before == views(list@),
            forall|i: int| 0 <= i < at ==> (#[trigger] before[i]).drm_render_node < node,
        decreases list@.len() - at,
    {
        assert(before[at as int] == list@[at as int]@);
        at = at + 1;
    }
    if at < list.len() && list[at].drm_render_node == node {
        assert(before[at as int] == list@[at as int]@);
        return ;
    }
    proof {
        if at < list@.len() {
            assert(before[at as int] == list@[at as int]@);
        }
        lemma_place(before, node, at as int);
        assert(!has_node(before, node)) by {
            if has_node(before, node) {
                let i = choose|i: int|
                    0 <= i < before.len() && (#[trigger] before[i]).drm_render_node == node;
                assert(i > at);
                assert(before[at as int].drm_render_node < before[i].drm_render_node);
            }
        }
    }
    list.insert(at, info);
    assert(views(list@) =~= before.insert(at as int, info@));
}

/// Why the adapters could not be listed.
#[derive(Debug, Clone, Copy, PartialEq, Eq, Structural)]
pub enum ScanFailure {
    /// `MFXLoad` returned null.
    NullLoader,
    /// `MFXCreateConfig` returned null.
    NullConfig,
    /// `MFXSetConfigFilterProperty` failed with this status.
    Filter(i32),
    /// `MFXEnumImplementations` failed with this status.
    Enumerate(i32),
    /// `MFXEnumImplementations` succeeded without a description.
    NullDescription,
}

impl ScanFailure {
    /// The error that reports the failure.
    pub open spec fn error_view(self) -> ErrorView {
        match self {
            ScanFailure::NullLoader => ErrorView::custom("MFXLoad"@, "returned null"@),
            ScanFailure::NullConfig => ErrorView::custom("MFXCreateConfig"@, "returned null"@),
            ScanFailure::Filter(status) => ErrorView::mfx(status, "MFXSetConfigFilterProperty"@),
            ScanFailure::Enumerate(status) => ErrorView::mfx(status, "MFXEnumImplementations"@),
            ScanFailure::NullDescription => ErrorView::custom(
                "MFXEnumImplementations"@,
                "returned null handle for IMPLDESCSTRUCTURE"@,
            ),
        }
    }

    /// The error that reports the failure.
    pub fn error(self) -> (r: Error)
        ensures
            r@ == self.error_view(),
    {
        match self {
            ScanFailure::NullLoader => Error::new_custom("MFXLoad", "returned null"),
            ScanFailure::NullConfig => Error::new_custom("MFXCreateConfig", "returned null"),
            ScanFailure::Filter(status) => Error::from_mfx(status, "MFXSetConfigFilterProperty"),
            ScanFailure::Enumerate(status) => Error::from_mfx(status, "MFXEnumImplementations"),
            ScanFailure::NullDescription => Error::new_custom(
                "MFXEnumImplementations",
                "returned null handle for IMPLDESCSTRUCTURE",
            ),
        }
    }
}

/// The call whose reply an [`AdapterScan`] waits for.
#[derive(Debug, Clone)]
pub enum ScanStage {
    Load,
    Config,
    Filter,
    /// The description of the implementation at the current index.
    Description,
    /// The device of the implementation at the current index, described by this.
    Device(ImplDescription),
    ReleaseDevice,
    /// The description is being released; then the scan goes on, or ends in the failure.
    ReleaseDescription(Option<ScanFailure>),
    /// The loader is being unloaded; then the scan ends, in the failure if there is one.
    Unload(Option<ScanFailure>),
}

/// The enumeration of the adapters. Its list is ascending in the render nodes.
#[derive(Debug)]
pub struct AdapterScan {
    stage: ScanStage,
    index: u32,
    adapters: Vec<AdapterInfo>,
}

/// The state of an [`AdapterScan`].
#[verifier::ext_equal]
pub struct AdapterScanView {
    /// The call whose reply is awaited.
    pub stage: ScanStage,
    /// The index of the current implementation.
    pub index: u32,
    /// The adapters found so far.
    pub adapters: Seq<AdapterInfoView>,
}

impl View for AdapterScan {
    type V = AdapterScanView;

    closed spec fn view(&self) -> AdapterScanView {
        AdapterScanView { stage: self.stage, index: self.index, adapters: views(self.adapters@) }
    }
}

/// How far the enumeration has come.
#[derive(Debug)]
pub enum ScanProgress {
    /// Make this call, then step with its reply.
    Call(AdapterScan, LoaderCall),
    /// These are the adapters, ascending in the render nodes.
    Done(Vec<AdapterInfo>),
    /// The adapters could not be listed.
    Failed(ScanFailure),
}

/// The content of a [`ScanProgress`].
pub enum ScanProgressView {
    Call(AdapterScanView, LoaderCall),
    Done(Seq<AdapterInfoView>),
    Failed(ScanFailure),
}

impl View for ScanProgress {
    type V = ScanProgressView;

    open spec fn view(&self) -> ScanProgressView {
        match *self {
            ScanProgress::Call(scan, call) => ScanProgressView::Call(scan@, call),
            ScanProgress::Done(adapters) => ScanProgressView::Done(views(adapters@)),
            ScanProgress::Failed(failure) => ScanProgressView::Failed(failure),
        }
    }
}

impl ScanStage {
    /// The call that is awaited at this stage.
    pub open spec fn call(self, index: u32) -> LoaderCall {
        match self {
            ScanStage::Load => LoaderCall::Load,
            ScanStage::Config => LoaderCall::CreateConfig,
            ScanStage::Filter => LoaderCall::SetFilter(Filter::Hardware),
            ScanStage::Description => LoaderCall::EnumDescription(index),
            ScanStage::Device(_) => LoaderCall::EnumDevice(index),
            ScanStage::ReleaseDevice => LoaderCall::ReleaseDevice,
            ScanStage::ReleaseDescription(_) => LoaderCall::ReleaseDescription,
            ScanStage::Unload(_) => LoaderCall::Unload,
        }
    }

    /// What is held of the dispatcher before the call of this stage is made.
    pub open spec fn held(self) -> Held {
        Held {
            loader: self !is Load,
            description: self is Device || self is ReleaseDevice || self is ReleaseDescription,
            device: self is ReleaseDevice,
        }
    }

    fn next_call(&self, index: u32) -> (r: LoaderCall)
        ensures
            r == self.call(index),
    {
        match self {
            ScanStage::Load => LoaderCall::Load,
            ScanStage::Config => LoaderCall::CreateConfig,
            ScanStage::Filter => LoaderCall::SetFilter(Filter::Hardware),
            ScanStage::Description => LoaderCall::EnumDescription(index),
            ScanStage::Device(_) => LoaderCall::EnumDevice(index),
            ScanStage::ReleaseDevice => LoaderCall::ReleaseDevice,
            ScanStage::ReleaseDescription(_) => LoaderCall::ReleaseDescription,
            ScanStage::Unload(_) => LoaderCall::Unload,
        }
    }
}

impl AdapterScanView {
    /// The scan at another stage.
    pub open spec fn at(self, stage: ScanStage) -> ScanProgressView {
        ScanProgressView::Call(AdapterScanView { stage, ..self }, stage.call(self.index))
    }

    /// Whether there is a next index, if the scan goes on to it with the next reply.
    pub open spec fn may_go_on(self) -> bool {
        self.stage == ScanStage::ReleaseDescription(None) ==> self.index < u32::MAX
    }

    /// What the reply to the awaited call leads to.
    ///
    /// Enumeration ends with the first index that has no implementation. An implementation that
    /// does not tell its device is passed over.
    pub open spec fn after(self, reply: LoaderReply) -> ScanProgressView {
        let status = reply.status;
        match self.stage {
            ScanStage::Load => if reply.handle is Null {
                ScanProgressView::Failed(ScanFailure::NullLoader)
            } else {
                self.at(ScanStage::Config)
            },
            ScanStage::Config => if reply.handle is Null {
                self.at(ScanStage::Unload(Some(ScanFailure::NullConfig)))
            } else {
                self.at(ScanStage::Filter)
            },
            ScanStage::Filter => if status != sys::MFX_ERR_NONE {
                self.at(ScanStage::Unload(Some(ScanFailure::Filter(status))))
            } else {
                self.at(ScanStage::Description)
            },
            ScanStage::Description => if status == sys::MFX_ERR_NOT_FOUND {
                self.at(ScanStage::Unload(None))
            } else if status != sys::MFX_ERR_NONE {
                self.at(ScanStage::Unload(Some(ScanFailure::Enumerate(status))))
            } else {
                match reply.handle {
                    Handle::Description(description) => self.at(ScanStage::Device(description)),
                    _ => self.at(ScanStage::Unload(Some(ScanFailure::NullDescription))),
                }
            },
            ScanStage::Device(description) => match reply.handle {
                Handle::Device(device) => if status == sys::MFX_ERR_UNSUPPORTED {
                    self.at(ScanStage::ReleaseDescription(None))
                } else if status != sys::MFX_ERR_NONE {
                    self.at(ScanStage::ReleaseDescription(Some(ScanFailure::Enumerate(status))))
                } else {
                    AdapterScanView {
                        adapters: listed_with(self.adapters, adapter_of(description, device)),
                        ..self
                    }.at(ScanStage::ReleaseDevice)
                },
                _ => self.at(ScanStage::ReleaseDescription(None)),
            },
            ScanStage::ReleaseDevice => self.at(ScanStage::ReleaseDescription(None)),
            ScanStage::ReleaseDescription(None) => AdapterScanView {
                index: (self.index + 1) as u32,
                ..self
            }.at(ScanStage::Description),
            ScanStage::ReleaseDescription(Some(failure)) => self.at(
                ScanStage::Unload(Some(failure)),
            ),
            ScanStage::Unload(None) => ScanProgressView::Done(self.adapters),
            ScanStage::Unload(Some(failure)) => ScanProgressView::Failed(failure),
        }
    }
}

impl AdapterScan {
    #[verifier::type_invariant]
    spec fn wf(self) -> bool {
        &&& ascending(views(self.adapters@))
        &&& !has_node(views(self.adapters@), 0)
    }

    fn goes_on(stage: ScanStage, index: u32, adapters: Vec<AdapterInfo>) -> (r: ScanProgress)
        requires
            ascending(views(adapters@)),
            !has_node(views(adapters@), 0),
        ensures
            r@ == (AdapterScanView { stage, index, adapters: views(adapters@) }).at(stage),
    {
        let call = stage.next_call(index);
        ScanProgress::Call(AdapterScan { stage, index, adapters }, call)
    }

    /// Whether the scan is short of the end of the indices, or at least does not go on to the next.
    pub fn may_go_on(&self) -> (r: bool)
        ensures
            r == self@.may_go_on(),
    {
        match self.stage {
            ScanStage::ReleaseDescription(None) => self.index < u32::MAX,
            _ => true,
        }
    }

    /// Takes the reply to the call named last. Indices are 32-bit numbers: the last of them cannot
    /// be passed.
    pub fn step(self, reply: LoaderReply) -> (r: ScanProgress)
        requires
            self@.may_go_on(),
        ensures
            r@ == self@.after(reply),
            r@ matches ScanProgressView::Done(adapters) ==> ascending(adapters) && !has_node(
                adapters,
                0,
            ),
    {
        proof {
            use_type_invariant(&self);
        }
        let ghost view = self@;
        let AdapterScan { stage, index, mut adapters } = self;
        let status = reply.status;
        match stage {
            ScanStage::Load => match reply.handle {
                Handle::Null => ScanProgress::Failed(ScanFailure::NullLoader),
                _ => Self::goes_on(ScanStage::Config, index, adapters),
            },
            ScanStage::Config => match reply.handle {
                Handle::Null => Self::goes_on(
                    ScanStage::Unload(Some(ScanFailure::NullConfig)),
                    index,
                    adapters,
                ),
                _ => Self::goes_on(ScanStage::Filter, index, adapters),
            },
            ScanStage::Filter => if status != sys::MFX_ERR_NONE {
                Self::goes_on(
                    ScanStage::Unload(Some(ScanFailure::Filter(status))),
                    index,
                    adapters,
                )
            } else {
                Self::goes_on(ScanStage::Description, index, adapters)
            },
            ScanStage::Description => if status == sys::MFX_ERR_NOT_FOUND {
                Self::goes_on(ScanStage::Unload(None), index, adapters)
            } else if status != sys::MFX_ERR_NONE {
                Self::goes_on(
                    ScanStage::Unload(Some(ScanFailure::Enumerate(status))),
                    index,
                    adapters,
                )
            } else {
                match reply.handle {
                    Handle::Description(description) => Self::goes_on(
                        ScanStage::Device(description),
                        index,
                        adapters,
                    ),
                    _ => Self::goes_on(
                        ScanStage::Unload(Some(ScanFailure::NullDescription)),
                        index,
                        adapters,
                    ),
                }
            },
            ScanStage::Device(description) => match reply.handle {
                Handle::Device(device) => if status == sys::MFX_ERR_UNSUPPORTED {
                    Self::goes_on(ScanStage::ReleaseDescription(None), index, adapters)
                } else if status != sys::MFX_ERR_NONE {
                    Self::goes_on(
                        ScanStage::ReleaseDescription(Some(ScanFailure::Enumerate(status))),
                        index,
                        adapters,
                    )
                } else {
                    let info = read_adapter(&description, &device);
                    proof {
                        law_listing_keeps_ascending(view.adapters, info@);
                        law_listed_nodes_are_set(view.adapters, info@);
                    }
                    add_adapter(&mut adapters, info);
                    Self::goes_on(ScanStage::ReleaseDevice, index, adapters)
                },
                _ => Self::goes_on(ScanStage::ReleaseDescription(None), index, adapters),
            },
            ScanStage::ReleaseDevice => Self::goes_on(
                ScanStage::ReleaseDescription(None),
                index,
                adapters,
            ),
            ScanStage::ReleaseDescription(None) => Self::goes_on(
                ScanStage::Description,
                index + 1,
                adapters,
            ),
            ScanStage::ReleaseDescription(Some(failure)) => Self::goes_on(
                ScanStage::Unload(Some(failure)),
                index,
                adapters,
            ),
            ScanStage::Unload(None) => ScanProgress::Done(adapters),
            ScanStage::Unload(Some(failure)) => ScanProgress::Failed(failure),
        }
    }

    /// The index of the implementation that the scan is at.
    pub fn index(&self) -> (r: u32)
        ensures
            r == self@.index,
    {
        self.index
    }
}

/// What the enumeration starts from.
pub open spec fn scan_start() -> AdapterScanView {
    AdapterScanView { stage: ScanStage::Load, index: 0, adapters: Seq::empty() }
}

/// Starts to list the Intel hardware implementations.
///
/// The list has one entry for each DRM render node, ascending, and is empty if there is none. Each
/// run loads and unloads the dispatcher, so callers do well to keep the list.
pub fn list_adapters() -> (r: (AdapterScan, LoaderCall))
    ensures
        r.0@ == scan_start(),
        r.1 == LoaderCall::Load,
{
    let scan = AdapterScan { stage: ScanStage::Load, index: 0, adapters: Vec::new() };
    assert(scan@ =~= scan_start());
    (scan, LoaderCall::Load)
}

/// Listing an adapter keeps the render nodes ascending, each occurring once.
pub proof fn law_listing_keeps_ascending(list: Seq<AdapterInfoView>, info: AdapterInfoView)
    requires
        ascending(list),
    ensures
        ascending(listed_with(list, info)),
{
    let node = info.drm_render_node;
    if node != 0 && !has_node(list, node) {
        lemma_place_bounds(list, node);
        let at = place(list, node) as int;
        let after = list.insert(at, info);
        assert forall|i: int, j: int| 0 <= i < j < after.len() implies after[i].drm_render_node
            < after[j].drm_render_node by {
            if at < list.len() {
                assert(list[at].drm_render_node != node);
            }
            if i == at {
                assert(after[j] == list[j - 1]);
                if j - 1 > at {
                    assert(list[at].drm_render_node < list[j - 1].drm_render_node);
                }
            } else if j == at {
                assert(after[i] == list[i]);
            } else {
                let a = if i < at { i } else { i - 1 };
                let b = if j < at { j } else { j - 1 };
                assert(after[i] == list[a] && after[j] == list[b]);
            }
        }
    }
}

/// Listing an adapter lists no unset render node.
pub proof fn law_listed_nodes_are_set(list: Seq<AdapterInfoView>, info: AdapterInfoView)
    requires
        !has_node(list, 0),
    ensures
        !has_node(listed_with(list, info), 0),
{
    let after = listed_with(list, info);
    if has_node(after, 0) && info.drm_render_node != 0 && !has_node(list, info.drm_render_node) {
        lemma_place_bounds(list, info.drm_render_node);
        let at = place(list, info.drm_render_node) as int;
        let k = choose|k: int| 0 <= k < after.len() && (#[trigger] after[k]).drm_render_node == 0;
        assert(after[k] == if k == at {
            info
        } else {
            list[if k < at { k } else { k - 1 }]
        });
    }
}

/// The list after these implementations were found, in this order.
pub open spec fn adapters_of(found: Seq<(ImplDescription, DeviceId)>) -> Seq<AdapterInfoView>
    decreases found.len(),
{
    if found.len() == 0 {
        Seq::empty()
    } else {
        listed_with(
            adapters_of(found.drop_last()),
            adapter_of(found.last().0, found.last().1),
        )
    }
}

/// Whether the implementation at `i` is the first found on its render node, and that is set.
pub open spec fn first_on_its_node(found: Seq<(ImplDescription, DeviceId)>, i: int) -> bool {
    &&& 0 <= i < found.len()
    &&& found[i].1.drm_render_node != 0
    &&& forall|j: int|
        0 <= j < i ==> (#[trigger] found[j]).1.drm_render_node != found[i].1.drm_render_node
}

/// Whether this was found, and before anything else on its render node.
pub open spec fn found_first(
    found: Seq<(ImplDescription, DeviceId)>,
    info: AdapterInfoView,
) -> bool {
    exists|i: int| #[trigger]
        first_on_its_node(found, i) && info == adapter_of(found[i].0, found[i].1)
}

/// Whether something was found on this render node.
spec fn node_found(found: Seq<(ImplDescription, DeviceId)>, node: u32) -> bool {
    exists|j: int| 0 <= j < found.len() && (#[trigger] found[j]).1.drm_render_node == node
}

proof fn lemma_listed_with_nodes(list: Seq<AdapterInfoView>, info: AdapterInfoView, node: u32)
    requires
        node != 0,
    ensures
        has_node(listed_with(list, info), node) <==> has_node(list, node) || node
            == info.drm_render_node,
{
    let after = listed_with(list, info);
    lemma_place_bounds(list, info.drm_render_node);
    let at = place(list, info.drm_render_node) as int;
    if info.drm_render_node != 0 && !has_node(list, info.drm_render_node) {
        assert(after[at] == info);
        if has_node(list, node) {
            let k = choose|k: int|
                0 <= k < list.len() && (#[trigger] list[k]).drm_render_node == node;
            assert(after[if k < at { k } else { k + 1 }] == list[k]);
        }
        if has_node(after, node) && node != info.drm_render_node {
            let k = choose|k: int|
                0 <= k < after.len() && (#[trigger] after[k]).drm_render_node == node;
            assert(after[k] == list[if k < at { k } else { k - 1 }]);
        }
    }
}

proof fn lemma_found_nodes_are_listed(found: Seq<(ImplDescription, DeviceId)>, node: u32)
    requires
        node != 0,
    ensures
        has_node(adapters_of(found), node) <==> node_found(found, node),
    decreases found.len(),
{
    if found.len() > 0 {
        let before = found.drop_last();
        lemma_found_nodes_are_listed(before, node);
        lemma_listed_with_nodes(
            adapters_of(before),
            adapter_of(found.last().0, found.last().1),
            node,
        );
        if node_found(before, node) {
            let j = choose|j: int|
                0 <= j < before.len() && (#[trigger] before[j]).1.drm_render_node == node;
            assert(found[j].1.drm_render_node == node);
        }
        if node_found(found, node) && found.last().1.drm_render_node != node {
            let j = choose|j: int|
                0 <= j < found.len() && (#[trigger] found[j]).1.drm_render_node == node;
            assert(before[j].1.drm_render_node == node);
        }
        if found.last().1.drm_render_node == node {
            assert(found[found.len() - 1].1.drm_render_node == node);
        }
    }
}

proof fn lemma_first_among_more(found: Seq<(ImplDescription, DeviceId)>, i: int)
    requires
        0 <= i < found.len() - 1,
    ensures
        first_on_its_node(found.drop_last(), i) == first_on_its_node(found, i),
{
    let before = found.drop_last();
    if first_on_its_node(before, i) {
        assert forall|j: int| 0 <= j < i implies (#[trigger] found[j]).1.drm_render_node
            != found[i].1.drm_render_node by {
            assert(before[j] == found[j]);
        }
    }
    if first_on_its_node(found, i) {
        assert forall|j: int| 0 <= j < i implies (#[trigger] before[j]).1.drm_render_node
            != before[i].1.drm_render_node by {
            assert(before[j] == found[j]);
        }
    }
}

proof fn lemma_listed_with_contains(
    list: Seq<AdapterInfoView>,
    info: AdapterInfoView,
    other: AdapterInfoView,
)
    ensures
        listed_with(list, info).contains(other) <==> list.contains(other) || (other == info
            && info.drm_render_node != 0 && !has_node(list, info.drm_render_node)),
{
    let after = listed_with(list, info);
    lemma_place_bounds(list, info.drm_render_node);
    let at = place(list, info.drm_render_node) as int;
    if info.drm_render_node != 0 && !has_node(list, info.drm_render_node) {
        assert(after[at] == info);
        if list.contains(other) {
            let k = choose|k: int| 0 <= k < list.len() && list[k] == other;
            assert(after[if k < at { k } else { k + 1 }] == other);
        }
        if after.contains(other) && other != info {
            let k = choose|k: int| 0 <= k < after.len() && after[k] == other;
            assert(list[if k < at { k } else { k - 1 }] == other);
        }
    }
}

proof fn lemma_found_first_step(found: Seq<(ImplDescription, DeviceId)>, info: AdapterInfoView)
    requires
        found.len() > 0,
    ensures
        found_first(found, info) <==> found_first(found.drop_last(), info) || (
        first_on_its_node(found, found.len() - 1) && info == adapter_of(
            found.last().0,
            found.last().1,
        )),
{
    let before = found.drop_last();
    if found_first(before, info) {
        let i = choose|i: int| #[trigger]
            first_on_its_node(before, i) && info == adapter_of(before[i].0, before[i].1);
        lemma_first_among_more(found, i);
        assert(first_on_its_node(found, i));
    }
    if found_first(found, info) {
        let i = choose|i: int| #[trigger]
            first_on_its_node(found, i) && info == adapter_of(found[i].0, found[i].1);
        if i < found.len() - 1 {
            lemma_first_among_more(found, i);
            assert(first_on_its_node(before, i));
        }
    }
}

proof fn lemma_last_is_first_on_its_node(found: Seq<(ImplDescription, DeviceId)>)
    requires
        found.len() > 0,
    ensures
        first_on_its_node(found, found.len() - 1) <==> found.last().1.drm_render_node != 0
            && !node_found(found.drop_last(), found.last().1.drm_render_node),
{
    let before = found.drop_last();
    let node = found.last().1.drm_render_node;
    if node_found(before, node) {
        let j = choose|j: int|
            0 <= j < before.len() && (#[trigger] before[j]).1.drm_render_node == node;
        assert(found[j].1.drm_render_node == node);
    } else {
        assert forall|j: int| 0 <= j < found.len() - 1 implies (
        #[trigger] found[j]).1.drm_render_node != node by {
            assert(before[j] == found[j]);
        }
    }
}

/// The list is ascending, with each render node once, and holds exactly what was found first on
/// its render node; what names no render node is not listed.
pub proof fn law_first_found_on_each_node_is_listed(
    found: Seq<(ImplDescription, DeviceId)>,
    info: AdapterInfoView,
)
    ensures
        ascending(adapters_of(found)),
        adapters_of(found).contains(info) <==> found_first(found, info),
    decreases found.len(),
{
    if found.len() > 0 {
        let before = found.drop_last();
        let last = adapter_of(found.last().0, found.last().1);
        law_first_found_on_each_node_is_listed(before, info);
        law_listing_keeps_ascending(adapters_of(before), last);
        lemma_listed_with_contains(adapters_of(before), last, info);
        lemma_found_first_step(found, info);
        lemma_last_is_first_on_its_node(found);
        if last.drm_render_node != 0 {
            lemma_found_nodes_are_listed(before, last.drm_render_node);
        }
    }
}

/// Whatever the dispatcher replies, the scan accounts for what it holds: each call that it names
/// finds held what the calls before it left held, and when it ends nothing is held.
pub proof fn law_scan_releases_what_it_holds(scan: AdapterScanView, reply: LoaderReply)
    ensures
        match scan.after(reply) {
            ScanProgressView::Call(next, call) => {
                &&& call == next.stage.call(next.index)
                &&& next.stage.held() == scan.stage.held().after(
                    scan.stage.call(scan.index),
                    reply,
                )
            },
            _ => scan.stage.held().after(scan.stage.call(scan.index), reply) == Held::nothing(),
        },
{
}

/// An implementation as a dispatcher shows it.
pub struct Implementation {
    pub description: ImplDescription,
    /// The reply to being asked for the device.
    pub device: LoaderReply,
}

impl Implementation {
    /// Whether the device is told.
    pub open spec fn tells_device(self) -> bool {
        self.device.handle is Device && self.device.status == sys::MFX_ERR_NONE
    }

    /// Whether the scan passes the implementation over: it does not support telling its device, or
    /// gives none.
    pub open spec fn is_passed_over(self) -> bool {
        self.device.handle !is Device || self.device.status == sys::MFX_ERR_UNSUPPORTED
    }
}

/// What each of these implementations tells of its device.
pub open spec fn told_devices(found: Seq<Implementation>) -> Seq<
    Option<(ImplDescription, DeviceId)>,
> {
    found.map_values(
        |each: Implementation|
            if each.tells_device() {
                Some((each.description, each.device.handle->Device_0))
            } else {
                None
            },
    )
}

/// The implementations that tell their device, in this order.
pub open spec fn telling(found: Seq<Implementation>) -> Seq<(ImplDescription, DeviceId)> {
    present(told_devices(found))
}

proof fn lemma_telling_one_more(found: Seq<Implementation>, k: int)
    requires
        0 <= k < found.len(),
    ensures
        telling(found.take(k + 1)) == (if found[k].tells_device() {
            telling(found.take(k)).push((found[k].description, found[k].device.handle->Device_0))
        } else {
            telling(found.take(k))
        }),
{
    assert(told_devices(found.take(k + 1)).drop_last() =~= told_devices(found.take(k)));
    assert(found.take(k + 1).last() == found[k]);
}

/// How a dispatcher that has these implementations replies.
pub open spec fn dispatcher_reply(found: Seq<Implementation>, call: LoaderCall) -> LoaderReply {
    match call {
        LoaderCall::EnumDescription(i) => if i < found.len() {
            LoaderReply {
                status: sys::MFX_ERR_NONE,
                handle: Handle::Description(found[i as int].description),
            }
        } else {
            LoaderReply { status: sys::MFX_ERR_NOT_FOUND, handle: Handle::Null }
        },
        LoaderCall::EnumDevice(i) => found[i as int].device,
        _ => LoaderReply { status: sys::MFX_ERR_NONE, handle: Handle::Opaque },
    }
}

/// What a scan comes to with so many calls of that dispatcher.
pub open spec fn scan_run(
    at: ScanProgressView,
    found: Seq<Implementation>,
    calls: nat,
) -> ScanProgressView
    decreases calls,
{
    match at {
        ScanProgressView::Call(scan, call) => if calls == 0 {
            at
        } else {
            scan_run(scan.after(dispatcher_reply(found, call)), found, (calls - 1) as nat)
        },
        _ => at,
    }
}

proof fn lemma_scan_run_from(found: Seq<Implementation>, k: nat, calls: nat)
    requires
        k <= found.len() <= u32::MAX,
        forall|i: int|
            0 <= i < found.len() ==> (#[trigger] found[i]).tells_device()
                || found[i].is_passed_over(),
        calls >= 4 * (found.len() - k) + 2,
    ensures
        scan_run(
            (AdapterScanView {
                stage: ScanStage::Description,
                index: k as u32,
                adapters: adapters_of(telling(found.take(k as int))),
            }).at(ScanStage::Description),
            found,
            calls,
        ) == ScanProgressView::Done(adapters_of(telling(found))),
    decreases found.len() - k,
{
    reveal_with_fuel(scan_run, 5);
    if k < found.len() {
        let next = found[k as int];
        let told = telling(found.take(k as int));
        lemma_telling_one_more(found, k as int);
        if next.tells_device() {
            lemma_scan_run_from(found, k + 1, (calls - 4) as nat);
            assert(told.push((next.description, next.device.handle->Device_0)).drop_last() =~= told);
        } else {
            lemma_scan_run_from(found, k + 1, (calls - 3) as nat);
        }
    } else {
        assert(found.take(k as int) =~= found);
    }
}

/// A scan of a dispatcher whose implementations tell their device or are passed over ends in the
/// list of the adapters of those that tell it, after four calls at most for each implementation and
/// five more.
pub proof fn law_scan_lists_the_adapters(found: Seq<Implementation>, calls: nat)
    requires
        found.len() <= u32::MAX,
        forall|i: int|
            0 <= i < found.len() ==> (#[trigger] found[i]).tells_device()
                || found[i].is_passed_over(),
        calls >= 4 * found.len() + 5,
    ensures
        scan_run(scan_start().at(ScanStage::Load), found, calls) == ScanProgressView::Done(
            adapters_of(telling(found)),
        ),
{
    reveal_with_fuel(scan_run, 4);
    assert(found.take(0) =~= Seq::empty());
    lemma_scan_run_from(found, 0, (calls - 3) as nat);
}

proof fn lemma_scan_run_stops_at(found: Seq<Implementation>, k: nat, at: nat, calls: nat)
    requires
        k <= at < found.len(),
        at <= u32::MAX,
        forall|i: int|
            0 <= i < at ==> (#[trigger] found[i]).tells_device() || found[i].is_passed_over(),
        !found[at as int].tells_device(),
        !found[at as int].is_passed_over(),
        calls >= 4 * (at - k) + 4,
    ensures
        scan_run(
            (AdapterScanView {
                stage: ScanStage::Description,
                index: k as u32,
                adapters: adapters_of(telling(found.take(k as int))),
            }).at(ScanStage::Description),
            found,
            calls,
        ) == ScanProgressView::Failed(ScanFailure::Enumerate(found[at as int].device.status)),
    decreases at - k,
{
    reveal_with_fuel(scan_run, 5);
    if k < at {
        let next = found[k as int];
        let told = telling(found.take(k as int));
        lemma_telling_one_more(found, k as int);
        if next.tells_device() {
            lemma_scan_run_stops_at(found, k + 1, at, (calls - 4) as nat);
            assert(told.push((next.description, next.device.handle->Device_0)).drop_last() =~= told);
        } else {
            lemma_scan_run_stops_at(found, k + 1, at, (calls - 3) as nat);
        }
    }
}

/// A scan fails with the status of the first implementation that gives a device with any other
/// status.
pub proof fn law_scan_fails_at_the_first_error(found: Seq<Implementation>, at: nat, calls: nat)
    requires
        at < found.len(),
        at <= u32::MAX,
        forall|i: int|
            0 <= i < at ==> (#[trigger] found[i]).tells_device() || found[i].is_passed_over(),
        !found[at as int].tells_device(),
        !found[at as int].is_passed_over(),
        calls >= 4 * at + 7,
    ensures
        scan_run(scan_start().at(ScanStage::Load), found, calls) == ScanProgressView::Failed(
            ScanFailure::Enumerate(found[at as int].device.status),
        ),
{
    reveal_with_fuel(scan_run, 4);
    assert(found.take(0) =~= Seq::empty());
    lemma_scan_run_stops_at(found, 0, at, (calls - 3) as nat);
}

/// Every render node but 0 can be meant.
pub proof fn law_render_node_zero_is_refused(node: u32)
    ensures
        AdapterSelector::DrmRenderNode(node).render_node() == node,
        AdapterSelector::DrmRenderNode(node).verdict() is Ok <==> node != 0,
        node == 0 ==> {
            let error = AdapterSelector::DrmRenderNode(node).verdict()->Err_0;
            &&& error.function == "AdapterSelector::validate"@
            &&& error.status_code is None
            &&& error.status_message == Some(
                "DrmRenderNode(0) is reserved by libvpl and cannot be used"@,
            )
        },
{
}

/// An adapter is listed with what the two descriptions say: the node, the address and the number of
/// its device, the texts of both names, and whether it is integrated (0) or discrete (1).
pub proof fn law_adapter_is_listed_as_described(description: ImplDescription, device: DeviceId)
    ensures
        ({
            let info = adapter_of(description, device);
            &&& info.drm_render_node == device.drm_render_node
            &&& info.pci_device_id == device.device_id
            &&& info.pci_address.domain == device.pci_domain
            &&& info.pci_address.bus == device.pci_bus
            &&& info.pci_address.device == device.pci_device
            &&& info.pci_address.function == device.pci_function
            &&& info.impl_name == c_text(description.impl_name@)
            &&& info.device_name == c_text(device.device_name@)
            &&& info.media_adapter_type == MediaAdapterType::Integrated
                <==> description.media_adapter_type == 0
            &&& info.media_adapter_type == MediaAdapterType::Discrete
                <==> description.media_adapter_type == 1
            &&& info.media_adapter_type == MediaAdapterType::Unknown
                <==> description.media_adapter_type > 1
        }),
{
}

/// Whether the implementation at `k` tells a device on a render node that is set and that none before
/// it tells.
pub open spec fn tells_first(found: Seq<Implementation>, k: int) -> bool {
    &&& 0 <= k < found.len()
    &&& found[k].device.handle is Device && found[k].device.status == 0
    &&& found[k].device.handle->Device_0.drm_render_node != 0
    &&& forall|j: int|
        0 <= j < k && (#[trigger] found[j]).device.handle is Device && found[j].device.status == 0
            ==> found[j].device.handle->Device_0.drm_render_node
            != found[k].device.handle->Device_0.drm_render_node
}

/// Of a dispatcher whose implementations tell their device, or give none, or do not support telling
/// it, a scan lists the render nodes in strictly ascending order. An adapter is in the list exactly if
/// its implementation is the first that tells its render node.
pub proof fn law_scan_lists_each_render_node_once(
    found: Seq<Implementation>,
    calls: nat,
    info: AdapterInfoView,
)
    requires
        found.len() <= u32::MAX,
        forall|i: int|
            0 <= i < found.len() ==> (#[trigger] found[i]).device.handle !is Device
                || found[i].device.status == 0 || found[i].device.status == -3,
        calls >= 4 * found.len() + 5,
    ensures
        ({
            let end = scan_run(scan_start().at(ScanStage::Load), found, calls);
            &&& end is Done
            &&& forall|i: int, j: int|
                0 <= i < j < end->Done_0.len() ==> end->Done_0[i].drm_render_node
                    < end->Done_0[j].drm_render_node
            &&& end->Done_0.contains(info) <==> exists|k: int| #[trigger]
                tells_first(found, k) && info == adapter_of(
                    found[k].description,
                    found[k].device.handle->Device_0,
                )
        }),
{
    law_scan_lists_the_adapters(found, calls);
    law_first_found_on_each_node_is_listed(telling(found), info);
    let told = telling(found);
    let items = told_devices(found);
    if found_first(told, info) {
        let i = choose|i: int| #[trigger]
            first_on_its_node(told, i) && info == adapter_of(told[i].0, told[i].1);
        let k = lemma_present_from(items, i);
        assert forall|j: int|
            0 <= j < k && (#[trigger] found[j]).device.handle is Device && found[j].device.status
                == 0 implies found[j].device.handle->Device_0.drm_render_node
            != found[k].device.handle->Device_0.drm_render_node by {
            lemma_present_at(items, j);
            lemma_present_order(items, j, k);
            assert(told[present_before(items, j)].1.drm_render_node != told[i].1.drm_render_node);
        }
        assert(tells_first(found, k));
    }
    if exists|k: int| #[trigger]
        tells_first(found, k) && info == adapter_of(
            found[k].description,
            found[k].device.handle->Device_0,
        ) {
        let k = choose|k: int| #[trigger]
            tells_first(found, k) && info == adapter_of(
                found[k].description,
                found[k].device.handle->Device_0,
            );
        lemma_present_at(items, k);
        let i = present_before(items, k);
        assert forall|j: int| 0 <= j < i implies (#[trigger] told[j]).1.drm_render_node
            != told[i].1.drm_render_node by {
            let from = lemma_present_from(items, j);
            if from > k {
                lemma_present_order(items, k, from);
            }
            assert(found[from].device.handle is Device);
        }
        assert(first_on_its_node(told, i));
    }
}

/// Each call of a scan is the one that its stage waits for, and for the implementation that it is at.
pub proof fn law_scan_asks_in_order(scan: AdapterScanView, reply: LoaderReply)
    ensures
        scan.after(reply) matches ScanProgressView::Call(next, call) ==> match next.stage {
            ScanStage::Load => call == LoaderCall::Load,
            ScanStage::Config => call == LoaderCall::CreateConfig,
            ScanStage::Filter => call == LoaderCall::SetFilter(Filter::Hardware),
            ScanStage::Description => call == LoaderCall::EnumDescription(next.index),
            ScanStage::Device(_) => call == LoaderCall::EnumDevice(next.index),
            ScanStage::ReleaseDevice => call == LoaderCall::ReleaseDevice,
            ScanStage::ReleaseDescription(_) => call == LoaderCall::ReleaseDescription,
            ScanStage::Unload(_) => call == LoaderCall::Unload,
        },
        scan.after(reply) matches ScanProgressView::Call(next, _) ==> next.index == scan.index || (
        next.index == (scan.index + 1) as u32 && next.stage is Description),
{
}

/// A scan goes wrong if the dispatcher cannot be loaded or configured, does not take the filter, or
/// fails to enumerate, and it says which. The end of the list is no failure.
pub proof fn law_scan_failures(scan: AdapterScanView, reply: LoaderReply)
    ensures
        ({
            let unloads = |end: Option<ScanFailure>|
                scan.after(reply) matches ScanProgressView::Call(next, _) && next.stage
                    == ScanStage::Unload(end);
            let null = reply.handle is Null;
            match scan.stage {
                ScanStage::Load => null <==> scan.after(reply) == ScanProgressView::Failed(
                    ScanFailure::NullLoader,
                ),
                ScanStage::Config => null <==> unloads(Some(ScanFailure::NullConfig)),
                ScanStage::Filter => reply.status != 0 <==> unloads(
                    Some(ScanFailure::Filter(reply.status)),
                ),
                ScanStage::Description => {
                    &&& reply.status == -9 <==> unloads(None)
                    &&& reply.status != -9 && reply.status != 0 <==> unloads(
                        Some(ScanFailure::Enumerate(reply.status)),
                    )
                    &&& reply.status == 0 && reply.handle !is Description <==> unloads(
                        Some(ScanFailure::NullDescription),
                    )
                },
                ScanStage::Unload(None) => scan.after(reply) == ScanProgressView::Done(
                    scan.adapters,
                ),
                ScanStage::Unload(Some(failure)) => scan.after(reply) == ScanProgressView::Failed(
                    failure,
                ),
                _ => scan.after(reply) is Call,
            }
        }),
{
}

/// A failure is reported by the function that failed, with its status if it gave one.
pub proof fn law_scan_failures_are_reported(failure: ScanFailure)
    ensures
        ({
            let error = failure.error_view();
            match failure {
                ScanFailure::NullLoader => error.function == "MFXLoad"@ && error.status_code is None
                    && error.status_message == Some("returned null"@),
                ScanFailure::NullConfig => error.function == "MFXCreateConfig"@ && error.status_code is None
                    && error.status_message == Some("returned null"@),
                ScanFailure::Filter(status) => error == ErrorView::mfx(
                    status,
                    "MFXSetConfigFilterProperty"@,
                ),
                ScanFailure::Enumerate(status) => error == ErrorView::mfx(
                    status,
                    "MFXEnumImplementations"@,
                ),
                ScanFailure::NullDescription => error.function == "MFXEnumImplementations"@
                    && error.status_code is None && error.status_message == Some(
                    "returned null handle for IMPLDESCSTRUCTURE"@,
                ),
            }
        }),
{
}

/// A scan can go on but from the last index to the next.
pub proof fn law_scan_can_go_on_up_to_the_last_index(scan: AdapterScanView)
    ensures
        scan.may_go_on() <==> !(scan.index == u32::MAX && scan.stage
            == ScanStage::ReleaseDescription(None)),
{
}

/// A list of adapters is seen as it is, entry by entry.
pub proof fn law_list_is_seen_as_it_is(list: Seq<AdapterInfo>, i: int)
    requires
        0 <= i < list.len(),
    ensures
        views(list).len() == list.len(),
        ({
            let seen = views(list)[i];
            &&& seen.drm_render_node == list[i].drm_render_node
            &&& seen.impl_name == list[i].impl_name@
            &&& seen.device_name == list[i].device_name@
            &&& seen.pci_device_id == list[i].pci_device_id
            &&& seen.pci_address == list[i].pci_address
            &&& seen.media_adapter_type == list[i].media_adapter_type
        }),
{
}

} // verus!
