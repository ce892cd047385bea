//! The dispatcher of the VPL library: what it is asked, what it answers, and how a session is
//! opened through it.
//!
//! A procedure that talks to the dispatcher is a value that names the next call; the reply to that
//! call is handed to its `step`, which names the call after it or ends the procedure.
use vstd::prelude::*;

use crate::adapter::AdapterSelector;
use crate::error::Error;
use crate::error::ErrorView;
use crate::sys;
use crate::text::decimal;
use crate::text::push_decimal;

verus! {

/// A property by which the dispatcher filters implementations.
#[derive(Debug, Clone, Copy, PartialEq, Eq, Structural)]
pub enum Filter {
    /// Hardware implementations only.
    Hardware,
    /// Implementations on one DRM render node only.
    RenderNode(u32),
}

impl Filter {
    /// The name of the filter property.
    pub open spec fn property_text(self) -> Seq<char> {
        match self {
            Filter::Hardware => "mfxImplDescription.Impl"@,
            Filter::RenderNode(_) => "mfxExtendedDeviceId.DRMRenderNodeNum"@,
        }
    }

    /// The name of the filter property.
    pub fn property(self) -> (r: &'static str)
        ensures
            r@ == self.property_text(),
    {
        match self {
            Filter::Hardware => "mfxImplDescription.Impl",
            Filter::RenderNode(_) => "mfxExtendedDeviceId.DRMRenderNodeNum",
        }
    }

    /// The 32-bit value that the property must have.
    pub fn value(self) -> (r: u32)
        ensures
            r == (match self {
                Filter::Hardware => sys::MFX_IMPL_TYPE_HARDWARE,
                Filter::RenderNode(node) => node,
            }),
    {
        match self {
            Filter::Hardware => sys::MFX_IMPL_TYPE_HARDWARE,
            Filter::RenderNode(node) => node,
        }
    }
}

/// A call of the dispatcher.
#[derive(Debug, Clone, Copy, PartialEq, Eq, Structural)]
pub enum LoaderCall {
    /// `MFXLoad`.
    Load,
    /// `MFXCreateConfig` on the loader.
    CreateConfig,
    /// `MFXSetConfigFilterProperty` on the configuration made last.
    SetFilter(Filter),
    /// `MFXCreateSession` with the implementation of this index.
    CreateSession(u32),
    /// `MFXEnumImplementations` of this index, delivering an `mfxImplDescription`.
    EnumDescription(u32),
    /// `MFXEnumImplementations` of this index, delivering an `mfxExtendedDeviceId`.
    EnumDevice(u32),
    /// `MFXDispReleaseImplDescription` of the `mfxExtendedDeviceId` delivered last.
    ReleaseDevice,
    /// `MFXDispReleaseImplDescription` of the `mfxImplDescription` delivered last.
    ReleaseDescription,
    /// `MFXUnload`.
    Unload,
}

/// One encoder of an implementation (`mfxEncoderDescription`'s codec entry).
#[derive(Debug, Clone)]
pub struct EncoderEntry {
    pub codec_id: u32,
    pub bidirectional_prediction: u16,
    /// The profile identifiers; `None` if the table pointer is null.
    pub profiles: Option<Vec<u32>>,
}

/// The members of `mfxImplDescription` that this library reads.
#[derive(Debug, Clone)]
pub struct ImplDescription {
    /// The bytes of `ImplName`.
    pub impl_name: Vec<u8>,
    /// `Dev.MediaAdapterType`.
    pub media_adapter_type: u16,
    /// The codec identifiers of the decoders; `None` if the table pointer is null.
    pub decoders: Option<Vec<u32>>,
    /// The encoders; `None` if the table pointer is null.
    pub encoders: Option<Vec<EncoderEntry>>,
}

/// The members of `mfxExtendedDeviceId` that this library reads.
#[derive(Debug, Clone)]
pub struct DeviceId {
    /// `DRMRenderNodeNum`; 0 means that it is not set.
    pub drm_render_node: u32,
    /// The bytes of `DeviceName`.
    pub device_name: Vec<u8>,
    pub device_id: u16,
    pub pci_domain: u32,
    pub pci_bus: u32,
    pub pci_device: u32,
    pub pci_function: u32,
}

/// The handle that a call returned or stored.
#[derive(Debug, Clone)]
pub enum Handle {
    /// None, or a null one.
    Null,
    /// A handle that this library does not look behind.
    Opaque,
    /// An `mfxImplDescription`.
    Description(ImplDescription),
    /// An `mfxExtendedDeviceId`.
    Device(DeviceId),
}

/// The reply to a [`LoaderCall`].
#[derive(Debug, Clone)]
pub struct LoaderReply {
    /// The status returned; `MFX_ERR_NONE` for a call that returns none.
    pub status: i32,
    /// The handle delivered.
    pub handle: Handle,
}

/// What the dispatcher has handed out and not taken back.
pub struct Held {
    pub loader: bool,
    pub description: bool,
    pub device: bool,
}

impl Held {
    /// Nothing is held.
    pub open spec fn nothing() -> Held {
        Held { loader: false, description: false, device: false }
    }

    /// What is held once the call got the reply. A description is handed out by a successful
    /// enumeration that delivers one.
    pub open spec fn after(self, call: LoaderCall, reply: LoaderReply) -> Held {
        match call {
            LoaderCall::Load => Held { loader: reply.handle !is Null, ..self },
            LoaderCall::EnumDescription(_) => Held {
                description: reply.status == sys::MFX_ERR_NONE && reply.handle is Description,
                ..self
            },
            LoaderCall::EnumDevice(_) => Held {
                device: reply.status == sys::MFX_ERR_NONE && reply.handle is Device,
                ..self
            },
            LoaderCall::ReleaseDevice => Held { device: false, ..self },
            LoaderCall::ReleaseDescription => Held { description: false, ..self },
            LoaderCall::Unload => Held { loader: false, ..self },
            _ => self,
        }
    }
}

/// Why a session could not be opened.
#[derive(Debug, Clone, Copy, PartialEq, Eq, Structural)]
pub enum SessionFailure {
    /// `MFXLoad` returned null.
    NullLoader,
    /// `MFXCreateConfig` returned null.
    NullConfig,
    /// `MFXSetConfigFilterProperty` failed with this status.
    Filter(i32),
    /// `MFXCreateSession` failed with this status.
    Create(i32),
}

impl SessionFailure {
    /// The error that reports the failure.
    pub open spec fn error_view(self, render_node: u32) -> ErrorView {
        match self {
            SessionFailure::NullLoader => ErrorView::custom("MFXLoad"@, "returned null"@),
            SessionFailure::NullConfig => ErrorView::custom("MFXCreateConfig"@, "returned null"@),
            SessionFailure::Filter(status) => ErrorView::mfx(
                status,
                "MFXSetConfigFilterProperty"@,
            ),
            SessionFailure::Create(status) => {
                let plain = ErrorView::mfx(status, "MFXCreateSession"@);
                if status == sys::MFX_ERR_NOT_FOUND {
                    plain.with_message(
                        "no Intel HW implementation found for DRM render node "@ + decimal(
                            render_node as nat,
                        ),
                    )
                } else {
                    plain
                }
            },
        }
    }

    /// The error that reports the failure. If no implementation was found, its message names the
    /// render node.
    pub fn error(self, render_node: u32) -> (r: Error)
        ensures
            r@ == self.error_view(render_node),
    {
        match self {
            SessionFailure::NullLoader => Error::new_custom("MFXLoad", "returned null"),
            SessionFailure::NullConfig => Error::new_custom("MFXCreateConfig", "returned null"),
            SessionFailure::Filter(status) => Error::from_mfx(
                status,
                "MFXSetConfigFilterProperty",
            ),
            SessionFailure::Create(status) => {
                let plain = Error::from_mfx(status, "MFXCreateSession");
                if status == sys::MFX_ERR_NOT_FOUND {
                    let mut message =
                        "no Intel HW implementation found for DRM render node ".to_owned();
                    push_decimal(&mut message, render_node as u64);
                    plain.with_message(message)
                } else {
                    plain
                }
            },
        }
    }
}

/// The call whose reply a [`SessionSetup`] waits for.
#[derive(Debug, Clone, Copy, PartialEq, Eq, Structural)]
pub enum SessionStage {
    Load,
    ImplConfig,
    ImplFilter,
    NodeConfig,
    NodeFilter,
    Create,
    /// The loader is being unloaded because of a failure.
    Unload(SessionFailure),
}

/// The opening of a session on one DRM render node.
///
/// The hardware filter and the render node filter go to two configurations, one property each.
#[derive(Debug, Clone, Copy, PartialEq, Eq, Structural)]
pub struct SessionSetup {
    pub render_node: u32,
    pub stage: SessionStage,
}

/// How far the opening of a session has come.
#[derive(Debug, Clone, Copy, PartialEq, Eq, Structural)]
pub enum SessionProgress {
    /// Make this call, then step with its reply.
    Call(SessionSetup, LoaderCall),
    /// The session is open; the loader stays loaded.
    Created,
    /// There is no session, and no loader is left loaded.
    Failed(SessionFailure),
}

impl SessionSetup {
    /// The procedure's own step, in terms of what the reply says.
    pub open spec fn after(self, status: i32, null: bool) -> SessionProgress {
        let goes_on = |stage: SessionStage, call: LoaderCall|
            SessionProgress::Call(SessionSetup { stage, ..self }, call);
        let fails = |failure: SessionFailure|
            SessionProgress::Call(
                SessionSetup { stage: SessionStage::Unload(failure), ..self },
                LoaderCall::Unload,
            );
        match self.stage {
            SessionStage::Load => if null {
                SessionProgress::Failed(SessionFailure::NullLoader)
            } else {
                goes_on(SessionStage::ImplConfig, LoaderCall::CreateConfig)
            },
            SessionStage::ImplConfig => if null {
                fails(SessionFailure::NullConfig)
            } else {
                goes_on(SessionStage::ImplFilter, LoaderCall::SetFilter(Filter::Hardware))
            },
            SessionStage::ImplFilter => if status != sys::MFX_ERR_NONE {
                fails(SessionFailure::Filter(status))
            } else {
                goes_on(SessionStage::NodeConfig, LoaderCall::CreateConfig)
            },
            SessionStage::NodeConfig => if null {
                fails(SessionFailure::NullConfig)
            } else {
                goes_on(
                    SessionStage::NodeFilter,
                    LoaderCall::SetFilter(Filter::RenderNode(self.render_node)),
                )
            },
            SessionStage::NodeFilter => if status != sys::MFX_ERR_NONE {
                fails(SessionFailure::Filter(status))
            } else {
                goes_on(SessionStage::Create, LoaderCall::CreateSession(0))
            },
            SessionStage::Create => if status != sys::MFX_ERR_NONE {
                fails(SessionFailure::Create(status))
            } else {
                SessionProgress::Created
            },
            SessionStage::Unload(failure) => SessionProgress::Failed(failure),
        }
    }

    fn go_on(self, stage: SessionStage, call: LoaderCall) -> (r: SessionProgress)
        ensures
            r == SessionProgress::Call(SessionSetup { stage, ..self }, call),
    {
        SessionProgress::Call(SessionSetup { stage, render_node: self.render_node }, call)
    }

    fn fail(self, failure: SessionFailure) -> (r: SessionProgress)
        ensures
            r == SessionProgress::Call(
                SessionSetup { stage: SessionStage::Unload(failure), ..self },
                LoaderCall::Unload,
            ),
    {
        self.go_on(SessionStage::Unload(failure), LoaderCall::Unload)
    }

    /// Takes the reply to the call named last.
    pub fn step(self, reply: &LoaderReply) -> (r: SessionProgress)
        ensures
            r == self.after(reply.status, reply.handle is Null),
    {
        let null = matches!(reply.handle, Handle::Null);
        match self.stage {
            SessionStage::Load => if null {
                SessionProgress::Failed(SessionFailure::NullLoader)
            } else {
                self.go_on(SessionStage::ImplConfig, LoaderCall::CreateConfig)
            },
            SessionStage::ImplConfig => if null {
                self.fail(SessionFailure::NullConfig)
            } else {
                self.go_on(SessionStage::ImplFilter, LoaderCall::SetFilter(Filter::Hardware))
            },
            SessionStage::ImplFilter => if reply.status != sys::MFX_ERR_NONE {
                self.fail(SessionFailure::Filter(reply.status))
            } else {
                self.go_on(SessionStage::NodeConfig, LoaderCall::CreateConfig)
            },
            SessionStage::NodeConfig => if null {
                self.fail(SessionFailure::NullConfig)
            } else {
                self.go_on(
                    SessionStage::NodeFilter,
                    LoaderCall::SetFilter(Filter::RenderNode(self.render_node)),
                )
            },
            SessionStage::NodeFilter => if reply.status != sys::MFX_ERR_NONE {
                self.fail(SessionFailure::Filter(reply.status))
            } else {
                self.go_on(SessionStage::Create, LoaderCall::CreateSession(0))
            },
            SessionStage::Create => if reply.status != sys::MFX_ERR_NONE {
                self.fail(SessionFailure::Create(reply.status))
            } else {
                SessionProgress::Created
            },
            SessionStage::Unload(failure) => SessionProgress::Failed(failure),
        }
    }
}

/// What asking for a session on `adapter` starts with.
pub open spec fn session_start(adapter: AdapterSelector) -> Result<
    (SessionSetup, LoaderCall),
    ErrorView,
> {
    match adapter.verdict() {
        Ok(()) => Ok(
            (
                SessionSetup { render_node: adapter.render_node(), stage: SessionStage::Load },
                LoaderCall::Load,
            ),
        ),
        Err(error) => Err(error),
    }
}

/// The calls made and the end reached when the dispatcher gives `replies` in turn, each a status
/// and whether the handle is null. There is no end yet if the replies run out.
pub open spec fn session_trace(at: SessionProgress, replies: Seq<(i32, bool)>) -> (
    Seq<LoaderCall>,
    Option<SessionProgress>,
)
    decreases replies.len(),
{
    match at {
        SessionProgress::Call(setup, call) => if replies.len() == 0 {
            (seq![call], None)
        } else {
            let rest = session_trace(
                setup.after(replies.first().0, replies.first().1),
                replies.drop_first(),
            );
            (seq![call] + rest.0, rest.1)
        },
        _ => (Seq::empty(), Some(at)),
    }
}

/// The first complaint in the replies to the six calls that open a session.
pub open spec fn first_failure(replies: Seq<(i32, bool)>) -> Option<SessionFailure> {
    if replies[0].1 {
        Some(SessionFailure::NullLoader)
    } else if replies[1].1 {
        Some(SessionFailure::NullConfig)
    } else if replies[2].0 != sys::MFX_ERR_NONE {
        Some(SessionFailure::Filter(replies[2].0))
    } else if replies[3].1 {
        Some(SessionFailure::NullConfig)
    } else if replies[4].0 != sys::MFX_ERR_NONE {
        Some(SessionFailure::Filter(replies[4].0))
    } else if replies[5].0 != sys::MFX_ERR_NONE {
        Some(SessionFailure::Create(replies[5].0))
    } else {
        None
    }
}

/// Opening a session ends within seven calls, in a session if no reply complains and in the first
/// complaint otherwise. The loader is loaded once; it is unloaded once if it had been loaded and
/// the session could not be opened, as the last call, and never if the session is open.
pub proof fn law_session_opens_or_unloads(render_node: u32, replies: Seq<(i32, bool)>)
    requires
        render_node != 0,
        replies.len() >= 7,
    ensures
        ({
            let start = session_start(AdapterSelector::DrmRenderNode(render_node))->Ok_0;
            let (calls, end) = session_trace(
                SessionProgress::Call(start.0, start.1),
                replies,
            );
            match first_failure(replies) {
                None => {
                    &&& end == Some(SessionProgress::Created)
                    &&& calls == seq![
                        LoaderCall::Load,
                        LoaderCall::CreateConfig,
                        LoaderCall::SetFilter(Filter::Hardware),
                        LoaderCall::CreateConfig,
                        LoaderCall::SetFilter(Filter::RenderNode(render_node)),
                        LoaderCall::CreateSession(0),
                    ]
                },
                Some(SessionFailure::NullLoader) => {
                    &&& end == Some(SessionProgress::Failed(SessionFailure::NullLoader))
                    &&& calls == seq![LoaderCall::Load]
                },
                Some(failure) => {
                    &&& end == Some(SessionProgress::Failed(failure))
                    &&& 2 < calls.len() <= 7
                    &&& calls.first() == LoaderCall::Load
                    &&& calls.last() == LoaderCall::Unload
                    &&& forall|i: int|
                        0 < i < calls.len() - 1 ==> calls[i] != LoaderCall::Load && calls[i]
                            != LoaderCall::Unload
                },
            }
        }),
{
    reveal_with_fuel(session_trace, 8);
}

/// The dispatcher is asked for hardware, or for one render node, by the name of the property.
pub proof fn law_filters_name_their_property(filter: Filter)
    ensures
        filter is Hardware ==> filter.property_text() == "mfxImplDescription.Impl"@,
        filter is RenderNode ==> filter.property_text() == "mfxExtendedDeviceId.DRMRenderNodeNum"@,
{
}

/// A session is asked for on every render node but 0, on that very node; 0 is refused.
pub proof fn law_session_is_for_the_render_node(node: u32)
    ensures
        ({
            let start = session_start(AdapterSelector::DrmRenderNode(node));
            &&& start is Ok <==> node != 0
            &&& node != 0 ==> {
                &&& start->Ok_0.0.render_node == node
                &&& start->Ok_0.0.stage == SessionStage::Load
                &&& start->Ok_0.1 == LoaderCall::Load
            }
            &&& node == 0 ==> {
                &&& start->Err_0.function == "AdapterSelector::validate"@
                &&& start->Err_0.status_code is None
                &&& start->Err_0.status_message == Some(
                    "DrmRenderNode(0) is reserved by libvpl and cannot be used"@,
                )
            }
        }),
{
}

/// A session is open exactly if the dispatcher could be loaded, both configurations could be made, and
/// both filters and the session itself were accepted. Otherwise the first that went wrong is reported,
/// with its status. Up to then the calls are those that open a session, in their order.
pub proof fn law_session_is_open_if_nothing_went_wrong(render_node: u32, replies: Seq<(i32, bool)>)
    requires
        render_node != 0,
        replies.len() >= 7,
    ensures
        ({
            let start = session_start(AdapterSelector::DrmRenderNode(render_node))->Ok_0;
            let (calls, end) = session_trace(SessionProgress::Call(start.0, start.1), replies);
            let in_order = seq![
                LoaderCall::Load,
                LoaderCall::CreateConfig,
                LoaderCall::SetFilter(Filter::Hardware),
                LoaderCall::CreateConfig,
                LoaderCall::SetFilter(Filter::RenderNode(render_node)),
                LoaderCall::CreateSession(0),
            ];
            let loaded = !replies[0].1;
            let first_config = loaded && !replies[1].1;
            let first_filter = first_config && replies[2].0 == 0;
            let second_config = first_filter && !replies[3].1;
            let second_filter = second_config && replies[4].0 == 0;
            let created = second_filter && replies[5].0 == 0;
            let failed = |failure: SessionFailure| Some(SessionProgress::Failed(failure));
            &&& end == Some(SessionProgress::Created) <==> created
            &&& !loaded ==> end == failed(SessionFailure::NullLoader)
            &&& loaded && !first_config ==> end == failed(SessionFailure::NullConfig)
            &&& first_config && !first_filter ==> end == failed(SessionFailure::Filter(replies[2].0))
            &&& first_filter && !second_config ==> end == failed(SessionFailure::NullConfig)
            &&& second_config && !second_filter ==> end == failed(
                SessionFailure::Filter(replies[4].0),
            )
            &&& second_filter && !created ==> end == failed(SessionFailure::Create(replies[5].0))
            &&& forall|i: int| 0 <= i < calls.len() - 1 ==> calls[i] == in_order[i]
        }),
{
    reveal_with_fuel(session_trace, 8);
}

/// A failure is reported by the function that failed, with its status if it gave one. A session that
/// was not found is reported with the render node.
pub proof fn law_session_failures_are_reported(failure: SessionFailure, node: u32)
    ensures
        ({
            let error = failure.error_view(node);
            match failure {
                SessionFailure::NullLoader => error.function == "MFXLoad"@ && error.status_code is None
                    && error.status_message == Some("returned null"@),
                SessionFailure::NullConfig => error.function == "MFXCreateConfig"@
                    && error.status_code is None && error.status_message == Some("returned null"@),
                SessionFailure::Filter(status) => error == ErrorView::mfx(
                    status,
                    "MFXSetConfigFilterProperty"@,
                ),
                SessionFailure::Create(status) => {
                    &&& error.function == "MFXCreateSession"@
                    &&& error.status_code == Some(status)
                    &&& status == -9 ==> error.status_message == Some(
                        "no Intel HW implementation found for DRM render node "@ + decimal(
                            node as nat,
                        ),
                    )
                    &&& error.status_name == ErrorView::mfx(status, error.function).status_name
                    &&& status != -9 ==> error == ErrorView::mfx(status, "MFXCreateSession"@)
                },
            }
        }),
{
}

} // verus!
