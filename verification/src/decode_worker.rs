//! The worker that waits for decoded frames and hands them to the handler.
//!
//! The worker is fed commands and answers each with the notices for the handler. Waiting for the
//! device and mapping its surfaces are left to whoever feeds it: an output comes in with its command,
//! and goes out as the layout of the planes that the handler may look at.
use std::collections::VecDeque;
use vstd::prelude::*;

use crate::error::answer;
use crate::error::Error;
use crate::error::ErrorView;
use crate::ledger::entries_ascend;
use crate::ledger::is_ledger;
use crate::ledger::lemma_pending_is_finite;
use crate::ledger::lemma_pending_until_settled;
use crate::ledger::lemma_pending_was_queued;
use crate::ledger::lemma_settled_once;
use crate::ledger::lemma_told_and_pending_are_owed;
use crate::ledger::Entry;
use crate::pending::lemma_content_len;
use crate::pending::lists;
use crate::pending::PendingFrameStore;
use crate::sequence::lemma_present_at;
use crate::sequence::lemma_present_order;
use crate::sequence::present;
use crate::sequence::present_before;
use crate::sequence::total;
use crate::sys;
use crate::text::decimal;
use crate::text::push_decimal;

verus! {

/// Where the planes of a decoded frame (NV12) are in a mapped surface.
#[derive(Debug, Clone, Copy, PartialEq, Eq, Structural)]
pub struct PlaneLayout {
    /// The number of bytes from one row to the next.
    pub pitch: usize,
    /// The width of the visible part.
    pub width: usize,
    /// The height of the visible part.
    pub height: usize,
    /// The number of bytes of the Y plane.
    pub y_size: usize,
    /// The number of bytes of the UV plane.
    pub uv_size: usize,
}

impl PlaneLayout {
    /// Whether every row of the visible part lies within the planes.
    pub open spec fn wf(self) -> bool {
        &&& 0 < self.width <= self.pitch
        &&& 0 < self.height
        &&& self.y_size == self.pitch * self.height
        &&& self.uv_size == self.pitch * self.height / 2
    }
}

/// A decoded frame in NV12 format.
///
/// It borrows the planes of the surface, rows with their padding: in each row the first `width` bytes
/// are the picture.
#[derive(Debug)]
pub struct DecodedFrame<'a, T> {
    y: &'a [u8],
    uv: &'a [u8],
    pitch: usize,
    width: usize,
    height: usize,
    user_data: T,
}

/// The content of a [`DecodedFrame`].
#[verifier::ext_equal]
pub struct DecodedFrameView<T> {
    pub y: Seq<u8>,
    pub uv: Seq<u8>,
    pub pitch: nat,
    pub width: nat,
    pub height: nat,
    pub user_data: T,
}

impl<'a, T> View for DecodedFrame<'a, T> {
    type V = DecodedFrameView<T>;

    closed spec fn view(&self) -> DecodedFrameView<T> {
        DecodedFrameView {
            y: self.y@,
            uv: self.uv@,
            pitch: self.pitch as nat,
            width: self.width as nat,
            height: self.height as nat,
            user_data: self.user_data,
        }
    }
}

impl<'a, T> DecodedFrame<'a, T> {
    #[verifier::type_invariant]
    spec fn inv(self) -> bool {
        &&& 0 < self.width <= self.pitch
        &&& 0 < self.height
        &&& self.y@.len() == self.pitch * self.height
        &&& self.uv@.len() == self.pitch * self.height / 2
    }

    /// The frame whose planes lie like this.
    pub fn from_planes(y: &'a [u8], uv: &'a [u8], output: DecodedOutput<T>) -> (r: Self)
        requires
            output.layout.wf(),
            y@.len() == output.layout.y_size,
            uv@.len() == output.layout.uv_size,
        ensures
            r@ == (DecodedFrameView {
                y: y@,
                uv: uv@,
                pitch: output.layout.pitch as nat,
                width: output.layout.width as nat,
                height: output.layout.height as nat,
                user_data: output.user_data,
            }),
    {
        DecodedFrame {
            y,
            uv,
            pitch: output.layout.pitch,
            width: output.layout.width,
            height: output.layout.height,
            user_data: output.user_data,
        }
    }

    /// The Y plane: `pitch() * height()` bytes.
    pub fn y(&self) -> (r: &[u8])
        ensures
            r@ == self@.y,
            r@.len() == self@.pitch * self@.height,
    {
        proof {
            use_type_invariant(self);
        }
        self.y
    }

    /// The interleaved UV plane: `pitch() * height() / 2` bytes.
    pub fn uv(&self) -> (r: &[u8])
        ensures
            r@ == self@.uv,
            r@.len() == self@.pitch * self@.height / 2,
    {
        proof {
            use_type_invariant(self);
        }
        self.uv
    }

    /// The number of bytes from one row to the next.
    pub fn pitch(&self) -> (r: usize)
        ensures
            r == self@.pitch,
            r >= self@.width,
    {
        proof {
            use_type_invariant(self);
        }
        self.pitch
    }

    /// The width of the visible part.
    pub fn width(&self) -> (r: usize)
        ensures
            r == self@.width,
            r > 0,
    {
        proof {
            use_type_invariant(self);
        }
        self.width
    }

    /// The height of the visible part.
    pub fn height(&self) -> (r: usize)
        ensures
            r == self@.height,
            r > 0,
    {
        proof {
            use_type_invariant(self);
        }
        self.height
    }

    /// What the caller handed in with the bitstream.
    pub fn user_data(&self) -> (r: &T)
        ensures
            *r == self@.user_data,
    {
        &self.user_data
    }

    /// What the caller handed in with the bitstream.
    pub fn into_user_data(self) -> (r: T)
        ensures
            r == self@.user_data,
    {
        self.user_data
    }
}

/// What the worker makes of a decoded frame.
#[derive(Debug, Clone)]
pub struct DecodedOutput<T> {
    /// Where the planes are in the mapped surface.
    pub layout: PlaneLayout,
    /// What the caller handed in with the bitstream.
    pub user_data: T,
}

/// The members of a mapped `mfxFrameSurface1` that this library reads.
#[derive(Debug, Clone, Copy, PartialEq, Eq, Structural)]
pub struct SurfaceInfo {
    /// `Data.TimeStamp`, which carries the sequence number of the input.
    pub time_stamp: u64,
    /// `Info.CropW`.
    pub crop_w: u16,
    /// `Info.CropH`.
    pub crop_h: u16,
    /// `Data.Pitch`.
    pub pitch: u16,
    /// Whether `Data.Y` is null.
    pub y_null: bool,
    /// Whether `Data.UV` is null.
    pub uv_null: bool,
}

/// An output of the decoder after it was waited for and mapped.
#[derive(Debug, Clone, Copy, PartialEq, Eq, Structural)]
pub struct DecodeSyncData {
    /// The sync point that was waited for; 0 if it is null, and nothing was waited for.
    pub sync_point: usize,
    /// The status of `MFXVideoCORE_SyncOperation`.
    pub sync_status: i32,
    /// The status of mapping the surface, which is tried if the operation succeeded.
    pub map_status: i32,
    /// The surface, if it was mapped.
    pub surface: SurfaceInfo,
}

/// The layout of the planes of a surface, or the first complaint about it.
pub open spec fn layout_of(surface: SurfaceInfo) -> Result<PlaneLayout, ErrorView> {
    if surface.y_null || surface.uv_null {
        Err(
            ErrorView::custom(
                "Decoder::sync_worker"@,
                "decoded surface has null plane pointers"@,
            ),
        )
    } else if surface.crop_w == 0 || surface.crop_h == 0 {
        Err(
            ErrorView::custom(
                "Decoder::sync_worker"@,
                "decoded surface has zero crop dimensions"@,
            ),
        )
    } else if surface.pitch < surface.crop_w {
        Err(
            ErrorView::custom(
                "Decoder::sync_worker"@,
                "pitch ("@ + decimal(surface.pitch as nat) + ") is less than crop width ("@
                    + decimal(surface.crop_w as nat) + ")"@,
            ),
        )
    } else {
        Ok(
            PlaneLayout {
                pitch: surface.pitch as usize,
                width: surface.crop_w as usize,
                height: surface.crop_h as usize,
                y_size: (surface.pitch * surface.crop_h) as usize,
                uv_size: (surface.pitch * surface.crop_h / 2) as usize,
            },
        )
    }
}

/// Finds the planes of a surface. What the surface says of itself is checked first.
pub fn read_decoded_surface(surface: &SurfaceInfo) -> (r: Result<PlaneLayout, Error>)
    ensures
        answer(r) == layout_of(*surface),
        r is Ok ==> r->Ok_0.wf(),
{
    if surface.y_null || surface.uv_null {
        return Err(
            Error::new_custom("Decoder::sync_worker", "decoded surface has null plane pointers"),
        );
    }
    if surface.crop_w == 0 || surface.crop_h == 0 {
        return Err(
            Error::new_custom("Decoder::sync_worker", "decoded surface has zero crop dimensions"),
        );
    }
    if surface.pitch < surface.crop_w {
        let mut message = "pitch (".to_owned();
        push_decimal(&mut message, surface.pitch as u64);
        message.append(") is less than crop width (");
        push_decimal(&mut message, surface.crop_w as u64);
        message.append(")");
        return Err(Error::new_custom_owned("Decoder::sync_worker", message));
    }
    let pitch: usize = surface.pitch as usize;
    let height: usize = surface.crop_h as usize;
    assert(0 <= pitch * height <= 0xffff * 0xffff) by (nonlinear_arith)
        requires
            0 <= pitch <= 0xffff,
            0 <= height <= 0xffff,
    ;
    let y_size: usize = pitch * height;
    Ok(
        PlaneLayout {
            pitch,
            width: surface.crop_w as usize,
            height,
            y_size,
            uv_size: y_size / 2,
        },
    )
}

/// The rows of the visible part are inside the planes: row `r` of the Y plane, and the row of the UV
/// plane that belongs to it if all rows come in pairs.
pub proof fn law_visible_rows_are_inside_the_planes(surface: SurfaceInfo, r: int)
    requires
        layout_of(surface) is Ok,
        0 <= r < surface.crop_h,
    ensures
        ({
            let layout = layout_of(surface)->Ok_0;
            &&& layout.wf()
            &&& r * layout.pitch + layout.width <= layout.y_size
            &&& layout.height % 2 == 0 ==> (r / 2) * layout.pitch + layout.width <= layout.uv_size
        }),
{
    let pitch = surface.pitch as int;
    let height = surface.crop_h as int;
    assert(0 <= pitch * height <= 0xffff * 0xffff) by (nonlinear_arith)
        requires
            0 <= pitch <= 0xffff,
            0 <= height <= 0xffff,
    ;
    assert((r + 1) * pitch <= pitch * height && (r + 1) * pitch == r * pitch + pitch)
        by (nonlinear_arith)
        requires
            0 <= r < height,
            0 <= pitch,
    ;
    if height % 2 == 0 {
        let half = height / 2;
        let q = r / 2;
        assert(pitch * height == 2 * (pitch * half)) by (nonlinear_arith)
            requires
                height == 2 * half,
        ;
        assert((q + 1) * pitch <= pitch * half && (q + 1) * pitch == q * pitch + pitch)
            by (nonlinear_arith)
            requires
                0 <= q < half,
                0 <= pitch,
        ;
    }
}

/// The error for a frame that is still pending after everything was flushed.
pub open spec fn finish_pending(frame_seq: u64, pending: nat) -> ErrorView {
    ErrorView::custom(
        "Decoder::finish"@,
        "decode pending frame seq="@ + decimal(frame_seq as nat) + " (pending count: "@ + decimal(
            pending,
        ) + ")"@,
    )
}

/// The error for frames that are pending when the decoder is dropped.
pub open spec fn canceled() -> ErrorView {
    ErrorView::mfx(sys::MFX_ERR_ABORTED, "Decoder::drop"@)
}

/// The error for two pending frames of one sequence number.
pub open spec fn duplicate_frame(frame_seq: u64) -> ErrorView {
    ErrorView::custom(
        "Decoder::sync_worker"@,
        "duplicate frame sequence in pending frames: "@ + decimal(frame_seq as nat),
    )
}

/// The answer to a barrier that finds so many frames pending.
pub open spec fn frames_remained(pending: nat) -> ErrorView {
    ErrorView::custom(
        "Decoder::finish"@,
        "finish completed but "@ + decimal(pending) + " pending frames remained"@,
    )
}

/// What an output does to the pending frames, and what the handler is told of it.
///
/// The time stamp of the output is the sequence number of the input that it was made from. An output
/// that belongs to no pending frame is dropped silently, as draining yields such outputs.
pub open spec fn synced<T>(pending: Map<u64, T>, sync: DecodeSyncData) -> (
    Map<u64, T>,
    Option<Result<DecodedOutput<T>, ErrorView>>,
) {
    let frame_seq = sync.surface.time_stamp;
    if sync.sync_point == 0 {
        (
            pending,
            Some(Err(ErrorView::custom("Decoder::sync_worker"@, "sync point is null"@))),
        )
    } else if sync.sync_status != sys::MFX_ERR_NONE {
        (pending, Some(Err(ErrorView::mfx(sync.sync_status, "MFXVideoCORE_SyncOperation"@))))
    } else if sync.map_status != sys::MFX_ERR_NONE {
        (pending, Some(Err(ErrorView::mfx(sync.map_status, "mfxFrameSurfaceInterface::Map"@))))
    } else if !pending.contains_key(frame_seq) {
        (pending, None)
    } else {
        (
            pending.remove(frame_seq),
            Some(
                match layout_of(sync.surface) {
                    Ok(layout) => Ok(DecodedOutput { layout, user_data: pending[frame_seq] }),
                    Err(error) => Err(error),
                },
            ),
        )
    }
}

/// The content of what an output gives.
pub open spec fn synced_view<T>(notice: Option<Result<DecodedOutput<T>, Error>>) -> Option<
    Result<DecodedOutput<T>, ErrorView>,
> {
    match notice {
        Some(result) => Some(answer(result)),
        None => None,
    }
}

/// Turns an output into what the handler is told, if anything. The pending frame that it belongs to
/// is pending no more.
pub fn sync_and_callback<T>(
    sync: &DecodeSyncData,
    pending: &mut PendingFrameStore<T>,
) -> (r: Option<Result<DecodedOutput<T>, Error>>)
    ensures
        (final(pending)@, synced_view(r)) == synced(old(pending)@, *sync),
        r matches Some(Ok(output)) ==> output.layout.wf(),
{
    if sync.sync_point == 0 {
        return Some(Err(Error::new_custom("Decoder::sync_worker", "sync point is null")));
    }
    if let Err(error) = Error::check_mfx(sync.sync_status, "MFXVideoCORE_SyncOperation") {
        return Some(Err(error));
    }
    if let Err(error) = Error::check_mfx(sync.map_status, "mfxFrameSurfaceInterface::Map") {
        return Some(Err(error));
    }
    match pending.take_by_frame_seq(sync.surface.time_stamp) {
        None => {
            assert(pending@ =~= old(pending)@);
            None
        },
        Some(user_data) => match read_decoded_surface(&sync.surface) {
            Ok(layout) => Some(Ok(DecodedOutput { layout, user_data })),
            Err(error) => Some(Err(error)),
        },
    }
}

/// A command for the worker.
#[derive(Debug)]
pub enum WorkerCommand<T> {
    /// A bitstream is about to be handed to the decoder.
    QueueFrame { frame_seq: u64, user_data: T },
    /// The decoder gave an output.
    Sync(DecodeSyncData),
    /// Everything was flushed: answer whether nothing is pending.
    WaitIdle,
    /// The decoder is dropped.
    Stop,
}

/// What the worker makes of a command.
#[derive(Debug)]
pub struct WorkerOutput<T> {
    /// What the handler is told, in this order.
    pub notices: Vec<Result<DecodedOutput<T>, Error>>,
    /// The answer to a barrier.
    pub reply: Option<Result<(), Error>>,
    /// Whether the worker ends.
    pub stop: bool,
}

/// The content of a [`WorkerOutput`].
#[verifier::ext_equal]
pub struct WorkerOutputView<T> {
    pub notices: Seq<Result<DecodedOutput<T>, ErrorView>>,
    pub reply: Option<Result<(), ErrorView>>,
    pub stop: bool,
}

impl<T> View for WorkerOutput<T> {
    type V = WorkerOutputView<T>;

    open spec fn view(&self) -> WorkerOutputView<T> {
        WorkerOutputView {
            notices: self.notices@.map_values(
                |notice: Result<DecodedOutput<T>, Error>| answer(notice),
            ),
            reply: match self.reply {
                Some(reply) => Some(answer(reply)),
                None => None,
            },
            stop: self.stop,
        }
    }
}

/// Whether the notices tell of every pending frame that it was not flushed, in some order.
pub open spec fn reports_unflushed<T>(
    notices: Seq<Result<DecodedOutput<T>, ErrorView>>,
    pending: Map<u64, T>,
    order: Seq<u64>,
) -> bool {
    &&& lists(order, pending.dom())
    &&& notices == order.map_values(
        |frame_seq: u64|
            Err::<DecodedOutput<T>, ErrorView>(finish_pending(frame_seq, pending.len())),
    )
}

/// Whether the worker may answer a command like this.
///
/// It is fixed but for the order in which pending frames are reported as not flushed.
pub open spec fn handled<T>(
    before: Map<u64, T>,
    command: WorkerCommand<T>,
    after: Map<u64, T>,
    out: WorkerOutputView<T>,
) -> bool {
    match command {
        WorkerCommand::QueueFrame { frame_seq, user_data } => {
            &&& after == before.insert(frame_seq, user_data)
            &&& out.notices == (if before.contains_key(frame_seq) {
                seq![Err::<DecodedOutput<T>, ErrorView>(duplicate_frame(frame_seq))]
            } else {
                Seq::empty()
            })
            &&& out.reply is None
            &&& !out.stop
        },
        WorkerCommand::Sync(sync) => {
            &&& after == synced(before, sync).0
            &&& out.notices == (match synced(before, sync).1 {
                Some(notice) => seq![notice],
                None => Seq::empty(),
            })
            &&& out.reply is None
            &&& !out.stop
        },
        WorkerCommand::WaitIdle => {
            &&& after == Map::<u64, T>::empty()
            &&& exists|order: Seq<u64>| reports_unflushed(out.notices, before, order)
            &&& out.reply == Some(
                if before.len() == 0 {
                    Ok::<(), ErrorView>(())
                } else {
                    Err(frames_remained(before.len()))
                },
            )
            &&& !out.stop
        },
        WorkerCommand::Stop => {
            &&& after == Map::<u64, T>::empty()
            &&& out.notices == Seq::new(
                before.len(),
                |i: int| Err::<DecodedOutput<T>, ErrorView>(canceled()),
            )
            &&& out.reply is None
            &&& out.stop
        },
    }
}

/// The worker. Its view is what is pending.
#[derive(Debug)]
pub struct SyncWorker<T> {
    pending: PendingFrameStore<T>,
}

impl<T> View for SyncWorker<T> {
    type V = Map<u64, T>;

    closed spec fn view(&self) -> Map<u64, T> {
        self.pending@
    }
}

impl<T> SyncWorker<T> {
    /// A worker without pending frames.
    pub fn new() -> (r: Self)
        ensures
            r@ == Map::<u64, T>::empty(),
    {
        SyncWorker { pending: PendingFrameStore::new() }
    }

    fn wait_idle(&mut self) -> (r: WorkerOutput<T>)
        ensures
            handled(old(self)@, WorkerCommand::WaitIdle, final(self)@, r@),
    {
        let ghost before = self@;
        let mut notices: Vec<Result<DecodedOutput<T>, Error>> = Vec::new();
        let drained = self.pending.drain_all();
        let count: usize = drained.len();
        let ghost order = drained@.map_values(|entry: (u64, T)| entry.0);
        proof {
            lemma_content_len(drained@, before);
        }
        let mut i: usize = 0;
        while i < count
            invariant
                count == drained@.len(),
                i <= count,
                order == drained@.map_values(|entry: (u64, T)| entry.0),
                notices@.len() == i,
                forall|k: int|
                    0 <= k < i ==> answer(#[trigger] notices@[k]) == Err::<
                        DecodedOutput<T>,
                        ErrorView,
                    >(finish_pending(order[k], count as nat)),
            decreases count - i,
        {
            let mut message = "decode pending frame seq=".to_owned();
            push_decimal(&mut message, drained[i].0);
            message.append(" (pending count: ");
            push_decimal(&mut message, count as u64);
            message.append(")");
            notices.push(Err(Error::new_custom_owned("Decoder::finish", message)));
            i = i + 1;
        }
        let reply = if count == 0 {
            Ok(())
        } else {
            let mut message = "finish completed but ".to_owned();
            push_decimal(&mut message, count as u64);
            message.append(" pending frames remained");
            Err(Error::new_custom_owned("Decoder::finish", message))
        };
        let output = WorkerOutput { notices, reply: Some(reply), stop: false };
        assert(output@.notices =~= order.map_values(
            |frame_seq: u64|
                Err::<DecodedOutput<T>, ErrorView>(finish_pending(frame_seq, before.len())),
        ));
        assert(reports_unflushed(output@.notices, before, order));
        output
    }

    fn stop(&mut self) -> (r: WorkerOutput<T>)
        ensures
            handled(old(self)@, WorkerCommand::Stop, final(self)@, r@),
    {
        let ghost before = self@;
        let mut notices: Vec<Result<DecodedOutput<T>, Error>> = Vec::new();
        let drained = self.pending.drain_all();
        let count: usize = drained.len();
        proof {
            lemma_content_len(drained@, before);
        }
        let mut i: usize = 0;
        while i < count
            invariant
                i <= count,
                notices@.len() == i,
                forall|k: int|
                    0 <= k < i ==> answer(#[trigger] notices@[k]) == Err::<
                        DecodedOutput<T>,
                        ErrorView,
                    >(canceled()),
            decreases count - i,
        {
            notices.push(Err(Error::from_mfx(sys::MFX_ERR_ABORTED, "Decoder::drop")));
            i = i + 1;
        }
        let output = WorkerOutput { notices, reply: None, stop: true };
        assert(output@.notices =~= Seq::new(
            before.len(),
            |k: int| Err::<DecodedOutput<T>, ErrorView>(canceled()),
        ));
        output
    }

    /// Carries out a command.
    pub fn handle(&mut self, command: WorkerCommand<T>) -> (r: WorkerOutput<T>)
        ensures
            handled(old(self)@, command, final(self)@, r@),
    {
        match command {
            WorkerCommand::QueueFrame { frame_seq, user_data } => {
                let mut notices: Vec<Result<DecodedOutput<T>, Error>> = Vec::new();
                if self.pending.insert(frame_seq, user_data).is_some() {
                    let mut message = "duplicate frame sequence in pending frames: ".to_owned();
                    push_decimal(&mut message, frame_seq);
                    notices.push(
                        Err(Error::new_custom_owned("Decoder::sync_worker", message)),
                    );
                }
                let output = WorkerOutput { notices, reply: None, stop: false };
                assert(output@.notices =~= if old(self)@.contains_key(frame_seq) {
                    seq![Err::<DecodedOutput<T>, ErrorView>(duplicate_frame(frame_seq))]
                } else {
                    Seq::empty()
                });
                output
            },
            WorkerCommand::Sync(sync) => {
                let mut notices: Vec<Result<DecodedOutput<T>, Error>> = Vec::new();
                let synced_now = sync_and_callback(&sync, &mut self.pending);
                let ghost told = synced_view(synced_now);
                if let Some(notice) = synced_now {
                    notices.push(notice);
                }
                let output = WorkerOutput { notices, reply: None, stop: false };
                assert(output@.notices =~= match told {
                    Some(notice) => seq![notice],
                    None => Seq::empty(),
                });
                output
            },
            WorkerCommand::WaitIdle => self.wait_idle(),
            WorkerCommand::Stop => self.stop(),
        }
    }
}

/// Whether a worker that is fed `commands` may go through these stores and answer with `outs`.
///
/// It starts with nothing pending and answers every command up to the first that stops it.
pub open spec fn worker_run<T>(
    stores: Seq<Map<u64, T>>,
    commands: Seq<WorkerCommand<T>>,
    outs: Seq<WorkerOutputView<T>>,
) -> bool {
    &&& stores.len() == outs.len() + 1
    &&& stores[0] == Map::<u64, T>::empty()
    &&& outs.len() <= commands.len()
    &&& forall|i: int|
        0 <= i < outs.len() ==> handled(
            stores[i],
            commands[i],
            stores[i + 1],
            #[trigger] outs[i],
        )
    &&& forall|i: int| 0 <= i < outs.len() - 1 ==> !(#[trigger] commands[i] is Stop)
    &&& outs.len() < commands.len() ==> outs.len() > 0 && commands[outs.len() - 1] is Stop
}

/// The contents of a list of outputs.
pub open spec fn output_views<T>(outs: Seq<WorkerOutput<T>>) -> Seq<WorkerOutputView<T>> {
    outs.map_values(|out: WorkerOutput<T>| out@)
}

/// Carries out commands until one stops the worker or there are no more.
pub fn run_sync_worker<T>(commands: VecDeque<WorkerCommand<T>>) -> (r: Vec<WorkerOutput<T>>)
    ensures
        exists|stores: Seq<Map<u64, T>>|
            worker_run(stores, commands@, output_views(r@)),
{
    let ghost given = commands@;
    let mut rest = commands;
    let mut worker: SyncWorker<T> = SyncWorker::new();
    let mut outs: Vec<WorkerOutput<T>> = Vec::new();
    let ghost mut stores: Seq<Map<u64, T>> = seq![worker@];
    let mut stopped = false;
    while !stopped && rest.len() > 0
        invariant
            given.len() == outs@.len() + rest@.len(),
            rest@ == given.skip(outs@.len() as int),
            stores.len() == outs@.len() + 1,
            stores[0] == Map::<u64, T>::empty(),
            stores.last() == worker@,
            forall|i: int|
                0 <= i < outs@.len() ==> handled(
                    stores[i],
                    given[i],
                    stores[i + 1],
                    (#[trigger] outs@[i])@,
                ),
            forall|i: int| 0 <= i < outs@.len() - 1 ==> !(#[trigger] given[i] is Stop),
            outs@.len() > 0 ==> (stopped <==> given[outs@.len() - 1] is Stop),
            outs@.len() == 0 ==> !stopped,
        decreases rest@.len(),
    {
        match rest.pop_front() {
            Some(command) => {
                assert(command == given[outs@.len() as int]);
                let out = worker.handle(command);
                stopped = out.stop;
                proof {
                    stores = stores.push(worker@);
                }
                outs.push(out);
                assert(rest@ =~= given.skip(outs@.len() as int));
            },
            None => {
                stopped = true;
            },
        }
    }
    proof {
        let views = output_views(outs@);
        assert(views.len() == outs@.len());
        assert forall|i: int| 0 <= i < views.len() implies handled(
            stores[i],
            given[i],
            stores[i + 1],
            #[trigger] views[i],
        ) by {
            assert(views[i] == outs@[i]@);
        }
        assert(worker_run(stores, given, views));
    }
    outs
}

/// How many notices a command adds to those owed for the frames that are pending: a frame is owed
/// one from when it is queued, and an output that cannot be waited for or mapped gives one of its own.
pub open spec fn notices_added<T>(
    pending: Map<u64, T>,
    command: WorkerCommand<T>,
) -> nat {
    match command {
        WorkerCommand::QueueFrame { .. } => 1,
        WorkerCommand::Sync(sync) => if synced(pending, sync).1 is None || synced(
            pending,
            sync,
        ).0.len() < pending.len() {
            0
        } else {
            1
        },
        _ => 0,
    }
}

/// No notice is lost and none is made up: what is still pending and what was told add up to what
/// was pending and what the command added.
pub proof fn law_worker_step_accounts_for_every_frame<T>(
    before: Map<u64, T>,
    command: WorkerCommand<T>,
    after: Map<u64, T>,
    out: WorkerOutputView<T>,
)
    requires
        before.dom().finite(),
        handled(before, command, after, out),
    ensures
        after.dom().finite(),
        out.notices.len() + after.len() == before.len() + notices_added(before, command),
{
    match command {
        WorkerCommand::WaitIdle => {
            let order = choose|order: Seq<u64>| reports_unflushed(out.notices, before, order);
            order.unique_seq_to_set();
        },
        _ => {},
    }
}

impl<T> WorkerCommand<T> {
    /// What the command does to the pending frames.
    pub open spec fn entry(self, pending: Map<u64, T>) -> Entry<T> {
        match self {
            WorkerCommand::QueueFrame { frame_seq, user_data } => Entry::Queue(
                frame_seq,
                user_data,
            ),
            WorkerCommand::Sync(sync) => if pending.contains_key(
                sync.surface.time_stamp,
            ) && !synced(pending, sync).0.contains_key(sync.surface.time_stamp) {
                Entry::Settle(sync.surface.time_stamp)
            } else {
                Entry::Keep
            },
            WorkerCommand::WaitIdle | WorkerCommand::Stop => Entry::Clear,
        }
    }

    /// The frame that the command queues, with its sequence number.
    pub open spec fn queued(self) -> Option<(u64, T)> {
        match self {
            WorkerCommand::QueueFrame { frame_seq, user_data } => Some((frame_seq, user_data)),
            _ => None,
        }
    }
}

/// What the first `n` commands of a run do to the pending frames.
spec fn run_entries<T>(
    stores: Seq<Map<u64, T>>,
    commands: Seq<WorkerCommand<T>>,
    n: nat,
) -> Seq<Entry<T>> {
    Seq::new(n, |i: int| commands[i].entry(stores[i]))
}

proof fn lemma_run_is_ledger<T>(
    stores: Seq<Map<u64, T>>,
    commands: Seq<WorkerCommand<T>>,
    outs: Seq<WorkerOutputView<T>>,
)
    requires
        worker_run(stores, commands, outs),
    ensures
        is_ledger(stores, run_entries(stores, commands, outs.len())),
        numbers_ascend(commands) ==> entries_ascend(run_entries(stores, commands, outs.len())),
{
    let entries = run_entries(stores, commands, outs.len());
    assert forall|i: int| 0 <= i < entries.len() implies (#[trigger] entries[i]).leads(
        stores[i],
        stores[i + 1],
    ) by {
        assert(handled(stores[i], commands[i], stores[i + 1], outs[i]));
    }
    if numbers_ascend(commands) {
        assert forall|i: int, j: int|
            0 <= i < j < entries.len() && #[trigger] entries[i] is Queue
                && #[trigger] entries[j] is Queue implies entries[i]->Queue_0
            < entries[j]->Queue_0 by {
            assert(commands[i] is QueueFrame && commands[j] is QueueFrame);
        }
    }
}

/// The number of notices in the first `n` outputs.
pub open spec fn notices_told<T>(outs: Seq<WorkerOutputView<T>>, n: nat) -> nat {
    total(outs.map_values(|out: WorkerOutputView<T>| out.notices.len()), n)
}

/// The number of notices that the first `n` commands add.
pub open spec fn notices_owed<T>(
    stores: Seq<Map<u64, T>>,
    commands: Seq<WorkerCommand<T>>,
    n: nat,
) -> nat {
    total(Seq::new(commands.len(), |i: int| notices_added(stores[i], commands[i])), n)
}

/// At any point of a run, the notices given and the frames pending add up to the notices owed: every
/// frame that was queued is told of once or is still pending.
pub proof fn law_worker_accounts_for_every_frame<T>(
    stores: Seq<Map<u64, T>>,
    commands: Seq<WorkerCommand<T>>,
    outs: Seq<WorkerOutputView<T>>,
    n: nat,
)
    requires
        worker_run(stores, commands, outs),
        n <= outs.len(),
    ensures
        stores[n as int].dom().finite(),
        notices_told(outs, n) + stores[n as int].len() == notices_owed(stores, commands, n),
{
    let entries = run_entries(stores, commands, outs.len());
    let told = outs.map_values(|out: WorkerOutputView<T>| out.notices.len());
    let owed = Seq::new(commands.len(), |i: int| notices_added(stores[i], commands[i]));
    lemma_run_is_ledger(stores, commands, outs);
    lemma_pending_is_finite(stores, entries, n as int);
    assert forall|i: int| 0 <= i < n implies #[trigger] told[i] + stores[i + 1].len()
        == stores[i].len() + owed[i] by {
        assert(handled(stores[i], commands[i], stores[i + 1], outs[i]));
        lemma_pending_is_finite(stores, entries, i);
        law_worker_step_accounts_for_every_frame(stores[i], commands[i], stores[i + 1], outs[i]);
    }
    lemma_told_and_pending_are_owed(stores, told, owed, n);
}

/// Whether the `i`-th command queued this frame.
pub open spec fn queued_at<T>(
    commands: Seq<WorkerCommand<T>>,
    i: int,
    frame_seq: u64,
    user_data: T,
) -> bool {
    commands[i] == (WorkerCommand::QueueFrame { frame_seq, user_data })
}

/// A decoded frame that the handler gets carries the user data that were queued under the sequence
/// number that its output bears, however the decoder reorders frames.
pub proof fn law_decoded_frame_carries_what_was_queued<T>(
    stores: Seq<Map<u64, T>>,
    commands: Seq<WorkerCommand<T>>,
    outs: Seq<WorkerOutputView<T>>,
    n: int,
)
    requires
        worker_run(stores, commands, outs),
        0 <= n < outs.len(),
        commands[n] is Sync,
        outs[n].notices.len() > 0,
        outs[n].notices[0] is Ok,
    ensures
        exists|i: int|
            0 <= i < n && #[trigger] queued_at(
                commands,
                i,
                commands[n]->Sync_0.surface.time_stamp,
                outs[n].notices[0]->Ok_0.user_data,
            ),
{
    assert(handled(stores[n], commands[n], stores[n + 1], outs[n]));
    let frame_seq = commands[n]->Sync_0.surface.time_stamp;
    let entries = run_entries(stores, commands, outs.len());
    assert(synced(stores[n], commands[n]->Sync_0).1 == Some(outs[n].notices[0]));
    lemma_run_is_ledger(stores, commands, outs);
    let i = lemma_pending_was_queued(stores, entries, n, frame_seq);
    assert(queued_at(commands, i, frame_seq, outs[n].notices[0]->Ok_0.user_data));
}

/// Whether every frame is queued under a number above those before it.
pub open spec fn numbers_ascend<T>(commands: Seq<WorkerCommand<T>>) -> bool {
    forall|i: int, j: int|
        0 <= i < j < commands.len() && #[trigger] commands[i] is QueueFrame && #[trigger] commands[j]
            is QueueFrame ==> commands[i]->QueueFrame_frame_seq
            < commands[j]->QueueFrame_frame_seq
}

/// Frames that are numbered in ascending order are queued without a notice: none is taken for
/// another.
pub proof fn law_ascending_numbers_are_never_duplicates<T>(
    stores: Seq<Map<u64, T>>,
    commands: Seq<WorkerCommand<T>>,
    outs: Seq<WorkerOutputView<T>>,
    n: int,
)
    requires
        worker_run(stores, commands, outs),
        numbers_ascend(commands),
        0 <= n < outs.len(),
        commands[n] is QueueFrame,
    ensures
        outs[n].notices.len() == 0,
{
    assert(handled(stores[n], commands[n], stores[n + 1], outs[n]));
    let frame_seq = commands[n]->QueueFrame_frame_seq;
    if stores[n].contains_key(frame_seq) {
        let entries = run_entries(stores, commands, outs.len());
        lemma_run_is_ledger(stores, commands, outs);
        let i = lemma_pending_was_queued(stores, entries, n, frame_seq);
        assert(commands[i] is QueueFrame);
    }
}

/// A barrier and a stop leave nothing pending and tell of every pending frame, each as an error, and
/// for a stop as aborted; the answer to a barrier is success exactly if nothing was pending.
pub proof fn law_flush_and_stop_settle_every_frame<T>(
    before: Map<u64, T>,
    command: WorkerCommand<T>,
    after: Map<u64, T>,
    out: WorkerOutputView<T>,
)
    requires
        before.dom().finite(),
        command is WaitIdle || command is Stop,
        handled(before, command, after, out),
    ensures
        after == Map::<u64, T>::empty(),
        out.notices.len() == before.len(),
        forall|i: int| 0 <= i < out.notices.len() ==> (#[trigger] out.notices[i]) is Err,
        command is Stop ==> forall|i: int|
            0 <= i < out.notices.len() ==> (
            #[trigger] out.notices[i])->Err_0.status_code == Some(sys::MFX_ERR_ABORTED),
        command is WaitIdle ==> (out.reply == Some(Ok::<(), ErrorView>(())) <==> before == Map::<
            u64,
            T,
        >::empty()),
{
    law_worker_step_accounts_for_every_frame(before, command, after, out);
    if before.len() == 0 {
        assert(before =~= Map::<u64, T>::empty());
    }
}

/// Whether the `k`-th command is an output that gave the handler a frame for this sequence number.
pub open spec fn gave_frame_at<T>(
    commands: Seq<WorkerCommand<T>>,
    outs: Seq<WorkerOutputView<T>>,
    k: int,
    frame_seq: u64,
) -> bool {
    &&& commands[k] is Sync
    &&& commands[k]->Sync_0.surface.time_stamp == frame_seq
    &&& outs[k].notices.len() == 1
    &&& outs[k].notices[0] is Ok
}

/// Whether the `k`-th command is an output that gave the handler a frame with this user data.
pub open spec fn delivered_at<T>(
    commands: Seq<WorkerCommand<T>>,
    outs: Seq<WorkerOutputView<T>>,
    k: int,
    frame_seq: u64,
    user_data: T,
) -> bool {
    &&& gave_frame_at(commands, outs, k, frame_seq)
    &&& outs[k].notices[0]->Ok_0.user_data == user_data
}

/// Whether, after the `i`-th command and before the `n`-th, no output of this sequence number gave an
/// error and no barrier found frames that were not flushed.
pub open spec fn goes_well<T>(
    commands: Seq<WorkerCommand<T>>,
    outs: Seq<WorkerOutputView<T>>,
    i: int,
    n: int,
    frame_seq: u64,
) -> bool {
    forall|j: int|
        i < j < n ==> match #[trigger] commands[j] {
            WorkerCommand::Sync(sync) => sync.surface.time_stamp == frame_seq
                && outs[j].notices.len() > 0 ==> outs[j].notices[0] is Ok,
            WorkerCommand::WaitIdle => outs[j].reply == Some(Ok::<(), ErrorView>(())),
            _ => true,
        }
}

/// The handler gets a decoded frame for a sequence number at most once.
pub proof fn law_frame_is_delivered_at_most_once<T>(
    stores: Seq<Map<u64, T>>,
    commands: Seq<WorkerCommand<T>>,
    outs: Seq<WorkerOutputView<T>>,
    frame_seq: u64,
    k: int,
    l: int,
)
    requires
        worker_run(stores, commands, outs),
        numbers_ascend(commands),
        0 <= k < outs.len(),
        0 <= l < outs.len(),
        gave_frame_at(commands, outs, k, frame_seq),
        gave_frame_at(commands, outs, l, frame_seq),
    ensures
        k == l,
{
    assert(handled(stores[k], commands[k], stores[k + 1], outs[k]));
    assert(handled(stores[l], commands[l], stores[l + 1], outs[l]));
    assert(synced(stores[k], commands[k]->Sync_0).1 == Some(outs[k].notices[0]));
    assert(synced(stores[l], commands[l]->Sync_0).1 == Some(outs[l].notices[0]));
    lemma_run_is_ledger(stores, commands, outs);
    lemma_settled_once(stores, run_entries(stores, commands, outs.len()), frame_seq, k, l);
}

/// A barrier that succeeds finds nothing pending.
proof fn lemma_nothing_pending<T>(
    stores: Seq<Map<u64, T>>,
    commands: Seq<WorkerCommand<T>>,
    outs: Seq<WorkerOutputView<T>>,
    n: int,
    frame_seq: u64,
)
    requires
        worker_run(stores, commands, outs),
        0 <= n < outs.len(),
        commands[n] is WaitIdle,
        outs[n].reply == Some(Ok::<(), ErrorView>(())),
    ensures
        !stores[n].contains_key(frame_seq),
{
    assert(handled(stores[n], commands[n], stores[n + 1], outs[n]));
    law_worker_accounts_for_every_frame(stores, commands, outs, n as nat);
    if stores[n].contains_key(frame_seq) {
        assert(stores[n].dom().contains(frame_seq));
    }
}

/// If flushing succeeds, every input that was queued before and gave no error has come out exactly
/// once: one output between the two gave the handler a decoded frame with its user data, and no other
/// output ever gives one for its sequence number.
pub proof fn law_successful_flush_delivered_every_frame_once<T>(
    stores: Seq<Map<u64, T>>,
    commands: Seq<WorkerCommand<T>>,
    outs: Seq<WorkerOutputView<T>>,
    i: int,
    n: int,
    frame_seq: u64,
    user_data: T,
)
    requires
        worker_run(stores, commands, outs),
        numbers_ascend(commands),
        0 <= i < n < outs.len(),
        queued_at(commands, i, frame_seq, user_data),
        commands[n] is WaitIdle,
        outs[n].reply == Some(Ok::<(), ErrorView>(())),
        goes_well(commands, outs, i, n, frame_seq),
    ensures
        exists|k: int|
            i < k < n && #[trigger] delivered_at(commands, outs, k, frame_seq, user_data),
        forall|k: int, l: int|
            0 <= k < outs.len() && 0 <= l < outs.len() && #[trigger] delivered_at(
                commands,
                outs,
                k,
                frame_seq,
                user_data,
            ) && #[trigger] gave_frame_at(commands, outs, l, frame_seq) ==> k == l,
{
    let entries = run_entries(stores, commands, outs.len());
    lemma_run_is_ledger(stores, commands, outs);
    assert forall|j: int|
        i < j < n && #[trigger] entries[j] is Clear implies !stores[j].contains_key(frame_seq) by {
        assert(commands[j] is WaitIdle);
        lemma_nothing_pending(stores, commands, outs, j, frame_seq);
    }
    lemma_pending_until_settled(stores, entries, i, n, frame_seq, user_data);
    lemma_nothing_pending(stores, commands, outs, n, frame_seq);
    let k = choose|k: int|
        i < k < n && #[trigger] entries[k] == Entry::<T>::Settle(frame_seq)
            && stores[k].contains_key(frame_seq) && stores[k][frame_seq] == user_data;
    assert(handled(stores[k], commands[k], stores[k + 1], outs[k]));
    assert(delivered_at(commands, outs, k, frame_seq, user_data));
    assert forall|k: int, l: int|
        0 <= k < outs.len() && 0 <= l < outs.len() && #[trigger] delivered_at(
            commands,
            outs,
            k,
            frame_seq,
            user_data,
        ) && #[trigger] gave_frame_at(commands, outs, l, frame_seq) implies k == l by {
        law_frame_is_delivered_at_most_once(stores, commands, outs, frame_seq, k, l);
    }
}

/// The frames that the commands queue, each with its sequence number, in this order.
pub open spec fn queued_frames<T>(commands: Seq<WorkerCommand<T>>) -> Seq<(u64, T)> {
    present(commands.map_values(|command: WorkerCommand<T>| command.queued()))
}

/// A command that queues a frame has its place among all that do.
pub proof fn lemma_queued_place<T>(commands: Seq<WorkerCommand<T>>, i: int) -> (place: int)
    requires
        0 <= i < commands.len(),
        commands[i].queued() is Some,
    ensures
        0 <= place < queued_frames(commands).len(),
        Some(queued_frames(commands)[place]) == commands[i].queued(),
{
    let items = commands.map_values(|command: WorkerCommand<T>| command.queued());
    lemma_present_at(items, i);
    present_before(items, i)
}

/// Frames that are queued under ascending numbers make commands whose numbers ascend.
pub proof fn law_ascending_frames_make_ascending_commands<T>(commands: Seq<WorkerCommand<T>>)
    requires
        forall|k: int, l: int|
            0 <= k < l < queued_frames(commands).len() ==> (#[trigger] queued_frames(commands)[k]).0
                < (#[trigger] queued_frames(commands)[l]).0,
    ensures
        numbers_ascend(commands),
{
    let items = commands.map_values(|command: WorkerCommand<T>| command.queued());
    assert forall|i: int, j: int|
        0 <= i < j < commands.len() && #[trigger] commands[i] is QueueFrame
            && #[trigger] commands[j] is QueueFrame implies commands[i]->QueueFrame_frame_seq
        < commands[j]->QueueFrame_frame_seq by {
        lemma_present_at(items, i);
        lemma_present_at(items, j);
        lemma_present_order(items, i, j);
        let queued = queued_frames(commands);
        assert(queued[present_before(items, i)].0 < queued[present_before(items, j)].0);
    }
}

/// A surface gives a layout exactly if both planes are there, the visible part is not empty, and the
/// pitch is not less than its width, whatever its height. The layout is what the surface says: its
/// width, height and pitch, a Y plane of pitch times height bytes and a UV plane of half as many.
pub proof fn law_surface_gives_a_layout_if_its_rows_fit(surface: SurfaceInfo)
    ensures
        ({
            let sound = !surface.y_null && !surface.uv_null && surface.crop_w > 0 && surface.crop_h
                > 0 && surface.crop_w <= surface.pitch;
            &&& layout_of(surface) is Ok <==> sound
            &&& layout_of(surface) matches Ok(layout) ==> {
                &&& layout.width == surface.crop_w
                &&& layout.height == surface.crop_h
                &&& layout.pitch == surface.pitch
                &&& layout.y_size == surface.pitch * surface.crop_h
                &&& layout.uv_size == surface.pitch * surface.crop_h / 2
            }
        }),
{
    assert(0 <= surface.pitch * surface.crop_h <= 0xffff * 0xffff) by (nonlinear_arith)
        requires
            0 <= surface.pitch <= 0xffff,
            0 <= surface.crop_h <= 0xffff,
    ;
}

/// A surface without a layout is complained about by the first that is wrong with it: a missing plane,
/// an empty visible part, or rows that do not fit.
pub proof fn law_unsound_surface_is_complained_about(surface: SurfaceInfo)
    ensures
        ({
            let error = layout_of(surface)->Err_0;
            let says = |message: Seq<char>|
                error == ErrorView::custom("Decoder::sync_worker"@, message);
            let missing = surface.y_null || surface.uv_null;
            let empty = surface.crop_w == 0 || surface.crop_h == 0;
            &&& missing ==> says("decoded surface has null plane pointers"@)
            &&& !missing && empty ==> says("decoded surface has zero crop dimensions"@)
            &&& !missing && !empty && surface.pitch < surface.crop_w ==> says(
                "pitch ("@ + decimal(surface.pitch as nat) + ") is less than crop width ("@
                    + decimal(surface.crop_w as nat) + ")"@,
            )
        }),
{
}

/// An output that was waited for and mapped and whose number is pending gives its layout with the user
/// data of that number, or the complaint about its surface; only that number is pending no more. One
/// whose number is not pending is dropped without a notice. One that could not be waited for or mapped
/// is complained about. Neither changes what is pending.
pub proof fn law_output_gives_the_frame_of_its_number<T>(pending: Map<u64, T>, sync: DecodeSyncData)
    ensures
        ({
            let (after, notice) = synced(pending, sync);
            let number = sync.surface.time_stamp;
            let mapped = sync.sync_point != 0 && sync.sync_status == 0 && sync.map_status == 0;
            &&& mapped && pending.contains_key(number) ==> {
                &&& !after.contains_key(number)
                &&& forall|other: u64|
                    other != number ==> (#[trigger] after.contains_key(other)
                        == pending.contains_key(other))
                &&& forall|other: u64|
                    other != number && pending.contains_key(other) ==> #[trigger] after[other]
                        == pending[other]
                &&& notice is Some
                &&& notice->0 is Ok <==> layout_of(sync.surface) is Ok
                &&& notice->0 matches Ok(output) ==> output.layout == layout_of(sync.surface)->Ok_0
                    && output.user_data == pending[number]
                &&& notice->0 matches Err(error) ==> error == layout_of(sync.surface)->Err_0
            }
            &&& !(mapped && pending.contains_key(number)) ==> after == pending
            &&& mapped && !pending.contains_key(number) ==> notice is None
            &&& !mapped ==> notice == Some(
                Err::<DecodedOutput<T>, ErrorView>(
                    if sync.sync_point == 0 {
                        ErrorView::custom("Decoder::sync_worker"@, "sync point is null"@)
                    } else if sync.sync_status != 0 {
                        ErrorView::mfx(sync.sync_status, "MFXVideoCORE_SyncOperation"@)
                    } else {
                        ErrorView::mfx(sync.map_status, "mfxFrameSurfaceInterface::Map"@)
                    },
                ),
            )
        }),
{
}

/// An input that is queued becomes pending and changes nothing else; a notice comes exactly if its
/// number was pending already. An output gives its notice, if it has one.
pub proof fn law_queueing_and_outputs<T>(
    before: Map<u64, T>,
    command: WorkerCommand<T>,
    after: Map<u64, T>,
    out: WorkerOutputView<T>,
)
    requires
        handled(before, command, after, out),
    ensures
        command matches WorkerCommand::QueueFrame { frame_seq, user_data } ==> {
            &&& after.contains_key(frame_seq) && after[frame_seq] == user_data
            &&& forall|other: u64|
                other != frame_seq ==> (#[trigger] after.contains_key(other) == before.contains_key(
                    other,
                ))
            &&& forall|other: u64|
                other != frame_seq && before.contains_key(other) ==> #[trigger] after[other]
                    == before[other]
            &&& !before.contains_key(frame_seq) <==> out.notices.len() == 0
            &&& before.contains_key(frame_seq) ==> {
                &&& out.notices.len() == 1
                &&& out.notices[0] == Err::<DecodedOutput<T>, ErrorView>(
                    ErrorView::custom(
                        "Decoder::sync_worker"@,
                        "duplicate frame sequence in pending frames: "@ + decimal(frame_seq as nat),
                    ),
                )
            }
            &&& out.reply is None && !out.stop
        },
        command matches WorkerCommand::Sync(sync) ==> {
            &&& after == synced(before, sync).0
            &&& synced(before, sync).1 is None <==> out.notices.len() == 0
            &&& synced(before, sync).1 matches Some(notice) ==> out.notices.len() == 1
                && out.notices[0] == notice
            &&& out.reply is None && !out.stop
        },
{
}

/// A barrier reports each pending input by its number, as an error, leaves none pending, and succeeds
/// exactly if there was none; the worker goes on. A stop reports each as aborted, leaves none pending,
/// and ends the worker.
pub proof fn law_barrier_and_stop<T>(
    before: Map<u64, T>,
    command: WorkerCommand<T>,
    after: Map<u64, T>,
    out: WorkerOutputView<T>,
    frame_seq: u64,
)
    requires
        before.dom().finite(),
        handled(before, command, after, out),
    ensures
        command is WaitIdle ==> {
            &&& !after.contains_key(frame_seq)
            &&& !out.stop
            &&& out.notices.len() == before.len()
            &&& before.contains_key(frame_seq) ==> out.notices.contains(
                Err(
                    ErrorView::custom(
                        "Decoder::finish"@,
                        "decode pending frame seq="@ + decimal(frame_seq as nat)
                            + " (pending count: "@ + decimal(before.len()) + ")"@,
                    ),
                ),
            )
            &&& before.len() == 0 ==> out.reply == Some(Ok::<(), ErrorView>(()))
            &&& before.len() > 0 ==> out.reply == Some(
                Err::<(), ErrorView>(
                    ErrorView::custom(
                        "Decoder::finish"@,
                        "finish completed but "@ + decimal(before.len())
                            + " pending frames remained"@,
                    ),
                ),
            )
        },
        command is Stop ==> {
            &&& !after.contains_key(frame_seq)
            &&& out.stop
            &&& out.reply is None
            &&& out.notices.len() == before.len()
            &&& forall|i: int|
                0 <= i < out.notices.len() ==> #[trigger] out.notices[i] == Err::<
                    DecodedOutput<T>,
                    ErrorView,
                >(ErrorView::mfx(sys::MFX_ERR_ABORTED, "Decoder::drop"@))
        },
{
    law_worker_step_accounts_for_every_frame(before, command, after, out);
    if command is WaitIdle && before.contains_key(frame_seq) {
        let order = choose|order: Seq<u64>| reports_unflushed(out.notices, before, order);
        assert(order.to_set().contains(frame_seq));
        let i = choose|i: int| 0 <= i < order.len() && order[i] == frame_seq;
        assert(out.notices[i] == Err::<DecodedOutput<T>, ErrorView>(
            finish_pending(frame_seq, before.len()),
        ));
    }
}

/// A worker answers every command up to the first that stops it, and that one too.
pub proof fn law_worker_answers_every_command<T>(
    stores: Seq<Map<u64, T>>,
    commands: Seq<WorkerCommand<T>>,
    outs: Seq<WorkerOutputView<T>>,
    k: int,
)
    requires
        worker_run(stores, commands, outs),
        0 <= k <= commands.len(),
        forall|i: int| 0 <= i < k ==> !(#[trigger] commands[i] is Stop),
    ensures
        outs.len() >= k,
        k == commands.len() ==> outs.len() == k,
        k < commands.len() && commands[k] is Stop ==> outs.len() == k + 1,
        stores[0].len() == 0,
        forall|i: int|
            0 <= i < outs.len() ==> handled(
                stores[i],
                commands[i],
                stores[i + 1],
                #[trigger] outs[i],
            ),
{
    if outs.len() < k {
        assert(commands[outs.len() - 1] is Stop);
    }
    if k < commands.len() && commands[k] is Stop && outs.len() > k + 1 {
        assert(!(commands[k] is Stop));
    }
    if k < commands.len() && commands[k] is Stop && outs.len() == k {
        assert(outs.len() < commands.len());
        assert(commands[k - 1] is Stop);
    }
}

/// Notices are seen as they are: a frame by its layout and user data, an error by what it says.
pub proof fn law_notices_are_seen_as_they_are<T>(out: WorkerOutput<T>, i: int)
    requires
        0 <= i < out.notices@.len(),
    ensures
        out@.notices.len() == out.notices@.len(),
        out.notices@[i] matches Ok(output) ==> out@.notices[i] == Ok::<DecodedOutput<T>, ErrorView>(
            output,
        ),
        out.notices@[i] matches Err(error) ==> out@.notices[i] == Err::<
            DecodedOutput<T>,
            ErrorView,
        >(error@),
        out@.stop == out.stop,
        out@.reply is Some <==> out.reply is Some,
        out.reply matches Some(reply) ==> (out@.reply->0 is Ok <==> reply is Ok),
{
}

} // verus!
