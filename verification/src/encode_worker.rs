//! The worker that waits for encoded frames and hands them to the handler.
//!
//! The worker is fed commands and answers each with the notices for the handler. Waiting for the
//! device is left to whoever feeds it: a synchronised output comes in with its command.
use std::collections::VecDeque;
use vstd::prelude::*;
use vstd::slice::slice_subrange;
use vstd::slice::slice_to_vec;

use crate::config::picture_type_from_frame_type;
use crate::config::picture_type_of;
use crate::config::PictureType;
use crate::error::answer;
use crate::error::Error;
use crate::error::ErrorView;
use crate::ledger::entries_ascend;
use crate::ledger::is_ledger;
use crate::ledger::lemma_pending_is_finite;
use crate::ledger::lemma_pending_until_settled;
use crate::ledger::lemma_pending_was_queued;
use crate::ledger::lemma_settled_once;
use crate::ledger::lemma_told_and_pending_are_owed;
use crate::ledger::Entry;
use crate::pending::lemma_content_len;
use crate::pending::lists;
use crate::pending::PendingFrameStore;
use crate::sequence::lemma_present_at;
use crate::sequence::lemma_present_order;
use crate::sequence::present;
use crate::sequence::present_before;
use crate::sequence::total;
use crate::sys;
use crate::text::decimal;
use crate::text::push_decimal;

verus! {

/// What is remembered of a frame that is being encoded.
#[derive(Debug, Clone)]
pub struct PendingFrame<T> {
    pub presentation_timestamp: u64,
    pub user_data: T,
}

/// An encoded frame.
#[derive(Debug, Clone)]
pub struct EncodedFrame<T> {
    data: Vec<u8>,
    timestamp: u64,
    picture_type: PictureType,
    user_data: T,
}

/// The content of an [`EncodedFrame`].
#[verifier::ext_equal]
pub struct EncodedFrameView<T> {
    pub data: Seq<u8>,
    pub timestamp: u64,
    pub picture_type: PictureType,
    pub user_data: T,
}

impl<T> View for EncodedFrame<T> {
    type V = EncodedFrameView<T>;

    closed spec fn view(&self) -> EncodedFrameView<T> {
        EncodedFrameView {
            data: self.data@,
            timestamp: self.timestamp,
            picture_type: self.picture_type,
            user_data: self.user_data,
        }
    }
}

impl<T> EncodedFrame<T> {
    /// The bitstream of the frame.
    pub fn data(&self) -> (r: &[u8])
        ensures
            r@ == self@.data,
    {
        self.data.as_slice()
    }

    /// The bitstream of the frame.
    pub fn into_data(self) -> (r: Vec<u8>)
        ensures
            r@ == self@.data,
    {
        self.data
    }

    /// The presentation timestamp.
    pub fn timestamp(&self) -> (r: u64)
        ensures
            r == self@.timestamp,
    {
        self.timestamp
    }

    /// How the picture was coded.
    pub fn picture_type(&self) -> (r: PictureType)
        ensures
            r == self@.picture_type,
    {
        self.picture_type
    }

    /// What the caller handed in with the frame.
    pub fn user_data(&self) -> (r: &T)
        ensures
            *r == self@.user_data,
    {
        &self.user_data
    }

    /// What the caller handed in with the frame.
    pub fn into_user_data(self) -> (r: T)
        ensures
            r == self@.user_data,
    {
        self.user_data
    }
}

/// An output of the encoder after `MFXVideoCORE_SyncOperation` returned.
#[derive(Debug, Clone)]
pub struct SyncData {
    /// The sync point that was waited for; 0 if it is null, and nothing was waited for.
    pub sync_point: usize,
    /// The status of the operation.
    pub status: i32,
    /// `mfxBitstream.DataOffset`.
    pub data_offset: u32,
    /// `mfxBitstream.DataLength`.
    pub data_length: u32,
    /// `mfxBitstream.TimeStamp`, which carries the sequence number of the input frame.
    pub time_stamp: u64,
    /// `mfxBitstream.FrameType`.
    pub frame_type: u16,
    /// The buffer behind `mfxBitstream.Data`.
    pub buffer: Vec<u8>,
}

/// What the bitstream of an output says.
#[derive(Debug, Clone)]
pub struct SyncedBitstream {
    pub data: Vec<u8>,
    pub frame_seq: u64,
    pub picture_type: PictureType,
}

/// The content of a [`SyncedBitstream`].
#[verifier::ext_equal]
pub struct SyncedBitstreamView {
    pub data: Seq<u8>,
    pub frame_seq: u64,
    pub picture_type: PictureType,
}

impl View for SyncedBitstream {
    type V = SyncedBitstreamView;

    open spec fn view(&self) -> SyncedBitstreamView {
        SyncedBitstreamView {
            data: self.data@,
            frame_seq: self.frame_seq,
            picture_type: self.picture_type,
        }
    }
}

/// What becomes of an output: its bitstream, or the first complaint about it. An empty bitstream is
/// none, as draining yields such outputs.
pub open spec fn collected(sync: SyncData) -> Result<SyncedBitstreamView, ErrorView> {
    let end = sync.data_offset + sync.data_length;
    let bitstream = |data: Seq<u8>|
        SyncedBitstreamView {
            data,
            frame_seq: sync.time_stamp,
            picture_type: picture_type_of(sync.frame_type),
        };
    if sync.sync_point == 0 {
        Err(ErrorView::custom("Encoder::sync_worker"@, "sync point is null"@))
    } else if sync.status != sys::MFX_ERR_NONE {
        Err(ErrorView::mfx(sync.status, "MFXVideoCORE_SyncOperation"@))
    } else if sync.data_length == 0 {
        Ok(bitstream(Seq::empty()))
    } else if end > usize::MAX {
        Err(
            ErrorView::custom(
                "Encoder::sync_worker"@,
                "bitstream offset ("@ + decimal(sync.data_offset as nat) + ") + length ("@
                    + decimal(sync.data_length as nat) + ") overflows usize"@,
            ),
        )
    } else if end > sync.buffer@.len() {
        Err(
            ErrorView::custom(
                "Encoder::sync_worker"@,
                "bitstream range "@ + decimal(sync.data_offset as nat) + ".."@ + decimal(
                    end as nat,
                ) + " exceeds buffer size "@ + decimal(sync.buffer@.len()),
            ),
        )
    } else {
        Ok(bitstream(sync.buffer@.subrange(sync.data_offset as int, end)))
    }
}

/// The content of what collecting an output gives.
pub open spec fn collected_view(result: Result<SyncedBitstream, Error>) -> Result<
    SyncedBitstreamView,
    ErrorView,
> {
    match result {
        Ok(synced) => Ok(synced@),
        Err(error) => Err(error@),
    }
}

/// Reads the bitstream of an output. Offset and length are checked before anything is read.
pub fn sync_and_collect(sync: SyncData) -> (r: Result<SyncedBitstream, Error>)
    ensures
        collected_view(r) == collected(sync),
{
    if sync.sync_point == 0 {
        return Err(Error::new_custom("Encoder::sync_worker", "sync point is null"));
    }
    if let Err(error) = Error::check_mfx(sync.status, "MFXVideoCORE_SyncOperation") {
        return Err(error);
    }
    let picture_type = picture_type_from_frame_type(sync.frame_type);
    let offset: usize = sync.data_offset as usize;
    let length: usize = sync.data_length as usize;
    if length == 0 {
        return Ok(
            SyncedBitstream { data: Vec::new(), frame_seq: sync.time_stamp, picture_type },
        );
    }
    match offset.checked_add(length) {
        None => {
            let mut message = "bitstream offset (".to_owned();
            push_decimal(&mut message, offset as u64);
            message.append(") + length (");
            push_decimal(&mut message, length as u64);
            message.append(") overflows usize");
            Err(Error::new_custom_owned("Encoder::sync_worker", message))
        },
        Some(end) => {
            if end > sync.buffer.len() {
                let mut message = "bitstream range ".to_owned();
                push_decimal(&mut message, offset as u64);
                message.append("..");
                push_decimal(&mut message, end as u64);
                message.append(" exceeds buffer size ");
                push_decimal(&mut message, sync.buffer.len() as u64);
                return Err(Error::new_custom_owned("Encoder::sync_worker", message));
            }
            let data = slice_to_vec(slice_subrange(sync.buffer.as_slice(), offset, end));
            Ok(SyncedBitstream { data, frame_seq: sync.time_stamp, picture_type })
        },
    }
}

/// The error for an output that belongs to no pending frame.
pub open spec fn mismatched_timestamp(frame_seq: u64, pending: nat) -> ErrorView {
    ErrorView::custom(
        "Encoder::sync_worker"@,
        "no pending frame for bitstream timestamp "@ + decimal(frame_seq as nat)
            + " (pending count: "@ + decimal(pending) + ")"@,
    )
}

/// The error for a frame that is still pending after everything was flushed.
pub open spec fn finish_pending(frame_seq: u64, pending: nat) -> ErrorView {
    ErrorView::custom(
        "Encoder::finish"@,
        "pending frames remained after flush for frame sequence "@ + decimal(frame_seq as nat)
            + " (pending count: "@ + decimal(pending) + ")"@,
    )
}

/// The error for frames that are pending when the encoder is dropped.
pub open spec fn canceled() -> ErrorView {
    ErrorView::mfx(sys::MFX_ERR_ABORTED, "Encoder::drop"@)
}

/// The error for two pending frames of one sequence number.
pub open spec fn duplicate_frame(frame_seq: u64) -> ErrorView {
    ErrorView::custom(
        "Encoder::sync_worker"@,
        "duplicate frame sequence in pending frames: "@ + decimal(frame_seq as nat),
    )
}

/// The answer to a barrier that finds so many frames pending.
pub open spec fn frames_remained(pending: nat) -> ErrorView {
    ErrorView::custom(
        "Encoder::finish"@,
        "finish completed but "@ + decimal(pending) + " pending frames remained"@,
    )
}

/// The error for an output that belongs to no pending frame.
pub fn mismatched_timestamp_error(frame_seq: u64, pending_len: usize) -> (r: Error)
    ensures
        r@ == mismatched_timestamp(frame_seq, pending_len as nat),
{
    let mut message = "no pending frame for bitstream timestamp ".to_owned();
    push_decimal(&mut message, frame_seq);
    message.append(" (pending count: ");
    push_decimal(&mut message, pending_len as u64);
    message.append(")");
    Error::new_custom_owned("Encoder::sync_worker", message)
}

/// The error for a frame that is still pending after everything was flushed.
pub fn finish_pending_error(frame_seq: u64, pending_count: usize) -> (r: Error)
    ensures
        r@ == finish_pending(frame_seq, pending_count as nat),
{
    let mut message = "pending frames remained after flush for frame sequence ".to_owned();
    push_decimal(&mut message, frame_seq);
    message.append(" (pending count: ");
    push_decimal(&mut message, pending_count as u64);
    message.append(")");
    Error::new_custom_owned("Encoder::finish", message)
}

/// The error for frames that are pending when the encoder is dropped.
pub fn canceled_error() -> (r: Error)
    ensures
        r@ == canceled(),
{
    Error::from_mfx(sys::MFX_ERR_ABORTED, "Encoder::drop")
}

/// What an output does to the pending frames, and what the handler is told of it.
///
/// The time stamp of the output is the sequence number of the frame that it was made from.
pub open spec fn built<T>(pending: Map<u64, PendingFrame<T>>, sync: SyncData) -> (
    Map<u64, PendingFrame<T>>,
    Result<EncodedFrameView<T>, ErrorView>,
) {
    match collected(sync) {
        Err(error) => (pending, Err(error)),
        Ok(synced) => if pending.contains_key(synced.frame_seq) {
            let frame = pending[synced.frame_seq];
            (
                pending.remove(synced.frame_seq),
                Ok(
                    EncodedFrameView {
                        data: synced.data,
                        timestamp: frame.presentation_timestamp,
                        picture_type: synced.picture_type,
                        user_data: frame.user_data,
                    },
                ),
            )
        } else {
            (pending, Err(mismatched_timestamp(synced.frame_seq, pending.len())))
        },
    }
}

/// The content of a notice.
pub open spec fn notice_view<T>(notice: Result<EncodedFrame<T>, Error>) -> Result<
    EncodedFrameView<T>,
    ErrorView,
> {
    match notice {
        Ok(frame) => Ok(frame@),
        Err(error) => Err(error@),
    }
}

/// Turns an output into the frame that the handler gets. The pending frame that it belongs to is
/// pending no more.
pub fn sync_and_build_frame<T>(
    sync: SyncData,
    pending: &mut PendingFrameStore<PendingFrame<T>>,
) -> (r: Result<EncodedFrame<T>, Error>)
    ensures
        (final(pending)@, notice_view(r)) == built(old(pending)@, sync),
{
    match sync_and_collect(sync) {
        Err(error) => Err(error),
        Ok(synced) => {
            match pending.take_by_frame_seq(synced.frame_seq) {
                Some(frame) => Ok(
                    EncodedFrame {
                        data: synced.data,
                        timestamp: frame.presentation_timestamp,
                        picture_type: synced.picture_type,
                        user_data: frame.user_data,
                    },
                ),
                None => {
                    assert(pending@ =~= old(pending)@);
                    Err(mismatched_timestamp_error(synced.frame_seq, pending.len()))
                },
            }
        },
    }
}

/// A command for the worker.
#[derive(Debug)]
pub enum WorkerCommand<T> {
    /// A frame was handed to the encoder.
    QueueFrame { frame_seq: u64, pending_frame: PendingFrame<T> },
    /// The encoder gave an output.
    Sync(SyncData),
    /// Everything was flushed: answer whether nothing is pending.
    WaitIdle,
    /// The encoder is dropped.
    Stop,
}

/// What the worker makes of a command.
#[derive(Debug)]
pub struct WorkerOutput<T> {
    /// What the handler is told, in this order.
    pub notices: Vec<Result<EncodedFrame<T>, Error>>,
    /// The answer to a barrier.
    pub reply: Option<Result<(), Error>>,
    /// Whether the worker ends.
    pub stop: bool,
}

/// The content of a [`WorkerOutput`].
#[verifier::ext_equal]
pub struct WorkerOutputView<T> {
    pub notices: Seq<Result<EncodedFrameView<T>, ErrorView>>,
    pub reply: Option<Result<(), ErrorView>>,
    pub stop: bool,
}

impl<T> View for WorkerOutput<T> {
    type V = WorkerOutputView<T>;

    open spec fn view(&self) -> WorkerOutputView<T> {
        WorkerOutputView {
            notices: self.notices@.map_values(
                |notice: Result<EncodedFrame<T>, Error>| notice_view(notice),
            ),
            reply: match self.reply {
                Some(reply) => Some(answer(reply)),
                None => None,
            },
            stop: self.stop,
        }
    }
}

/// Whether the notices tell of every pending frame that it was not flushed, in some order.
pub open spec fn reports_unflushed<T>(
    notices: Seq<Result<EncodedFrameView<T>, ErrorView>>,
    pending: Map<u64, PendingFrame<T>>,
    order: Seq<u64>,
) -> bool {
    &&& lists(order, pending.dom())
    &&& notices == order.map_values(
        |frame_seq: u64|
            Err::<EncodedFrameView<T>, ErrorView>(finish_pending(frame_seq, pending.len())),
    )
}

/// Whether the worker may answer a command like this.
///
/// It is fixed but for the order in which pending frames are reported as not flushed.
pub open spec fn handled<T>(
    before: Map<u64, PendingFrame<T>>,
    command: WorkerCommand<T>,
    after: Map<u64, PendingFrame<T>>,
    out: WorkerOutputView<T>,
) -> bool {
    match command {
        WorkerCommand::QueueFrame { frame_seq, pending_frame } => {
            &&& after == before.insert(frame_seq, pending_frame)
            &&& out.notices == (if before.contains_key(frame_seq) {
                seq![Err::<EncodedFrameView<T>, ErrorView>(duplicate_frame(frame_seq))]
            } else {
                Seq::empty()
            })
            &&& out.reply is None
            &&& !out.stop
        },
        WorkerCommand::Sync(sync) => {
            &&& after == built(before, sync).0
            &&& out.notices == seq![built(before, sync).1]
            &&& out.reply is None
            &&& !out.stop
        },
        WorkerCommand::WaitIdle => {
            &&& after == Map::<u64, PendingFrame<T>>::empty()
            &&& exists|order: Seq<u64>| reports_unflushed(out.notices, before, order)
            &&& out.reply == Some(
                if before.len() == 0 {
                    Ok::<(), ErrorView>(())
                } else {
                    Err(frames_remained(before.len()))
                },
            )
            &&& !out.stop
        },
        WorkerCommand::Stop => {
            &&& after == Map::<u64, PendingFrame<T>>::empty()
            &&& out.notices == Seq::new(
                before.len(),
                |i: int| Err::<EncodedFrameView<T>, ErrorView>(canceled()),
            )
            &&& out.reply is None
            &&& out.stop
        },
    }
}

/// The worker. Its view is what is pending.
#[derive(Debug)]
pub struct SyncWorker<T> {
    pending: PendingFrameStore<PendingFrame<T>>,
}

impl<T> View for SyncWorker<T> {
    type V = Map<u64, PendingFrame<T>>;

    closed spec fn view(&self) -> Map<u64, PendingFrame<T>> {
        self.pending@
    }
}

impl<T> SyncWorker<T> {
    /// A worker without pending frames.
    pub fn new() -> (r: Self)
        ensures
            r@ == Map::<u64, PendingFrame<T>>::empty(),
    {
        SyncWorker { pending: PendingFrameStore::new() }
    }

    fn wait_idle(&mut self) -> (r: WorkerOutput<T>)
        ensures
            handled(old(self)@, WorkerCommand::WaitIdle, final(self)@, r@),
    {
        let ghost before = self@;
        let mut notices: Vec<Result<EncodedFrame<T>, Error>> = Vec::new();
        let drained = self.pending.drain_all();
        let count: usize = drained.len();
        let ghost order = drained@.map_values(|entry: (u64, PendingFrame<T>)| entry.0);
        proof {
            lemma_content_len(drained@, before);
        }
        let mut i: usize = 0;
        while i < count
            invariant
                count == drained@.len(),
                i <= count,
                order == drained@.map_values(|entry: (u64, PendingFrame<T>)| entry.0),
                notices@.len() == i,
                forall|k: int|
                    0 <= k < i ==> notice_view(#[trigger] notices@[k]) == Err::<
                        EncodedFrameView<T>,
                        ErrorView,
                    >(finish_pending(order[k], count as nat)),
            decreases count - i,
        {
            notices.push(Err(finish_pending_error(drained[i].0, count)));
            i = i + 1;
        }
        let reply = if count == 0 {
            Ok(())
        } else {
            let mut message = "finish completed but ".to_owned();
            push_decimal(&mut message, count as u64);
            message.append(" pending frames remained");
            Err(Error::new_custom_owned("Encoder::finish", message))
        };
        let output = WorkerOutput { notices, reply: Some(reply), stop: false };
        assert(output@.notices =~= order.map_values(
            |frame_seq: u64|
                Err::<EncodedFrameView<T>, ErrorView>(finish_pending(frame_seq, before.len())),
        ));
        assert(reports_unflushed(output@.notices, before, order));
        output
    }

    fn stop(&mut self) -> (r: WorkerOutput<T>)
        ensures
            handled(old(self)@, WorkerCommand::Stop, final(self)@, r@),
    {
        let ghost before = self@;
        let mut notices: Vec<Result<EncodedFrame<T>, Error>> = Vec::new();
        let drained = self.pending.drain_all();
        let count: usize = drained.len();
        proof {
            lemma_content_len(drained@, before);
        }
        let mut i: usize = 0;
        while i < count
            invariant
                i <= count,
                notices@.len() == i,
                forall|k: int|
                    0 <= k < i ==> notice_view(#[trigger] notices@[k]) == Err::<
                        EncodedFrameView<T>,
                        ErrorView,
                    >(canceled()),
            decreases count - i,
        {
            notices.push(Err(canceled_error()));
            i = i + 1;
        }
        let output = WorkerOutput { notices, reply: None, stop: true };
        assert(output@.notices =~= Seq::new(
            before.len(),
            |k: int| Err::<EncodedFrameView<T>, ErrorView>(canceled()),
        ));
        output
    }

    /// Carries out a command.
    pub fn handle(&mut self, command: WorkerCommand<T>) -> (r: WorkerOutput<T>)
        ensures
            handled(old(self)@, command, final(self)@, r@),
    {
        match command {
            WorkerCommand::QueueFrame { frame_seq, pending_frame } => {
                let mut notices: Vec<Result<EncodedFrame<T>, Error>> = Vec::new();
                if self.pending.insert(frame_seq, pending_frame).is_some() {
                    let mut message = "duplicate frame sequence in pending frames: ".to_owned();
                    push_decimal(&mut message, frame_seq);
                    notices.push(
                        Err(Error::new_custom_owned("Encoder::sync_worker", message)),
                    );
                }
                let output = WorkerOutput { notices, reply: None, stop: false };
                assert(output@.notices =~= if old(self)@.contains_key(frame_seq) {
                    seq![Err::<EncodedFrameView<T>, ErrorView>(duplicate_frame(frame_seq))]
                } else {
                    Seq::empty()
                });
                output
            },
            WorkerCommand::Sync(sync) => {
                let notice = sync_and_build_frame(sync, &mut self.pending);
                let output = WorkerOutput { notices: vec![notice], reply: None, stop: false };
                assert(output@.notices =~= seq![notice_view(notice)]);
                output
            },
            WorkerCommand::WaitIdle => self.wait_idle(),
            WorkerCommand::Stop => self.stop(),
        }
    }
}

/// Whether a worker that is fed `commands` may go through these stores and answer with `outs`.
///
/// It starts with nothing pending and answers every command up to the first that stops it.
pub open spec fn worker_run<T>(
    stores: Seq<Map<u64, PendingFrame<T>>>,
    commands: Seq<WorkerCommand<T>>,
    outs: Seq<WorkerOutputView<T>>,
) -> bool {
    &&& stores.len() == outs.len() + 1
    &&& stores[0] == Map::<u64, PendingFrame<T>>::empty()
    &&& outs.len() <= commands.len()
    &&& forall|i: int|
        0 <= i < outs.len() ==> handled(
            stores[i],
            commands[i],
            stores[i + 1],
            #[trigger] outs[i],
        )
    &&& forall|i: int| 0 <= i < outs.len() - 1 ==> !(#[trigger] commands[i] is Stop)
    &&& outs.len() < commands.len() ==> outs.len() > 0 && commands[outs.len() - 1] is Stop
}

/// The contents of a list of outputs.
pub open spec fn output_views<T>(outs: Seq<WorkerOutput<T>>) -> Seq<WorkerOutputView<T>> {
    outs.map_values(|out: WorkerOutput<T>| out@)
}

/// Carries out commands until one stops the worker or there are no more.
pub fn run_sync_worker<T>(commands: VecDeque<WorkerCommand<T>>) -> (r: Vec<WorkerOutput<T>>)
    ensures
        exists|stores: Seq<Map<u64, PendingFrame<T>>>|
            worker_run(stores, commands@, output_views(r@)),
{
    let ghost given = commands@;
    let mut rest = commands;
    let mut worker: SyncWorker<T> = SyncWorker::new();
    let mut outs: Vec<WorkerOutput<T>> = Vec::new();
    let ghost mut stores: Seq<Map<u64, PendingFrame<T>>> = seq![worker@];
    let mut stopped = false;
    while !stopped && rest.len() > 0
        invariant
            given.len() == outs@.len() + rest@.len(),
            rest@ == given.skip(outs@.len() as int),
            stores.len() == outs@.len() + 1,
            stores[0] == Map::<u64, PendingFrame<T>>::empty(),
            stores.last() == worker@,
            forall|i: int|
                0 <= i < outs@.len() ==> handled(
                    stores[i],
                    given[i],
                    stores[i + 1],
                    (#[trigger] outs@[i])@,
                ),
            forall|i: int| 0 <= i < outs@.len() - 1 ==> !(#[trigger] given[i] is Stop),
            outs@.len() > 0 ==> (stopped <==> given[outs@.len() - 1] is Stop),
            outs@.len() == 0 ==> !stopped,
        decreases rest@.len(),
    {
        match rest.pop_front() {
            Some(command) => {
                assert(command == given[outs@.len() as int]);
                let out = worker.handle(command);
                stopped = out.stop;
                proof {
                    stores = stores.push(worker@);
                }
                outs.push(out);
                assert(rest@ =~= given.skip(outs@.len() as int));
            },
            None => {
                stopped = true;
            },
        }
    }
    proof {
        let views = output_views(outs@);
        assert(views.len() == outs@.len());
        assert forall|i: int| 0 <= i < views.len() implies handled(
            stores[i],
            given[i],
            stores[i + 1],
            #[trigger] views[i],
        ) by {
            assert(views[i] == outs@[i]@);
        }
        assert(worker_run(stores, given, views));
    }
    outs
}

/// How many notices a command adds to those owed for the frames that are pending: a frame is owed
/// one from when it is queued, and an output that cannot be turned into a frame gives one of its own.
pub open spec fn notices_added<T>(
    pending: Map<u64, PendingFrame<T>>,
    command: WorkerCommand<T>,
) -> nat {
    match command {
        WorkerCommand::QueueFrame { .. } => 1,
        WorkerCommand::Sync(sync) => if built(pending, sync).1 is Ok {
            0
        } else {
            1
        },
        _ => 0,
    }
}

/// No notice is lost and none is made up: what is still pending and what was told add up to what
/// was pending and what the command added.
pub proof fn law_worker_step_accounts_for_every_frame<T>(
    before: Map<u64, PendingFrame<T>>,
    command: WorkerCommand<T>,
    after: Map<u64, PendingFrame<T>>,
    out: WorkerOutputView<T>,
)
    requires
        before.dom().finite(),
        handled(before, command, after, out),
    ensures
        after.dom().finite(),
        out.notices.len() + after.len() == before.len() + notices_added(before, command),
{
    match command {
        WorkerCommand::WaitIdle => {
            let order = choose|order: Seq<u64>| reports_unflushed(out.notices, before, order);
            order.unique_seq_to_set();
        },
        _ => {},
    }
}

impl<T> WorkerCommand<T> {
    /// What the command does to the pending frames.
    pub open spec fn entry(self, pending: Map<u64, PendingFrame<T>>) -> Entry<PendingFrame<T>> {
        match self {
            WorkerCommand::QueueFrame { frame_seq, pending_frame } => Entry::Queue(
                frame_seq,
                pending_frame,
            ),
            WorkerCommand::Sync(sync) => if built(pending, sync).1 is Ok {
                Entry::Settle(sync.time_stamp)
            } else {
                Entry::Keep
            },
            WorkerCommand::WaitIdle | WorkerCommand::Stop => Entry::Clear,
        }
    }

    /// The frame that the command queues, with its sequence number.
    pub open spec fn queued(self) -> Option<(u64, PendingFrame<T>)> {
        match self {
            WorkerCommand::QueueFrame { frame_seq, pending_frame } => Some((frame_seq, pending_frame)),
            _ => None,
        }
    }
}

/// What the first `n` commands of a run do to the pending frames.
spec fn run_entries<T>(
    stores: Seq<Map<u64, PendingFrame<T>>>,
    commands: Seq<WorkerCommand<T>>,
    n: nat,
) -> Seq<Entry<PendingFrame<T>>> {
    Seq::new(n, |i: int| commands[i].entry(stores[i]))
}

proof fn lemma_run_is_ledger<T>(
    stores: Seq<Map<u64, PendingFrame<T>>>,
    commands: Seq<WorkerCommand<T>>,
    outs: Seq<WorkerOutputView<T>>,
)
    requires
        worker_run(stores, commands, outs),
    ensures
        is_ledger(stores, run_entries(stores, commands, outs.len())),
        numbers_ascend(commands) ==> entries_ascend(run_entries(stores, commands, outs.len())),
{
    let entries = run_entries(stores, commands, outs.len());
    assert forall|i: int| 0 <= i < entries.len() implies (#[trigger] entries[i]).leads(
        stores[i],
        stores[i + 1],
    ) by {
        assert(handled(stores[i], commands[i], stores[i + 1], outs[i]));
    }
    if numbers_ascend(commands) {
        assert forall|i: int, j: int|
            0 <= i < j < entries.len() && #[trigger] entries[i] is Queue
                && #[trigger] entries[j] is Queue implies entries[i]->Queue_0
            < entries[j]->Queue_0 by {
            assert(commands[i] is QueueFrame && commands[j] is QueueFrame);
        }
    }
}

/// The number of notices in the first `n` outputs.
pub open spec fn notices_told<T>(outs: Seq<WorkerOutputView<T>>, n: nat) -> nat {
    total(outs.map_values(|out: WorkerOutputView<T>| out.notices.len()), n)
}

/// The number of notices that the first `n` commands add.
pub open spec fn notices_owed<T>(
    stores: Seq<Map<u64, PendingFrame<T>>>,
    commands: Seq<WorkerCommand<T>>,
    n: nat,
) -> nat {
    total(Seq::new(commands.len(), |i: int| notices_added(stores[i], commands[i])), n)
}

/// At any point of a run, the notices given and the frames pending add up to the notices owed: every
/// frame that was queued is told of once or is still pending.
pub proof fn law_worker_accounts_for_every_frame<T>(
    stores: Seq<Map<u64, PendingFrame<T>>>,
    commands: Seq<WorkerCommand<T>>,
    outs: Seq<WorkerOutputView<T>>,
    n: nat,
)
    requires
        worker_run(stores, commands, outs),
        n <= outs.len(),
    ensures
        stores[n as int].dom().finite(),
        notices_told(outs, n) + stores[n as int].len() == notices_owed(stores, commands, n),
{
    let entries = run_entries(stores, commands, outs.len());
    let told = outs.map_values(|out: WorkerOutputView<T>| out.notices.len());
    let owed = Seq::new(commands.len(), |i: int| notices_added(stores[i], commands[i]));
    lemma_run_is_ledger(stores, commands, outs);
    lemma_pending_is_finite(stores, entries, n as int);
    assert forall|i: int| 0 <= i < n implies #[trigger] told[i] + stores[i + 1].len()
        == stores[i].len() + owed[i] by {
        assert(handled(stores[i], commands[i], stores[i + 1], outs[i]));
        lemma_pending_is_finite(stores, entries, i);
        law_worker_step_accounts_for_every_frame(stores[i], commands[i], stores[i + 1], outs[i]);
    }
    lemma_told_and_pending_are_owed(stores, told, owed, n);
}

/// Whether the `i`-th command queued this frame.
pub open spec fn queued_at<T>(
    commands: Seq<WorkerCommand<T>>,
    i: int,
    frame_seq: u64,
    frame: PendingFrame<T>,
) -> bool {
    commands[i] == (WorkerCommand::QueueFrame { frame_seq, pending_frame: frame })
}

/// An encoded frame that the handler gets carries the user data and the timestamp that were queued
/// under the sequence number that its output bears, however the encoder reorders frames.
pub proof fn law_encoded_frame_carries_what_was_queued<T>(
    stores: Seq<Map<u64, PendingFrame<T>>>,
    commands: Seq<WorkerCommand<T>>,
    outs: Seq<WorkerOutputView<T>>,
    n: int,
)
    requires
        worker_run(stores, commands, outs),
        0 <= n < outs.len(),
        commands[n] is Sync,
        outs[n].notices[0] is Ok,
    ensures
        exists|i: int, frame: PendingFrame<T>|
            0 <= i < n && #[trigger] queued_at(commands, i, commands[n]->Sync_0.time_stamp, frame)
                && outs[n].notices[0]->Ok_0.user_data == frame.user_data
                && outs[n].notices[0]->Ok_0.timestamp == frame.presentation_timestamp,
{
    assert(handled(stores[n], commands[n], stores[n + 1], outs[n]));
    let frame_seq = commands[n]->Sync_0.time_stamp;
    let entries = run_entries(stores, commands, outs.len());
    lemma_run_is_ledger(stores, commands, outs);
    let i = lemma_pending_was_queued(stores, entries, n, frame_seq);
    assert(queued_at(commands, i, frame_seq, stores[n][frame_seq]));
}

/// Whether every frame is queued under a number above those before it.
pub open spec fn numbers_ascend<T>(commands: Seq<WorkerCommand<T>>) -> bool {
    forall|i: int, j: int|
        0 <= i < j < commands.len() && #[trigger] commands[i] is QueueFrame && #[trigger] commands[j]
            is QueueFrame ==> commands[i]->QueueFrame_frame_seq
            < commands[j]->QueueFrame_frame_seq
}

/// Frames that are numbered in ascending order are queued without a notice: none is taken for
/// another.
pub proof fn law_ascending_numbers_are_never_duplicates<T>(
    stores: Seq<Map<u64, PendingFrame<T>>>,
    commands: Seq<WorkerCommand<T>>,
    outs: Seq<WorkerOutputView<T>>,
    n: int,
)
    requires
        worker_run(stores, commands, outs),
        numbers_ascend(commands),
        0 <= n < outs.len(),
        commands[n] is QueueFrame,
    ensures
        outs[n].notices.len() == 0,
{
    assert(handled(stores[n], commands[n], stores[n + 1], outs[n]));
    let frame_seq = commands[n]->QueueFrame_frame_seq;
    if stores[n].contains_key(frame_seq) {
        let entries = run_entries(stores, commands, outs.len());
        lemma_run_is_ledger(stores, commands, outs);
        let i = lemma_pending_was_queued(stores, entries, n, frame_seq);
        assert(commands[i] is QueueFrame);
    }
}

/// A barrier and a stop leave nothing pending and tell of every pending frame, each as an error, and
/// for a stop as aborted; the answer to a barrier is success exactly if nothing was pending.
pub proof fn law_flush_and_stop_settle_every_frame<T>(
    before: Map<u64, PendingFrame<T>>,
    command: WorkerCommand<T>,
    after: Map<u64, PendingFrame<T>>,
    out: WorkerOutputView<T>,
)
    requires
        before.dom().finite(),
        command is WaitIdle || command is Stop,
        handled(before, command, after, out),
    ensures
        after == Map::<u64, PendingFrame<T>>::empty(),
        out.notices.len() == before.len(),
        forall|i: int| 0 <= i < out.notices.len() ==> (#[trigger] out.notices[i]) is Err,
        command is Stop ==> forall|i: int|
            0 <= i < out.notices.len() ==> (
            #[trigger] out.notices[i])->Err_0.status_code == Some(sys::MFX_ERR_ABORTED),
        command is WaitIdle ==> (out.reply == Some(Ok::<(), ErrorView>(())) <==> before == Map::<
            u64,
            PendingFrame<T>,
        >::empty()),
{
    law_worker_step_accounts_for_every_frame(before, command, after, out);
    if before.len() == 0 {
        assert(before =~= Map::<u64, PendingFrame<T>>::empty());
    }
}

/// Whether the `k`-th command is an output that gave the handler a frame for this sequence number.
pub open spec fn gave_frame_at<T>(
    commands: Seq<WorkerCommand<T>>,
    outs: Seq<WorkerOutputView<T>>,
    k: int,
    frame_seq: u64,
) -> bool {
    &&& commands[k] is Sync
    &&& commands[k]->Sync_0.time_stamp == frame_seq
    &&& outs[k].notices.len() == 1
    &&& outs[k].notices[0] is Ok
}

/// Whether the `k`-th command is an output that gave the handler this frame.
pub open spec fn delivered_at<T>(
    commands: Seq<WorkerCommand<T>>,
    outs: Seq<WorkerOutputView<T>>,
    k: int,
    frame_seq: u64,
    frame: PendingFrame<T>,
) -> bool {
    &&& gave_frame_at(commands, outs, k, frame_seq)
    &&& outs[k].notices[0]->Ok_0.user_data == frame.user_data
    &&& outs[k].notices[0]->Ok_0.timestamp == frame.presentation_timestamp
}

/// Whether no barrier after the `i`-th command and before the `n`-th found frames that were not
/// flushed.
pub open spec fn flushes_succeed<T>(
    commands: Seq<WorkerCommand<T>>,
    outs: Seq<WorkerOutputView<T>>,
    i: int,
    n: int,
) -> bool {
    forall|j: int|
        i < j < n && #[trigger] commands[j] is WaitIdle ==> outs[j].reply == Some(
            Ok::<(), ErrorView>(()),
        )
}

/// The handler gets an encoded frame for a sequence number at most once.
pub proof fn law_frame_is_delivered_at_most_once<T>(
    stores: Seq<Map<u64, PendingFrame<T>>>,
    commands: Seq<WorkerCommand<T>>,
    outs: Seq<WorkerOutputView<T>>,
    frame_seq: u64,
    k: int,
    l: int,
)
    requires
        worker_run(stores, commands, outs),
        numbers_ascend(commands),
        0 <= k < outs.len(),
        0 <= l < outs.len(),
        gave_frame_at(commands, outs, k, frame_seq),
        gave_frame_at(commands, outs, l, frame_seq),
    ensures
        k == l,
{
    assert(handled(stores[k], commands[k], stores[k + 1], outs[k]));
    assert(handled(stores[l], commands[l], stores[l + 1], outs[l]));
    lemma_run_is_ledger(stores, commands, outs);
    lemma_settled_once(stores, run_entries(stores, commands, outs.len()), frame_seq, k, l);
}

/// A barrier that succeeds finds nothing pending.
proof fn lemma_nothing_pending<T>(
    stores: Seq<Map<u64, PendingFrame<T>>>,
    commands: Seq<WorkerCommand<T>>,
    outs: Seq<WorkerOutputView<T>>,
    n: int,
    frame_seq: u64,
)
    requires
        worker_run(stores, commands, outs),
        0 <= n < outs.len(),
        commands[n] is WaitIdle,
        outs[n].reply == Some(Ok::<(), ErrorView>(())),
    ensures
        !stores[n].contains_key(frame_seq),
{
    assert(handled(stores[n], commands[n], stores[n + 1], outs[n]));
    law_worker_accounts_for_every_frame(stores, commands, outs, n as nat);
    if stores[n].contains_key(frame_seq) {
        assert(stores[n].dom().contains(frame_seq));
    }
}

/// If flushing succeeds, every frame that was queued before has come out exactly once: one output
/// between the two gave the handler an encoded frame with its user data and its timestamp, and no
/// other output ever gives one for its sequence number.
pub proof fn law_successful_flush_delivered_every_frame_once<T>(
    stores: Seq<Map<u64, PendingFrame<T>>>,
    commands: Seq<WorkerCommand<T>>,
    outs: Seq<WorkerOutputView<T>>,
    i: int,
    n: int,
    frame_seq: u64,
    frame: PendingFrame<T>,
)
    requires
        worker_run(stores, commands, outs),
        numbers_ascend(commands),
        0 <= i < n < outs.len(),
        queued_at(commands, i, frame_seq, frame),
        commands[n] is WaitIdle,
        outs[n].reply == Some(Ok::<(), ErrorView>(())),
        flushes_succeed(commands, outs, i, n),
    ensures
        exists|k: int|
            i < k < n && #[trigger] delivered_at(commands, outs, k, frame_seq, frame),
        forall|k: int, l: int|
            0 <= k < outs.len() && 0 <= l < outs.len() && #[trigger] delivered_at(
                commands,
                outs,
                k,
                frame_seq,
                frame,
            ) && #[trigger] gave_frame_at(commands, outs, l, frame_seq) ==> k == l,
{
    let entries = run_entries(stores, commands, outs.len());
    lemma_run_is_ledger(stores, commands, outs);
    assert forall|j: int|
        i < j < n && #[trigger] entries[j] is Clear implies !stores[j].contains_key(frame_seq) by {
        assert(commands[j] is WaitIdle);
        lemma_nothing_pending(stores, commands, outs, j, frame_seq);
    }
    lemma_pending_until_settled(stores, entries, i, n, frame_seq, frame);
    lemma_nothing_pending(stores, commands, outs, n, frame_seq);
    let k = choose|k: int|
        i < k < n && #[trigger] entries[k] == Entry::<PendingFrame<T>>::Settle(frame_seq)
            && stores[k].contains_key(frame_seq) && stores[k][frame_seq] == frame;
    assert(handled(stores[k], commands[k], stores[k + 1], outs[k]));
    assert(delivered_at(commands, outs, k, frame_seq, frame));
    assert forall|k: int, l: int|
        0 <= k < outs.len() && 0 <= l < outs.len() && #[trigger] delivered_at(
            commands,
            outs,
            k,
            frame_seq,
            frame,
        ) && #[trigger] gave_frame_at(commands, outs, l, frame_seq) implies k == l by {
        law_frame_is_delivered_at_most_once(stores, commands, outs, frame_seq, k, l);
    }
}

/// The frames that the commands queue, each with its sequence number, in this order.
pub open spec fn queued_frames<T>(commands: Seq<WorkerCommand<T>>) -> Seq<(u64, PendingFrame<T>)> {
    present(commands.map_values(|command: WorkerCommand<T>| command.queued()))
}

/// A command that queues a frame has its place among all that do.
pub proof fn lemma_queued_place<T>(commands: Seq<WorkerCommand<T>>, i: int) -> (place: int)
    requires
        0 <= i < commands.len(),
        commands[i].queued() is Some,
    ensures
        0 <= place < queued_frames(commands).len(),
        Some(queued_frames(commands)[place]) == commands[i].queued(),
{
    let items = commands.map_values(|command: WorkerCommand<T>| command.queued());
    lemma_present_at(items, i);
    present_before(items, i)
}

/// Frames that are queued under ascending numbers make commands whose numbers ascend.
pub proof fn law_ascending_frames_make_ascending_commands<T>(commands: Seq<WorkerCommand<T>>)
    requires
        forall|k: int, l: int|
            0 <= k < l < queued_frames(commands).len() ==> (#[trigger] queued_frames(commands)[k]).0
                < (#[trigger] queued_frames(commands)[l]).0,
    ensures
        numbers_ascend(commands),
{
    let items = commands.map_values(|command: WorkerCommand<T>| command.queued());
    assert forall|i: int, j: int|
        0 <= i < j < commands.len() && #[trigger] commands[i] is QueueFrame
            && #[trigger] commands[j] is QueueFrame implies commands[i]->QueueFrame_frame_seq
        < commands[j]->QueueFrame_frame_seq by {
        lemma_present_at(items, i);
        lemma_present_at(items, j);
        lemma_present_order(items, i, j);
        let queued = queued_frames(commands);
        assert(queued[present_before(items, i)].0 < queued[present_before(items, j)].0);
    }
}

/// An output can be read exactly if there was something to wait for, waiting succeeded, and its bytes
/// are inside the buffer; an output without bytes always can. What is read are the bytes from the
/// offset on, so many as the length says, under the number that the output bears.
pub proof fn law_output_is_read_if_inside_the_buffer(sync: SyncData)
    ensures
        ({
            let end = sync.data_offset + sync.data_length;
            let waited = sync.sync_point != 0 && sync.status == 0;
            let inside = sync.data_length == 0 || (end <= usize::MAX && end <= sync.buffer@.len());
            &&& collected(sync) is Ok <==> waited && inside
            &&& collected(sync) matches Ok(read) ==> {
                &&& read.data.len() == sync.data_length
                &&& forall|i: int|
                    0 <= i < read.data.len() ==> read.data[i] == sync.buffer@[sync.data_offset + i]
                &&& read.frame_seq == sync.time_stamp
                &&& read.picture_type == picture_type_of(sync.frame_type)
            }
        }),
{
}

/// An output that cannot be read is complained about: there was nothing to wait for, waiting failed, or
/// its bytes are not inside the buffer.
pub proof fn law_unreadable_output_is_complained_about(sync: SyncData)
    ensures
        ({
            let end = sync.data_offset + sync.data_length;
            let error = collected(sync)->Err_0;
            let says = |message: Seq<char>|
                error == ErrorView::custom("Encoder::sync_worker"@, message);
            &&& sync.sync_point == 0 ==> says("sync point is null"@)
            &&& sync.sync_point != 0 && sync.status != 0 ==> error == ErrorView::mfx(
                sync.status,
                "MFXVideoCORE_SyncOperation"@,
            )
            &&& sync.sync_point != 0 && sync.status == 0 && sync.data_length != 0 && end
                > usize::MAX ==> says(
                "bitstream offset ("@ + decimal(sync.data_offset as nat) + ") + length ("@ + decimal(
                    sync.data_length as nat,
                ) + ") overflows usize"@,
            )
            &&& sync.sync_point != 0 && sync.status == 0 && sync.data_length != 0 && end
                <= usize::MAX && end > sync.buffer@.len() ==> says(
                "bitstream range "@ + decimal(sync.data_offset as nat) + ".."@ + decimal(end as nat)
                    + " exceeds buffer size "@ + decimal(sync.buffer@.len()),
            )
        }),
{
}

/// An output that can be read and whose number is pending gives that frame: the bytes and the picture
/// type of the output, the timestamp and the user data of the frame. Only that number is pending no
/// more. Any other output is complained about and changes nothing.
pub proof fn law_output_gives_the_frame_of_its_number<T>(
    pending: Map<u64, PendingFrame<T>>,
    sync: SyncData,
)
    ensures
        ({
            let (after, notice) = built(pending, sync);
            let number = sync.time_stamp;
            let readable = collected(sync) is Ok;
            &&& notice is Ok <==> readable && pending.contains_key(number)
            &&& notice matches Ok(frame) ==> {
                &&& frame.data == collected(sync)->Ok_0.data
                &&& frame.picture_type == picture_type_of(sync.frame_type)
                &&& frame.timestamp == pending[number].presentation_timestamp
                &&& frame.user_data == pending[number].user_data
                &&& !after.contains_key(number)
                &&& forall|other: u64|
                    other != number ==> (#[trigger] after.contains_key(other)
                        == pending.contains_key(other))
                &&& forall|other: u64|
                    other != number && pending.contains_key(other) ==> #[trigger] after[other]
                        == pending[other]
            }
            &&& notice is Err ==> after == pending
            &&& !readable ==> notice->Err_0 == collected(sync)->Err_0
            &&& readable && !pending.contains_key(number) ==> notice->Err_0 == ErrorView::custom(
                "Encoder::sync_worker"@,
                "no pending frame for bitstream timestamp "@ + decimal(number as nat)
                    + " (pending count: "@ + decimal(pending.len()) + ")"@,
            )
        }),
{
}

/// A frame that is queued becomes pending and changes nothing else; a notice comes exactly if its
/// number was pending already. An output gives one notice.
pub proof fn law_queueing_and_outputs<T>(
    before: Map<u64, PendingFrame<T>>,
    command: WorkerCommand<T>,
    after: Map<u64, PendingFrame<T>>,
    out: WorkerOutputView<T>,
)
    requires
        handled(before, command, after, out),
    ensures
        command matches WorkerCommand::QueueFrame { frame_seq, pending_frame } ==> {
            &&& after.contains_key(frame_seq) && after[frame_seq] == pending_frame
            &&& forall|other: u64|
                other != frame_seq ==> (#[trigger] after.contains_key(other) == before.contains_key(
                    other,
                ))
            &&& forall|other: u64|
                other != frame_seq && before.contains_key(other) ==> #[trigger] after[other]
                    == before[other]
            &&& !before.contains_key(frame_seq) <==> out.notices.len() == 0
            &&& before.contains_key(frame_seq) ==> {
                &&& out.notices.len() == 1
                &&& out.notices[0] == Err::<EncodedFrameView<T>, ErrorView>(
                    ErrorView::custom(
                        "Encoder::sync_worker"@,
                        "duplicate frame sequence in pending frames: "@ + decimal(frame_seq as nat),
                    ),
                )
            }
            &&& out.reply is None && !out.stop
        },
        command matches WorkerCommand::Sync(sync) ==> {
            &&& after == built(before, sync).0
            &&& out.notices.len() == 1
            &&& out.notices[0] == built(before, sync).1
            &&& out.reply is None && !out.stop
        },
{
}

/// A barrier reports each pending frame by its number, as an error, leaves none pending, and succeeds
/// exactly if there was none; the worker goes on. A stop reports each as aborted, leaves none pending,
/// and ends the worker.
pub proof fn law_barrier_and_stop<T>(
    before: Map<u64, PendingFrame<T>>,
    command: WorkerCommand<T>,
    after: Map<u64, PendingFrame<T>>,
    out: WorkerOutputView<T>,
    frame_seq: u64,
)
    requires
        before.dom().finite(),
        handled(before, command, after, out),
    ensures
        command is WaitIdle ==> {
            &&& !after.contains_key(frame_seq)
            &&& !out.stop
            &&& out.notices.len() == before.len()
            &&& before.contains_key(frame_seq) ==> out.notices.contains(
                Err(
                    ErrorView::custom(
                        "Encoder::finish"@,
                        "pending frames remained after flush for frame sequence "@ + decimal(
                            frame_seq as nat,
                        ) + " (pending count: "@ + decimal(before.len()) + ")"@,
                    ),
                ),
            )
            &&& before.len() == 0 ==> out.reply == Some(Ok::<(), ErrorView>(()))
            &&& before.len() > 0 ==> out.reply == Some(
                Err::<(), ErrorView>(
                    ErrorView::custom(
                        "Encoder::finish"@,
                        "finish completed but "@ + decimal(before.len())
                            + " pending frames remained"@,
                    ),
                ),
            )
        },
        command is Stop ==> {
            &&& !after.contains_key(frame_seq)
            &&& out.stop
            &&& out.reply is None
            &&& out.notices.len() == before.len()
            &&& forall|i: int|
                0 <= i < out.notices.len() ==> #[trigger] out.notices[i] == Err::<
                    EncodedFrameView<T>,
                    ErrorView,
                >(ErrorView::mfx(sys::MFX_ERR_ABORTED, "Encoder::drop"@))
        },
{
    law_worker_step_accounts_for_every_frame(before, command, after, out);
    if command is WaitIdle && before.contains_key(frame_seq) {
        let order = choose|order: Seq<u64>| reports_unflushed(out.notices, before, order);
        assert(order.to_set().contains(frame_seq));
        let i = choose|i: int| 0 <= i < order.len() && order[i] == frame_seq;
        assert(out.notices[i] == Err::<EncodedFrameView<T>, ErrorView>(
            finish_pending(frame_seq, before.len()),
        ));
    }
}

/// A worker answers every command up to the first that stops it, and that one too.
pub proof fn law_worker_answers_every_command<T>(
    stores: Seq<Map<u64, PendingFrame<T>>>,
    commands: Seq<WorkerCommand<T>>,
    outs: Seq<WorkerOutputView<T>>,
    k: int,
)
    requires
        worker_run(stores, commands, outs),
        0 <= k <= commands.len(),
        forall|i: int| 0 <= i < k ==> !(#[trigger] commands[i] is Stop),
    ensures
        outs.len() >= k,
        k == commands.len() ==> outs.len() == k,
        k < commands.len() && commands[k] is Stop ==> outs.len() == k + 1,
        stores[0].len() == 0,
        forall|i: int|
            0 <= i < outs.len() ==> handled(
                stores[i],
                commands[i],
                stores[i + 1],
                #[trigger] outs[i],
            ),
{
    if outs.len() < k {
        assert(commands[outs.len() - 1] is Stop);
    }
    if k < commands.len() && commands[k] is Stop && outs.len() > k + 1 {
        assert(!(commands[k] is Stop));
    }
    if k < commands.len() && commands[k] is Stop && outs.len() == k {
        assert(outs.len() < commands.len());
        assert(commands[k - 1] is Stop);
    }
}

/// Notices are seen as they are: a frame by its content, an error by what it says.
pub proof fn law_notices_are_seen_as_they_are<T>(out: WorkerOutput<T>, i: int)
    requires
        0 <= i < out.notices@.len(),
    ensures
        out@.notices.len() == out.notices@.len(),
        out.notices@[i] matches Ok(frame) ==> out@.notices[i] == Ok::<
            EncodedFrameView<T>,
            ErrorView,
        >(frame@),
        out.notices@[i] matches Err(error) ==> out@.notices[i] == Err::<
            EncodedFrameView<T>,
            ErrorView,
        >(error@),
        out@.stop == out.stop,
        out@.reply is Some <==> out.reply is Some,
        out.reply matches Some(reply) ==> (out@.reply->0 is Ok <==> reply is Ok),
{
}

} // verus!
