//! The channel that carries owners into the store while a snapshot is
//! restored.
//!
//! The sink takes owners of both kinds and puts each on the lane of its
//! kind. It is ready only when both lanes are, so a lane that is full holds
//! the producer back and nothing is dropped or buffered without bound. The
//! stream hands out what is ready on either lane, in batches of one kind
//! and of at most the chunk size, and never waits to fill a batch.

use vstd::prelude::*;
use crate::schema::OwnerId;
use crate::snapshot::owner::{AccountGroupRow, AccountRow, AccountRowBatch, OwnerRow};
use crate::snapshot::{Lane, SinkOperation, SnapshotRestoreError};
use futures::channel::mpsc::{Receiver, SendError, Sender};
use futures::stream::{select_all, BoxStream, SelectAll};
use futures::{SinkExt, StreamExt};
use std::task::{Context, Poll};

verus! {

/// `futures::channel::mpsc::Sender`, the sending end of a lane. Nothing is
/// known of what is inside. Its methods take the channel's lock and so
/// panic where a waker has panicked under that lock before; they have no
/// panic of their own on the calls made here.
#[verifier::external_type_specification]
#[verifier::external_body]
#[verifier::reject_recursive_types(T)]
pub struct ExSender<T>(Sender<T>);

/// `futures::channel::mpsc::Receiver`, the receiving end of a lane. Nothing
/// is known of what is inside.
#[verifier::external_type_specification]
#[verifier::external_body]
#[verifier::reject_recursive_types(T)]
pub struct ExReceiver<T>(Receiver<T>);

/// `futures::channel::mpsc::SendError`, why a lane did not take a row.
/// Nothing is known of what is inside.
#[verifier::external_type_specification]
#[verifier::external_body]
pub struct ExSendError(SendError);

/// `std::task::Context`, which carries the waker of the polling task. It is
/// handed through to the lanes.
#[verifier::external_type_specification]
#[verifier::external_body]
pub struct ExContext<'a>(Context<'a>);

/// `futures::channel::mpsc::channel`: a bounded channel with room for
/// `buffer` messages and one more for each sender. It panics on a buffer
/// of `usize::MAX >> 2` or more. Nothing is claimed of the two ends.
pub assume_specification<T>[ futures::channel::mpsc::channel::<T> ](buffer: usize) -> (ends: (
    Sender<T>,
    Receiver<T>,
))
    requires
        buffer < usize::MAX / 4,
;

/// `Clone` for `futures::channel::mpsc::Sender`: another sender on the same
/// channel. Nothing is claimed of it. (It panics when the channel has as
/// many senders as it can count, more than `usize::MAX >> 2` of them.)
pub assume_specification<T>[ <Sender<T> as Clone>::clone ](lane: &Sender<T>) -> Sender<T>;

/// What one lane answered when it was polled.
#[derive(Clone, Copy, Debug, PartialEq, Eq, Structural)]
pub enum LanePoll {
    Pending,
    Ready,
    Failed,
}

/// What the sink answers when it is polled.
#[derive(Clone, Copy, Debug, PartialEq, Eq, Structural)]
pub enum SinkPoll {
    Pending,
    Ready,
    Failed(SnapshotRestoreError),
}

/// What the stream answers when it is polled.
#[derive(Debug)]
pub enum BatchPoll {
    /// Nothing is ready on either lane.
    Pending,
    /// The rows that were ready on one lane.
    Batch(AccountRowBatch),
    /// Both lanes are closed and empty.
    Finished,
}

/// Whether the sender of the account lane has been closed. A sender keeps
/// this in itself, apart from the channel that it shares with its clones
/// and with the receiver, and nothing but a close of that sender sets it.
pub uninterp spec fn account_lane_closed(lane: Sender<AccountRow>) -> bool;

/// Whether the sender of the group lane has been closed: see
/// [`account_lane_closed`].
pub uninterp spec fn group_lane_closed(lane: Sender<AccountGroupRow>) -> bool;

/// `Sink::poll_ready` of the account lane's sender. A closed sender fails;
/// what an open one answers depends on what the other end has taken. The
/// sender stays open or closed as it was.
#[verifier::external_body]
fn account_lane_poll_ready(lane: &mut Sender<AccountRow>, cx: &mut Context<'_>) -> (polled: LanePoll)
    ensures
        account_lane_closed(*final(lane)) == account_lane_closed(*old(lane)),
        account_lane_closed(*old(lane)) ==> polled == LanePoll::Failed,
{
    match lane.poll_ready_unpin(cx) {
        Poll::Pending => LanePoll::Pending,
        Poll::Ready(Ok(())) => LanePoll::Ready,
        Poll::Ready(Err(_)) => LanePoll::Failed,
    }
}

/// `Sink::poll_ready` of the group lane's sender: see
/// [`account_lane_poll_ready`].
#[verifier::external_body]
fn group_lane_poll_ready(lane: &mut Sender<AccountGroupRow>, cx: &mut Context<'_>) -> (polled: LanePoll)
    ensures
        group_lane_closed(*final(lane)) == group_lane_closed(*old(lane)),
        group_lane_closed(*old(lane)) ==> polled == LanePoll::Failed,
{
    match lane.poll_ready_unpin(cx) {
        Poll::Pending => LanePoll::Pending,
        Poll::Ready(Ok(())) => LanePoll::Ready,
        Poll::Ready(Err(_)) => LanePoll::Failed,
    }
}

/// `Sink::start_send` of the account lane's sender. A closed sender takes
/// nothing; whether an open one takes the row depends on the channel. The
/// sender stays open or closed as it was.
#[verifier::external_body]
fn account_lane_start_send(lane: &mut Sender<AccountRow>, row: AccountRow) -> (sent: Result<(), SendError>)
    ensures
        account_lane_closed(*final(lane)) == account_lane_closed(*old(lane)),
        account_lane_closed(*old(lane)) ==> sent is Err,
{
    lane.start_send_unpin(row)
}

/// `Sink::start_send` of the group lane's sender: see
/// [`account_lane_start_send`].
#[verifier::external_body]
fn group_lane_start_send(lane: &mut Sender<AccountGroupRow>, row: AccountGroupRow) -> (sent: Result<
    (),
    SendError,
>)
    ensures
        group_lane_closed(*final(lane)) == group_lane_closed(*old(lane)),
        group_lane_closed(*old(lane)) ==> sent is Err,
{
    lane.start_send_unpin(row)
}

/// `Sink::poll_flush` of the account lane's sender. A sender has nothing
/// to flush: it answers as a poll for readiness does, but takes a
/// disconnected channel as flushed, and that is the only failure there is.
/// So it never fails, and a closed sender is flushed at once. The sender
/// stays open or closed as it was.
#[verifier::external_body]
fn account_lane_poll_flush(lane: &mut Sender<AccountRow>, cx: &mut Context<'_>) -> (polled: LanePoll)
    ensures
        account_lane_closed(*final(lane)) == account_lane_closed(*old(lane)),
        polled != LanePoll::Failed,
        account_lane_closed(*old(lane)) ==> polled == LanePoll::Ready,
{
    match lane.poll_flush_unpin(cx) {
        Poll::Pending => LanePoll::Pending,
        Poll::Ready(Ok(())) => LanePoll::Ready,
        Poll::Ready(Err(_)) => LanePoll::Failed,
    }
}

/// `Sink::poll_flush` of the group lane's sender: see
/// [`account_lane_poll_flush`].
#[verifier::external_body]
fn group_lane_poll_flush(lane: &mut Sender<AccountGroupRow>, cx: &mut Context<'_>) -> (polled: LanePoll)
    ensures
        group_lane_closed(*final(lane)) == group_lane_closed(*old(lane)),
        polled != LanePoll::Failed,
        group_lane_closed(*old(lane)) ==> polled == LanePoll::Ready,
{
    match lane.poll_flush_unpin(cx) {
        Poll::Pending => LanePoll::Pending,
        Poll::Ready(Ok(())) => LanePoll::Ready,
        Poll::Ready(Err(_)) => LanePoll::Failed,
    }
}

/// `Sink::poll_close` of the account lane's sender. It disconnects the
/// sender, which is closed from then on, and is done at once.
#[verifier::external_body]
fn account_lane_poll_close(lane: &mut Sender<AccountRow>, cx: &mut Context<'_>) -> (polled: LanePoll)
    ensures
        account_lane_closed(*final(lane)),
        polled == LanePoll::Ready,
{
    match lane.poll_close_unpin(cx) {
        Poll::Pending => LanePoll::Pending,
        Poll::Ready(Ok(())) => LanePoll::Ready,
        Poll::Ready(Err(_)) => LanePoll::Failed,
    }
}

/// `Sink::poll_close` of the group lane's sender: see
/// [`account_lane_poll_close`].
#[verifier::external_body]
fn group_lane_poll_close(lane: &mut Sender<AccountGroupRow>, cx: &mut Context<'_>) -> (polled: LanePoll)
    ensures
        group_lane_closed(*final(lane)),
        polled == LanePoll::Ready,
{
    match lane.poll_close_unpin(cx) {
        Poll::Pending => LanePoll::Pending,
        Poll::Ready(Ok(())) => LanePoll::Ready,
        Poll::Ready(Err(_)) => LanePoll::Failed,
    }
}

/// The receiving ends of both lanes, chunked and merged into one stream: a
/// `futures::stream::SelectAll` of boxed streams. Nothing is known of what
/// is inside but the chunk size it was made with.
#[verifier::external_body]
pub struct Batches {
    stream: SelectAll<BoxStream<'static, AccountRowBatch>>,
}

/// The chunk size that a stream of batches was made with.
pub uninterp spec fn batch_limit(batches: Batches) -> nat;

/// `StreamExt::ready_chunks` on each receiver, each chunk tagged with its
/// kind, and `select_all` over the two. `ready_chunks` panics on a
/// capacity of 0, and the stream it makes reserves a whole chunk when the
/// first row of a batch arrives: rows of 16 bytes each, which must not
/// come to more than `isize::MAX` bytes.
#[verifier::external_body]
fn merge_lanes(accounts: Receiver<AccountRow>, groups: Receiver<AccountGroupRow>, chunk_size: usize) -> (batches:
    Batches)
    requires
        0 < chunk_size <= isize::MAX / 16,
    ensures
        batch_limit(batches) == chunk_size,
{
    Batches {
        stream: select_all(
            [
                accounts.ready_chunks(chunk_size).map(AccountRowBatch::Accounts).boxed(),
                groups.ready_chunks(chunk_size).map(AccountRowBatch::AccountGroups).boxed(),
            ],
        ),
    }
}

/// `Stream::poll_next` of the merged stream. A chunk is handed out as soon
/// as the lane has nothing more ready or the chunk is full, so a batch
/// holds at least one row and at most as many as the chunk size.
#[verifier::external_body]
fn poll_batches(batches: &mut Batches, cx: &mut Context<'_>) -> (polled: BatchPoll)
    ensures
        batch_limit(*final(batches)) == batch_limit(*old(batches)),
        polled matches BatchPoll::Batch(batch) ==> 0 < batch.size() <= batch_limit(*old(batches)),
{
    match batches.stream.poll_next_unpin(cx) {
        Poll::Pending => BatchPoll::Pending,
        Poll::Ready(Some(batch)) => BatchPoll::Batch(batch),
        Poll::Ready(None) => BatchPoll::Finished,
    }
}

/// What the sink answers to `operation` when the account lane answered
/// `account` and the group lane answered `group`. The account lane is asked
/// first; the group lane counts only if the account lane was ready.
pub open spec fn sink_poll(operation: SinkOperation, account: LanePoll, group: LanePoll) -> SinkPoll {
    match account {
        LanePoll::Pending => SinkPoll::Pending,
        LanePoll::Failed => SinkPoll::Failed(
            SnapshotRestoreError::Read { lane: Lane::Account, operation },
        ),
        LanePoll::Ready => match group {
            LanePoll::Pending => SinkPoll::Pending,
            LanePoll::Failed => SinkPoll::Failed(
                SnapshotRestoreError::Read { lane: Lane::AccountGroup, operation },
            ),
            LanePoll::Ready => SinkPoll::Ready,
        },
    }
}

/// What the answer of one lane settles: the sink's answer, or `None` if
/// the lane was ready and the sink's answer is up to the next lane.
pub open spec fn settled_by(lane: Lane, operation: SinkOperation, polled: LanePoll) -> Option<SinkPoll> {
    match polled {
        LanePoll::Pending => Some(SinkPoll::Pending),
        LanePoll::Failed => Some(SinkPoll::Failed(SnapshotRestoreError::Read { lane, operation })),
        LanePoll::Ready => None,
    }
}

/// What the answer of one lane settles: see [`settled_by`].
pub fn settle(lane: Lane, operation: SinkOperation, polled: LanePoll) -> (settled: Option<SinkPoll>)
    ensures
        settled == settled_by(lane, operation, polled),
{
    match polled {
        LanePoll::Pending => Some(SinkPoll::Pending),
        LanePoll::Failed => Some(SinkPoll::Failed(SnapshotRestoreError::Read { lane, operation })),
        LanePoll::Ready => None,
    }
}

/// What the sink answers once both lanes have been asked: see
/// [`sink_poll`].
pub fn settle_both(operation: SinkOperation, account: LanePoll, group: LanePoll) -> (polled: SinkPoll)
    ensures
        polled == sink_poll(operation, account, group),
{
    match settle(Lane::Account, operation, account) {
        Some(settled) => settled,
        None => match settle(Lane::AccountGroup, operation, group) {
            Some(settled) => settled,
            None => SinkPoll::Ready,
        },
    }
}

/// What the sink answers to a send on `lane` that the lane answered with
/// `sent`: a failure of the lane is a failure of the channel and names the
/// lane.
pub open spec fn send_outcome(lane: Lane, sent: Result<(), SendError>) -> Result<(), SnapshotRestoreError> {
    match sent {
        Ok(()) => Ok(()),
        Err(_) => Err(SnapshotRestoreError::Read { lane, operation: SinkOperation::Send }),
    }
}

/// What the sink answers to a send: see [`send_outcome`].
pub fn settle_send(lane: Lane, sent: Result<(), SendError>) -> (outcome: Result<(), SnapshotRestoreError>)
    ensures
        outcome == send_outcome(lane, sent),
{
    match sent {
        Ok(()) => Ok(()),
        Err(_) => Err(SnapshotRestoreError::Read { lane, operation: SinkOperation::Send }),
    }
}

/// Backpressure. The sink is ready exactly when both lanes are: a lane
/// that is not ready holds the sink back whatever the other lane answers,
/// and once that lane is ready again the sink is as ready as the other.
pub proof fn sink_is_ready_when_both_lanes_are(operation: SinkOperation, account: LanePoll, group: LanePoll)
    ensures
        sink_poll(operation, account, group) == SinkPoll::Ready <==> account == LanePoll::Ready
            && group == LanePoll::Ready,
        account == LanePoll::Pending ==> sink_poll(operation, account, group) == SinkPoll::Pending,
        account == LanePoll::Ready && group == LanePoll::Pending ==> sink_poll(operation, account, group)
            == SinkPoll::Pending,
{
}

/// One failure for the whole channel. The sink fails exactly when a lane
/// that was asked has failed, and the failure names that lane and the
/// operation.
pub proof fn sink_fails_with_the_lane(operation: SinkOperation, account: LanePoll, group: LanePoll)
    ensures
        sink_poll(operation, account, group) is Failed <==> account == LanePoll::Failed || (account
            == LanePoll::Ready && group == LanePoll::Failed),
        sink_poll(operation, account, group) matches SinkPoll::Failed(error) ==> error == (
        SnapshotRestoreError::Read {
            lane: if account == LanePoll::Failed {
                Lane::Account
            } else {
                Lane::AccountGroup
            },
            operation,
        }),
{
}

/// The sink of the owner channel. Clones share the two lanes.
#[derive(Debug, Clone)]
pub struct OwnerSender {
    account_id: Sender<AccountRow>,
    account_group_id: Sender<AccountGroupRow>,
}

impl OwnerSender {
    /// Whether this sink has closed `lane`. A sink closes its lanes for
    /// itself: its clones stay as they are.
    pub closed spec fn lane_closed(self, lane: Lane) -> bool {
        match lane {
            Lane::Account => account_lane_closed(self.account_id),
            Lane::AccountGroup => group_lane_closed(self.account_group_id),
        }
    }

    /// Whether this sink has closed both lanes.
    pub open spec fn closed(self) -> bool {
        self.lane_closed(Lane::Account) && self.lane_closed(Lane::AccountGroup)
    }

    /// Whether this sink has the lanes closed that `other` has closed, and
    /// no others.
    pub open spec fn closed_as(self, other: OwnerSender) -> bool {
        forall|lane: Lane| #[trigger] self.lane_closed(lane) == other.lane_closed(lane)
    }

    /// Asks both lanes whether they can take a row. A sink that has closed
    /// a lane is never ready again, and fails if the lane is the first to
    /// be asked.
    pub fn poll_ready(&mut self, cx: &mut Context<'_>) -> (polled: SinkPoll)
        ensures
            final(self).closed_as(*old(self)),
            exists|account: LanePoll, group: LanePoll|
                polled == #[trigger] sink_poll(SinkOperation::Poll, account, group),
            old(self).lane_closed(Lane::Account) ==> polled == SinkPoll::Failed(
                SnapshotRestoreError::Read { lane: Lane::Account, operation: SinkOperation::Poll },
            ),
            old(self).lane_closed(Lane::AccountGroup) ==> polled != SinkPoll::Ready,
    {
        let account = account_lane_poll_ready(&mut self.account_id, cx);
        match settle(Lane::Account, SinkOperation::Poll, account) {
            Some(settled) => {
                assert(settled == sink_poll(SinkOperation::Poll, account, LanePoll::Ready));
                settled
            },
            None => {
                let group = group_lane_poll_ready(&mut self.account_group_id, cx);
                settle_both(SinkOperation::Poll, account, group)
            },
        }
    }

    /// Puts the row of `item` on the lane of its kind. A sink that has
    /// closed that lane takes nothing.
    pub fn start_send(&mut self, item: OwnerId) -> (sent: Result<(), SnapshotRestoreError>)
        ensures
            final(self).closed_as(*old(self)),
            exists|answer: Result<(), SendError>|
                sent == #[trigger] send_outcome(OwnerRow::of(item).lane(), answer),
            old(self).lane_closed(OwnerRow::of(item).lane()) ==> sent is Err,
    {
        match OwnerRow::of(item) {
            OwnerRow::Account(row) => {
                let answer = account_lane_start_send(&mut self.account_id, row);
                settle_send(Lane::Account, answer)
            },
            OwnerRow::AccountGroup(row) => {
                let answer = group_lane_start_send(&mut self.account_group_id, row);
                settle_send(Lane::AccountGroup, answer)
            },
        }
    }

    /// Flushes both lanes, the account lane first. A lane has nothing to
    /// fail a flush with, so the sink is flushed or has to be asked again;
    /// a sink that has closed both lanes is flushed at once. A flush closes
    /// and opens no lane.
    pub fn poll_flush(&mut self, cx: &mut Context<'_>) -> (polled: SinkPoll)
        ensures
            final(self).closed_as(*old(self)),
            polled == SinkPoll::Ready || polled == SinkPoll::Pending,
            old(self).closed() ==> polled == SinkPoll::Ready,
    {
        let account = account_lane_poll_flush(&mut self.account_id, cx);
        match settle(Lane::Account, SinkOperation::Flush, account) {
            Some(settled) => settled,
            None => {
                let group = group_lane_poll_flush(&mut self.account_group_id, cx);
                settle_both(SinkOperation::Flush, account, group)
            },
        }
    }

    /// Closes both lanes for this sink, which takes nothing more from then
    /// on. A lane closes at once, so the sink does. Clones of the sink stay
    /// open, and the stream goes on until they are closed or dropped too.
    pub fn poll_close(&mut self, cx: &mut Context<'_>) -> (polled: SinkPoll)
        ensures
            final(self).closed(),
            polled == SinkPoll::Ready,
    {
        let account = account_lane_poll_close(&mut self.account_id, cx);
        match settle(Lane::Account, SinkOperation::Close, account) {
            Some(settled) => settled,
            None => {
                let group = group_lane_poll_close(&mut self.account_group_id, cx);
                settle_both(SinkOperation::Close, account, group)
            },
        }
    }
}

/// The stream of the owner channel.
pub struct OwnerReceiver {
    stream: Batches,
}

impl OwnerReceiver {
    /// The most rows that a batch holds: the chunk size that the channel
    /// was made with.
    pub closed spec fn limit(self) -> nat {
        batch_limit(self.stream)
    }

    /// Hands out the rows that are ready on one lane, if there are any.
    /// A batch is never empty and never larger than the chunk size.
    pub fn poll_next(&mut self, cx: &mut Context<'_>) -> (polled: BatchPoll)
        ensures
            final(self).limit() == old(self).limit(),
            polled matches BatchPoll::Batch(batch) ==> 0 < batch.size() <= old(self).limit(),
    {
        poll_batches(&mut self.stream, cx)
    }
}

/// A sink and the stream that it feeds. Each lane has room for
/// `chunk_size` rows and one more for each sender, and a batch holds
/// `chunk_size` rows at most.
///
/// A chunk size of 0 is not accepted, nor one whose batch of 16-byte rows
/// would take more than `isize::MAX` bytes.
pub fn channel(chunk_size: usize) -> (ends: (OwnerSender, OwnerReceiver))
    requires
        0 < chunk_size <= isize::MAX / 16,
    ensures
        ends.1.limit() == chunk_size,
{
    let (account_id_tx, account_id_rx) = futures::channel::mpsc::channel(chunk_size);
    let (account_group_id_tx, account_group_id_rx) = futures::channel::mpsc::channel(chunk_size);
    (
        OwnerSender { account_id: account_id_tx, account_group_id: account_group_id_tx },
        OwnerReceiver { stream: merge_lanes(account_id_rx, account_group_id_rx, chunk_size) },
    )
}

} // verus!
