use futures::task::noop_waker_ref;
use graph_core::schema::{AccountGroupId, AccountId, OwnerId};
use graph_core::snapshot::owner::channel::{
    channel, settle, settle_both, settle_send, BatchPoll, LanePoll, OwnerReceiver, OwnerSender,
    SinkPoll,
};
use graph_core::snapshot::owner::{AccountGroupRow, AccountRow, AccountRowBatch, OwnerRow};
use graph_core::snapshot::{Lane, SinkOperation, SnapshotRestoreError};
use std::task::Context;

fn account(id: u128) -> OwnerId {
    OwnerId::Account(AccountId(id))
}

fn group(id: u128) -> OwnerId {
    OwnerId::AccountGroup(AccountGroupId(id))
}

fn accounts(ids: &[u128]) -> Vec<AccountRow> {
    ids.iter().map(|id| AccountRow { account_id: AccountId(*id) }).collect()
}

fn groups(ids: &[u128]) -> Vec<AccountGroupRow> {
    ids.iter().map(|id| AccountGroupRow { account_group_id: AccountGroupId(*id) }).collect()
}

fn read(failed: Lane, operation: SinkOperation) -> SnapshotRestoreError {
    SnapshotRestoreError::Read { lane: failed, operation }
}

/// Polls until the stream has nothing ready, and returns the batches.
fn drain(receiver: &mut OwnerReceiver, cx: &mut Context<'_>) -> (Vec<AccountRowBatch>, bool) {
    let mut batches = Vec::new();
    loop {
        match receiver.poll_next(cx) {
            BatchPoll::Pending => return (batches, false),
            BatchPoll::Finished => return (batches, true),
            BatchPoll::Batch(batch) => batches.push(batch),
        }
    }
}

fn rows_of_accounts(batch: &AccountRowBatch) -> Vec<AccountRow> {
    match batch {
        AccountRowBatch::Accounts(rows) => rows.clone(),
        AccountRowBatch::AccountGroups(_) => panic!("a batch of groups on the account lane"),
    }
}

fn rows_of_groups(batch: &AccountRowBatch) -> Vec<AccountGroupRow> {
    match batch {
        AccountRowBatch::AccountGroups(rows) => rows.clone(),
        AccountRowBatch::Accounts(_) => panic!("a batch of accounts on the group lane"),
    }
}

#[test]
fn a_full_lane_holds_the_sink_back_until_it_drains() {
    let mut cx = Context::from_waker(noop_waker_ref());
    let (mut sender, mut receiver) = channel(1);

    assert_eq!(sender.poll_ready(&mut cx), SinkPoll::Ready);
    assert_eq!(sender.start_send(account(1)), Ok(()));
    assert_eq!(sender.poll_ready(&mut cx), SinkPoll::Ready);
    assert_eq!(sender.start_send(account(2)), Ok(()));

    // The account lane is full, the group lane is empty.
    assert_eq!(sender.poll_ready(&mut cx), SinkPoll::Pending);
    assert_eq!(sender.poll_ready(&mut cx), SinkPoll::Pending);

    let first = match receiver.poll_next(&mut cx) {
        BatchPoll::Batch(batch) => batch,
        other => panic!("a batch is ready, not {other:?}"),
    };
    assert_eq!(rows_of_accounts(&first), accounts(&[1]));

    assert_eq!(sender.poll_ready(&mut cx), SinkPoll::Ready);
    assert_eq!(sender.start_send(account(3)), Ok(()));

    let (rest, finished) = drain(&mut receiver, &mut cx);
    assert!(!finished);
    let rest: Vec<AccountRow> = rest.iter().flat_map(rows_of_accounts).collect();
    assert_eq!(rest, accounts(&[2, 3]));
}

#[test]
fn a_full_group_lane_holds_the_sink_back_too() {
    let mut cx = Context::from_waker(noop_waker_ref());
    let (mut sender, mut receiver) = channel(1);
    assert_eq!(sender.start_send(group(1)), Ok(()));
    assert_eq!(sender.start_send(group(2)), Ok(()));
    assert_eq!(sender.poll_ready(&mut cx), SinkPoll::Pending);
    match receiver.poll_next(&mut cx) {
        BatchPoll::Batch(batch) => assert_eq!(rows_of_groups(&batch), groups(&[1])),
        other => panic!("a batch is ready, not {other:?}"),
    }
    assert_eq!(sender.poll_ready(&mut cx), SinkPoll::Ready);
}

#[test]
fn batches_hold_at_most_a_chunk_and_the_last_is_not_held_back() {
    let mut cx = Context::from_waker(noop_waker_ref());
    let chunk_size = 2;
    let (sender, mut receiver) = channel(chunk_size);
    let mut senders: Vec<OwnerSender> = vec![sender.clone(), sender.clone(), sender];

    // Five rows, two and a half chunks, all ready before the first poll.
    assert_eq!(senders[0].start_send(account(1)), Ok(()));
    assert_eq!(senders[0].start_send(account(2)), Ok(()));
    assert_eq!(senders[0].start_send(account(3)), Ok(()));
    assert_eq!(senders[1].start_send(account(4)), Ok(()));
    assert_eq!(senders[2].start_send(account(5)), Ok(()));

    let (batches, finished) = drain(&mut receiver, &mut cx);
    assert!(!finished);
    let sizes: Vec<usize> = batches.iter().map(AccountRowBatch::len).collect();
    assert_eq!(sizes, vec![2, 2, 1]);
    let rows: Vec<AccountRow> = batches.iter().flat_map(rows_of_accounts).collect();
    assert_eq!(rows, accounts(&[1, 2, 3, 4, 5]));
}

#[test]
fn each_owner_travels_on_the_lane_of_its_kind() {
    let mut cx = Context::from_waker(noop_waker_ref());
    let (mut sender, mut receiver) = channel(4);
    for item in [account(1), group(10), account(2), group(20), group(30)] {
        assert_eq!(sender.poll_ready(&mut cx), SinkPoll::Ready);
        assert_eq!(sender.start_send(item), Ok(()));
    }
    let (batches, finished) = drain(&mut receiver, &mut cx);
    assert!(!finished);
    assert_eq!(batches.len(), 2);
    let mut seen_accounts = Vec::new();
    let mut seen_groups = Vec::new();
    for batch in &batches {
        assert!(batch.len() >= 1 && batch.len() <= 4);
        match batch {
            AccountRowBatch::Accounts(rows) => seen_accounts.extend(rows.iter().copied()),
            AccountRowBatch::AccountGroups(rows) => seen_groups.extend(rows.iter().copied()),
        }
    }
    assert_eq!(seen_accounts, accounts(&[1, 2]));
    assert_eq!(seen_groups, groups(&[10, 20, 30]));
}

#[test]
fn an_empty_channel_is_pending_and_a_closed_one_finishes() {
    let mut cx = Context::from_waker(noop_waker_ref());
    let (mut sender, mut receiver) = channel(3);
    assert!(matches!(receiver.poll_next(&mut cx), BatchPoll::Pending));

    assert_eq!(sender.start_send(account(1)), Ok(()));
    assert_eq!(sender.start_send(group(2)), Ok(()));
    assert_eq!(sender.poll_flush(&mut cx), SinkPoll::Ready);
    assert_eq!(sender.poll_close(&mut cx), SinkPoll::Ready);

    let (batches, finished) = drain(&mut receiver, &mut cx);
    assert!(finished);
    let sizes: Vec<usize> = batches.iter().map(AccountRowBatch::len).collect();
    assert_eq!(sizes, vec![1, 1]);
    assert!(matches!(receiver.poll_next(&mut cx), BatchPoll::Finished));
}

#[test]
fn a_closed_sink_takes_nothing_more() {
    let mut cx = Context::from_waker(noop_waker_ref());
    let (mut sender, _receiver) = channel(3);
    assert_eq!(sender.poll_close(&mut cx), SinkPoll::Ready);
    assert_eq!(sender.start_send(account(1)), Err(read(Lane::Account, SinkOperation::Send)));
    assert_eq!(sender.start_send(group(1)), Err(read(Lane::AccountGroup, SinkOperation::Send)));
    assert_eq!(
        sender.poll_ready(&mut cx),
        SinkPoll::Failed(read(Lane::Account, SinkOperation::Poll))
    );
    assert_eq!(sender.poll_flush(&mut cx), SinkPoll::Ready);
    assert_eq!(sender.poll_close(&mut cx), SinkPoll::Ready);
}

#[test]
fn a_dropped_stream_fails_the_sink() {
    let mut cx = Context::from_waker(noop_waker_ref());
    let (mut sender, receiver) = channel(3);
    drop(receiver);
    assert_eq!(
        sender.poll_ready(&mut cx),
        SinkPoll::Failed(read(Lane::Account, SinkOperation::Poll))
    );
    assert_eq!(sender.start_send(group(1)), Err(read(Lane::AccountGroup, SinkOperation::Send)));
    assert_eq!(sender.poll_flush(&mut cx), SinkPoll::Ready);
    assert_eq!(sender.poll_close(&mut cx), SinkPoll::Ready);
}

#[test]
fn a_flush_of_a_full_lane_is_pending() {
    let mut cx = Context::from_waker(noop_waker_ref());
    let (mut sender, mut receiver) = channel(1);
    assert_eq!(sender.start_send(group(1)), Ok(()));
    assert_eq!(sender.start_send(group(2)), Ok(()));
    assert_eq!(sender.poll_flush(&mut cx), SinkPoll::Pending);
    let (batches, _) = drain(&mut receiver, &mut cx);
    assert_eq!(batches.len(), 2);
    assert_eq!(sender.poll_flush(&mut cx), SinkPoll::Ready);
}

#[test]
fn the_sink_answers_for_both_lanes() {
    let (failed, pending, ready) = (LanePoll::Failed, LanePoll::Pending, LanePoll::Ready);
    let operation = SinkOperation::Flush;
    assert_eq!(settle_both(operation, ready, ready), SinkPoll::Ready);
    assert_eq!(settle_both(operation, pending, ready), SinkPoll::Pending);
    assert_eq!(settle_both(operation, ready, pending), SinkPoll::Pending);
    assert_eq!(settle_both(operation, pending, failed), SinkPoll::Pending);
    assert_eq!(settle_both(operation, pending, pending), SinkPoll::Pending);
    assert_eq!(
        settle_both(operation, failed, ready),
        SinkPoll::Failed(read(Lane::Account, operation))
    );
    assert_eq!(
        settle_both(operation, failed, failed),
        SinkPoll::Failed(read(Lane::Account, operation))
    );
    assert_eq!(
        settle_both(operation, failed, pending),
        SinkPoll::Failed(read(Lane::Account, operation))
    );
    assert_eq!(
        settle_both(operation, ready, failed),
        SinkPoll::Failed(read(Lane::AccountGroup, operation))
    );
    assert_eq!(settle(Lane::Account, SinkOperation::Poll, ready), None);
    assert_eq!(settle(Lane::AccountGroup, SinkOperation::Poll, pending), Some(SinkPoll::Pending));
    assert_eq!(
        settle(Lane::AccountGroup, SinkOperation::Close, failed),
        Some(SinkPoll::Failed(read(Lane::AccountGroup, SinkOperation::Close)))
    );
}

#[test]
fn failures_have_their_words() {
    assert_eq!(read(Lane::Account, SinkOperation::Poll).message(), "could not poll account sender");
    assert_eq!(
        read(Lane::AccountGroup, SinkOperation::Poll).message(),
        "could not poll account group sender"
    );
    assert_eq!(read(Lane::Account, SinkOperation::Send).message(), "could not send account");
    assert_eq!(read(Lane::AccountGroup, SinkOperation::Send).message(), "could not send account");
    assert_eq!(read(Lane::Account, SinkOperation::Flush).message(), "could not flush account sender");
    assert_eq!(
        read(Lane::AccountGroup, SinkOperation::Flush).message(),
        "could not flush account group sender"
    );
    assert_eq!(read(Lane::Account, SinkOperation::Close).message(), "could not close account sender");
    assert_eq!(
        read(Lane::AccountGroup, SinkOperation::Close).message(),
        "could not close account group sender"
    );
}

#[test]
fn owners_become_rows_of_their_lane() {
    let row = OwnerRow::of(account(7));
    assert_eq!(row, OwnerRow::Account(AccountRow { account_id: AccountId(7) }));
    assert_eq!(row.lane(), Lane::Account);
    let row = OwnerRow::of(group(8));
    assert_eq!(
        row,
        OwnerRow::AccountGroup(AccountGroupRow { account_group_id: AccountGroupId(8) })
    );
    assert_eq!(row.lane(), Lane::AccountGroup);
}

#[test]
fn a_failed_send_names_its_lane() {
    let (mut lane, taker) = futures::channel::mpsc::channel::<u8>(1);
    drop(taker);
    let refused = lane.try_send(1).expect_err("nobody takes the message").into_send_error();
    assert_eq!(settle_send(Lane::Account, Ok(())), Ok(()));
    assert_eq!(settle_send(Lane::AccountGroup, Ok(())), Ok(()));
    assert_eq!(
        settle_send(Lane::Account, Err(refused.clone())),
        Err(read(Lane::Account, SinkOperation::Send))
    );
    assert_eq!(
        settle_send(Lane::AccountGroup, Err(refused)),
        Err(read(Lane::AccountGroup, SinkOperation::Send))
    );
}

#[test]
fn a_sink_closes_for_itself_and_its_clones_go_on() {
    let mut cx = Context::from_waker(noop_waker_ref());
    let (mut sender, mut receiver) = channel(2);
    let mut other = sender.clone();
    assert_eq!(sender.start_send(account(1)), Ok(()));
    assert_eq!(sender.poll_close(&mut cx), SinkPoll::Ready);

    // The closed sink takes nothing more, is flushed at once and closes again.
    assert_eq!(sender.start_send(account(2)), Err(read(Lane::Account, SinkOperation::Send)));
    assert_eq!(sender.start_send(group(2)), Err(read(Lane::AccountGroup, SinkOperation::Send)));
    assert_eq!(
        sender.poll_ready(&mut cx),
        SinkPoll::Failed(read(Lane::Account, SinkOperation::Poll))
    );
    assert_eq!(sender.poll_flush(&mut cx), SinkPoll::Ready);
    assert_eq!(sender.poll_close(&mut cx), SinkPoll::Ready);

    // Its clone is open, and the stream goes on.
    assert_eq!(other.poll_ready(&mut cx), SinkPoll::Ready);
    assert_eq!(other.start_send(account(3)), Ok(()));
    let (batches, finished) = drain(&mut receiver, &mut cx);
    assert!(!finished);
    let rows: Vec<AccountRow> = batches.iter().flat_map(rows_of_accounts).collect();
    assert_eq!(rows, accounts(&[1, 3]));

    // Once the clone is closed too, the stream finishes.
    assert_eq!(other.poll_close(&mut cx), SinkPoll::Ready);
    let (batches, finished) = drain(&mut receiver, &mut cx);
    assert!(batches.is_empty());
    assert!(finished);
}
