//! Restoring a snapshot: what can go wrong while its rows are read.

pub mod owner;

use vstd::prelude::*;

verus! {

/// The two lanes that owner rows travel on.
#[derive(Clone, Copy, Debug, PartialEq, Eq, Structural)]
pub enum Lane {
    /// The lane of single accounts.
    Account,
    /// The lane of account groups.
    AccountGroup,
}

/// What a sink was doing with a lane.
#[derive(Clone, Copy, Debug, PartialEq, Eq, Structural)]
pub enum SinkOperation {
    Poll,
    Send,
    Flush,
    Close,
}

/// Why a snapshot was not restored.
#[derive(Clone, Copy, Debug, PartialEq, Eq, Structural)]
pub enum SnapshotRestoreError {
    /// A row that was read could not be handed on: `lane` failed during
    /// `operation`. The channel is of no use after that.
    Read { lane: Lane, operation: SinkOperation },
}

impl SnapshotRestoreError {
    /// What failed, in words.
    pub fn message(&self) -> (message: &'static str)
        ensures
            message@ == read_failure_message(*self)@,
    {
        match self {
            SnapshotRestoreError::Read { lane: Lane::Account, operation: SinkOperation::Poll } => {
                "could not poll account sender"
            },
            SnapshotRestoreError::Read {
                lane: Lane::AccountGroup,
                operation: SinkOperation::Poll,
            } => "could not poll account group sender",
            SnapshotRestoreError::Read { lane: _, operation: SinkOperation::Send } => {
                "could not send account"
            },
            SnapshotRestoreError::Read { lane: Lane::Account, operation: SinkOperation::Flush } => {
                "could not flush account sender"
            },
            SnapshotRestoreError::Read {
                lane: Lane::AccountGroup,
                operation: SinkOperation::Flush,
            } => "could not flush account group sender",
            SnapshotRestoreError::Read { lane: Lane::Account, operation: SinkOperation::Close } => {
                "could not close account sender"
            },
            SnapshotRestoreError::Read {
                lane: Lane::AccountGroup,
                operation: SinkOperation::Close,
            } => "could not close account group sender",
        }
    }
}

/// The words for a failure.
pub open spec fn read_failure_message(error: SnapshotRestoreError) -> &'static str {
    match error {
        SnapshotRestoreError::Read { lane, operation } => match operation {
            SinkOperation::Poll => match lane {
                Lane::Account => "could not poll account sender",
                Lane::AccountGroup => "could not poll account group sender",
            },
            SinkOperation::Send => "could not send account",
            SinkOperation::Flush => match lane {
                Lane::Account => "could not flush account sender",
                Lane::AccountGroup => "could not flush account group sender",
            },
            SinkOperation::Close => match lane {
                Lane::Account => "could not close account sender",
                Lane::AccountGroup => "could not close account group sender",
            },
        },
    }
}

} // verus!
