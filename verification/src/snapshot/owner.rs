//! Owner rows: the accounts and account groups that a snapshot names as
//! owners, and the batches they are inserted in.

pub mod channel;

use vstd::prelude::*;
use crate::schema::{AccountGroupId, AccountId, OwnerId};
use crate::snapshot::Lane;

verus! {

/// The row of an account.
#[derive(Clone, Copy, Debug, PartialEq, Eq, Structural)]
pub struct AccountRow {
    pub account_id: AccountId,
}

/// The row of an account group.
#[derive(Clone, Copy, Debug, PartialEq, Eq, Structural)]
pub struct AccountGroupRow {
    pub account_group_id: AccountGroupId,
}

/// The row of an owner, of either kind.
#[derive(Clone, Copy, Debug, PartialEq, Eq, Structural)]
pub enum OwnerRow {
    Account(AccountRow),
    AccountGroup(AccountGroupRow),
}

/// Rows of one kind, to be inserted together.
#[derive(Debug)]
pub enum AccountRowBatch {
    Accounts(Vec<AccountRow>),
    AccountGroups(Vec<AccountGroupRow>),
}

impl AccountRowBatch {
    /// The number of rows in the batch.
    pub open spec fn size(self) -> nat {
        match self {
            AccountRowBatch::Accounts(rows) => rows@.len(),
            AccountRowBatch::AccountGroups(rows) => rows@.len(),
        }
    }

    /// The lane the batch came on.
    pub open spec fn lane(self) -> Lane {
        match self {
            AccountRowBatch::Accounts(_) => Lane::Account,
            AccountRowBatch::AccountGroups(_) => Lane::AccountGroup,
        }
    }

    /// The number of rows in the batch.
    pub fn len(&self) -> (len: usize)
        ensures
            len == self.size(),
    {
        match self {
            AccountRowBatch::Accounts(rows) => rows.len(),
            AccountRowBatch::AccountGroups(rows) => rows.len(),
        }
    }
}

impl OwnerRow {
    /// The row that stands for `owner`.
    pub open spec fn spec_of(owner: OwnerId) -> OwnerRow {
        match owner {
            OwnerId::Account(account_id) => OwnerRow::Account(AccountRow { account_id }),
            OwnerId::AccountGroup(account_group_id) => OwnerRow::AccountGroup(
                AccountGroupRow { account_group_id },
            ),
        }
    }

    /// The row that stands for `owner`.
    #[verifier::when_used_as_spec(spec_of)]
    pub fn of(owner: OwnerId) -> (row: OwnerRow)
        ensures
            row == Self::spec_of(owner),
    {
        match owner {
            OwnerId::Account(account_id) => OwnerRow::Account(AccountRow { account_id }),
            OwnerId::AccountGroup(account_group_id) => OwnerRow::AccountGroup(
                AccountGroupRow { account_group_id },
            ),
        }
    }

    /// The lane that the row travels on.
    pub open spec fn spec_lane(&self) -> Lane {
        match *self {
            OwnerRow::Account(_) => Lane::Account,
            OwnerRow::AccountGroup(_) => Lane::AccountGroup,
        }
    }

    /// The lane that the row travels on.
    #[verifier::when_used_as_spec(spec_lane)]
    pub fn lane(&self) -> (lane: Lane)
        ensures
            lane == self.spec_lane(),
    {
        match self {
            OwnerRow::Account(_) => Lane::Account,
            OwnerRow::AccountGroup(_) => Lane::AccountGroup,
        }
    }
}

} // verus!
