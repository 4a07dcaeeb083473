//! What the authorization client asks of the service that stores relation
//! tuples and answers permission checks.
//!
//! The service is modelled by its history: the set of tuples after each
//! write, oldest first. A token is a position in that history.

pub mod memory;

use vstd::prelude::*;
use crate::schema::{permits, PermissionCheck, RelationTuple};
use crate::zanzibar::{Consistency, Zookie};

verus! {

/// The answer to a committed `create_relations`.
#[derive(Clone, Copy, Debug, PartialEq, Eq, Structural)]
pub struct CreateRelationResponse {
    pub written_at: Zookie,
}

/// The answer to a committed `delete_relations`.
#[derive(Clone, Copy, Debug, PartialEq, Eq, Structural)]
pub struct DeleteRelationResponse {
    pub deleted_at: Zookie,
}

/// The answer to a check that could be evaluated.
#[derive(Clone, Copy, Debug, PartialEq, Eq, Structural)]
pub struct CheckResponse {
    pub checked_at: Zookie,
    pub has_permission: bool,
}

/// The tuples of a batch were not created. None of them was.
#[derive(Clone, Copy, Debug, PartialEq, Eq, Structural)]
pub struct CreateRelationError;

/// The tuples of a batch were not deleted. None of them was.
#[derive(Clone, Copy, Debug, PartialEq, Eq, Structural)]
pub struct DeleteRelationError;

/// A check could not be evaluated. This is not a denial.
#[derive(Clone, Copy, Debug, PartialEq, Eq, Structural)]
pub struct CheckError {
    pub check: PermissionCheck,
}

/// The newest state of a history.
pub open spec fn latest_state(history: Seq<Set<RelationTuple>>) -> Set<RelationTuple> {
    history.last()
}

/// `state` with every tuple of `tuples` present.
pub open spec fn with_relations(state: Set<RelationTuple>, tuples: Seq<RelationTuple>) -> Set<
    RelationTuple,
> {
    state.union(tuples.to_set())
}

/// `state` with every tuple of `tuples` absent.
pub open spec fn without_relations(state: Set<RelationTuple>, tuples: Seq<RelationTuple>) -> Set<
    RelationTuple,
> {
    state.difference(tuples.to_set())
}

/// A write took `before` to `after`: it appended `state` as the newest
/// revision and `token` marks it.
pub open spec fn committed(
    before: Seq<Set<RelationTuple>>,
    after: Seq<Set<RelationTuple>>,
    state: Set<RelationTuple>,
    token: Zookie,
) -> bool {
    &&& after == before.push(state)
    &&& token@ == before.len()
}

/// `response` answers `check` under `consistency` from a state of `history`
/// that the consistency admits.
pub open spec fn answers(
    history: Seq<Set<RelationTuple>>,
    check: PermissionCheck,
    consistency: Consistency,
    response: CheckResponse,
) -> bool {
    &&& history.len() > 0
    &&& consistency.admits(response.checked_at@, (history.len() - 1) as nat)
    &&& response.has_permission == permits(history[response.checked_at@ as int], check)
}

/// A store of relation tuples that answers permission checks.
///
/// A write is atomic: it commits every tuple of its batch as one new
/// revision, or fails and changes nothing. A check is answered from one
/// revision, and never from one staler than the consistency allows: a
/// backend that cannot reach such a revision fails the check.
pub trait ZanzibarBackend {
    /// The tuples after each write, oldest first. Position 0 is the state
    /// before any write.
    spec fn history(&self) -> Seq<Set<RelationTuple>>;

    /// What the backend needs to hold of itself between calls.
    spec fn well_formed(&self) -> bool;

    /// A well-formed backend has at least its initial state.
    proof fn history_is_never_empty(&self)
        requires
            self.well_formed(),
        ensures
            self.history().len() > 0,
    ;

    /// Creates every tuple of `tuples`. A tuple that exists already stays;
    /// the write still yields a new token.
    fn create_relations(&mut self, tuples: Vec<RelationTuple>) -> (response: Result<
        CreateRelationResponse,
        CreateRelationError,
    >)
        requires
            old(self).well_formed(),
        ensures
            final(self).well_formed(),
            response matches Ok(created) ==> committed(
                old(self).history(),
                final(self).history(),
                with_relations(latest_state(old(self).history()), tuples@),
                created.written_at,
            ),
            response is Err ==> final(self).history() == old(self).history(),
    ;

    /// Deletes every tuple of `tuples`. A tuple that does not exist is not
    /// an error.
    fn delete_relations(&mut self, tuples: Vec<RelationTuple>) -> (response: Result<
        DeleteRelationResponse,
        DeleteRelationError,
    >)
        requires
            old(self).well_formed(),
        ensures
            final(self).well_formed(),
            response matches Ok(deleted) ==> committed(
                old(self).history(),
                final(self).history(),
                without_relations(latest_state(old(self).history()), tuples@),
                deleted.deleted_at,
            ),
            response is Err ==> final(self).history() == old(self).history(),
    ;

    /// Answers `check` from a revision that `consistency` admits.
    fn check(&self, check: &PermissionCheck, consistency: Consistency) -> (response: Result<
        CheckResponse,
        CheckError,
    >)
        requires
            self.well_formed(),
        ensures
            response matches Ok(checked) ==> answers(self.history(), *check, consistency, checked),
            response matches Err(error) ==> error.check == *check,
    ;
}

} // verus!
