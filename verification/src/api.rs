//! The authorization client: one method for each thing the domain can ask.
//!
//! Each method is a fixed mapping onto one backend call. A mutation writes
//! or deletes exactly one tuple and answers with the token of that write; a
//! check passes one question on. The client keeps no state but the backend
//! and wraps no transaction around it: whether a write is atomic is the
//! backend's promise.

use vstd::prelude::*;
use crate::backend::{
    answers, committed, latest_state, with_relations, without_relations, CheckError, CheckResponse,
    CreateRelationError, CreateRelationResponse, DeleteRelationError, DeleteRelationResponse,
    ZanzibarBackend,
};
use crate::schema::{
    granted_is_permitted, grants, AccountGroupId, AccountId, EntityId, OwnerId, PermissionCheck,
    RelationTuple, VisibilityScope, WebId,
};
use crate::zanzibar::{Consistency, Zookie};

verus! {

/// The kind of write that failed.
#[derive(Clone, Copy, Debug, PartialEq, Eq, Structural)]
pub enum Modification {
    Create,
    Delete,
}

/// A tuple was not written or not deleted. The backend state is as it was.
#[derive(Clone, Copy, Debug, PartialEq, Eq, Structural)]
pub struct ModifyRelationError {
    pub modification: Modification,
    pub tuple: RelationTuple,
}

/// What the client answers for a create of `tuple` that the backend
/// answered with `response`.
pub open spec fn create_outcome(
    response: Result<CreateRelationResponse, CreateRelationError>,
    tuple: RelationTuple,
) -> Result<Zookie, ModifyRelationError> {
    match response {
        Ok(created) => Ok(created.written_at),
        Err(_) => Err(ModifyRelationError { modification: Modification::Create, tuple }),
    }
}

/// What the client answers for a delete of `tuple` that the backend
/// answered with `response`.
pub open spec fn delete_outcome(
    response: Result<DeleteRelationResponse, DeleteRelationError>,
    tuple: RelationTuple,
) -> Result<Zookie, ModifyRelationError> {
    match response {
        Ok(deleted) => Ok(deleted.deleted_at),
        Err(_) => Err(ModifyRelationError { modification: Modification::Delete, tuple }),
    }
}

/// A create of `tuple` that answered `result` took the history from
/// `before` to `after`: on success one revision more, with `tuple` in it and
/// `result`'s token marking it; on failure nothing.
pub open spec fn wrote(
    before: Seq<Set<RelationTuple>>,
    after: Seq<Set<RelationTuple>>,
    tuple: RelationTuple,
    result: Result<Zookie, ModifyRelationError>,
) -> bool {
    match result {
        Ok(token) => committed(before, after, latest_state(before).insert(tuple), token),
        Err(error) => {
            &&& after == before
            &&& error == (ModifyRelationError { modification: Modification::Create, tuple })
        },
    }
}

/// A delete of `tuple` that answered `result` took the history from
/// `before` to `after`: on success one revision more, without `tuple` and
/// with `result`'s token marking it; on failure nothing.
pub open spec fn erased(
    before: Seq<Set<RelationTuple>>,
    after: Seq<Set<RelationTuple>>,
    tuple: RelationTuple,
    result: Result<Zookie, ModifyRelationError>,
) -> bool {
    match result {
        Ok(token) => committed(before, after, latest_state(before).remove(tuple), token),
        Err(error) => {
            &&& after == before
            &&& error == (ModifyRelationError { modification: Modification::Delete, tuple })
        },
    }
}

/// `result` is the backend's answer to `check` under `consistency`: an
/// answer from an admitted state, or a failure that names the check.
pub open spec fn checked(
    history: Seq<Set<RelationTuple>>,
    check: PermissionCheck,
    consistency: Consistency,
    result: Result<CheckResponse, CheckError>,
) -> bool {
    match result {
        Ok(response) => answers(history, check, consistency, response),
        Err(error) => error.check == check,
    }
}

/// Read after write. A check that asks for a state at least as fresh as
/// the token of the write that created `tuple`, and is answered before any
/// later write, is answered from the state of that write; every permission
/// that `tuple` grants there is allowed.
pub proof fn read_after_write(
    before: Seq<Set<RelationTuple>>,
    after: Seq<Set<RelationTuple>>,
    tuple: RelationTuple,
    token: Zookie,
    check: PermissionCheck,
    response: CheckResponse,
)
    requires
        wrote(before, after, tuple, Ok(token)),
        answers(after, check, Consistency::AtLeastAsFresh(token), response),
        grants(latest_state(after), tuple, check),
    ensures
        response.checked_at@ == token@,
        response.has_permission,
{
    granted_is_permitted(latest_state(after), tuple, check);
}

/// Read after write, with other writes in between. A check that asks for a
/// state at least as fresh as `token` is allowed if every state from
/// `token` on still holds `tuple` and `tuple` grants the check there.
pub proof fn read_after_write_while_kept(
    history: Seq<Set<RelationTuple>>,
    tuple: RelationTuple,
    token: Zookie,
    check: PermissionCheck,
    response: CheckResponse,
)
    requires
        answers(history, check, Consistency::AtLeastAsFresh(token), response),
        forall|revision: int|
            token@ <= revision < history.len() ==> (#[trigger] history[revision]).contains(tuple)
                && grants(history[revision], tuple, check),
    ensures
        response.has_permission,
{
    granted_is_permitted(history[response.checked_at@ as int], tuple, check);
}

/// Idempotent delete. A delete of a tuple that is not there still commits:
/// it yields the token of a new revision whose state is the old one, so
/// every check is answered there as before.
pub proof fn delete_of_absent_tuple(
    before: Seq<Set<RelationTuple>>,
    after: Seq<Set<RelationTuple>>,
    tuple: RelationTuple,
    token: Zookie,
)
    requires
        !latest_state(before).contains(tuple),
        erased(before, after, tuple, Ok(token)),
    ensures
        token@ == after.len() - 1,
        latest_state(after) == latest_state(before),
{
}

/// Tokens are ordered as the writes are. The token of a write comes before
/// the token of any write that commits on a history that holds the first.
pub proof fn later_write_has_later_token(
    before: Seq<Set<RelationTuple>>,
    after: Seq<Set<RelationTuple>>,
    state: Set<RelationTuple>,
    token: Zookie,
    later_before: Seq<Set<RelationTuple>>,
    later_after: Seq<Set<RelationTuple>>,
    later_state: Set<RelationTuple>,
    later_token: Zookie,
)
    requires
        committed(before, after, state, token),
        after.len() <= later_before.len(),
        committed(later_before, later_after, later_state, later_token),
    ensures
        token@ < later_token@,
{
}

/// Turns the backend's answer to a create of `tuple` into the client's.
pub fn written(response: Result<CreateRelationResponse, CreateRelationError>, tuple: RelationTuple) -> (result:
    Result<Zookie, ModifyRelationError>)
    ensures
        result == create_outcome(response, tuple),
{
    match response {
        Ok(created) => Ok(created.written_at),
        Err(_) => Err(ModifyRelationError { modification: Modification::Create, tuple }),
    }
}

/// Turns the backend's answer to a delete of `tuple` into the client's.
pub fn deleted(response: Result<DeleteRelationResponse, DeleteRelationError>, tuple: RelationTuple) -> (result:
    Result<Zookie, ModifyRelationError>)
    ensures
        result == delete_outcome(response, tuple),
{
    match response {
        Ok(deleted) => Ok(deleted.deleted_at),
        Err(_) => Err(ModifyRelationError { modification: Modification::Delete, tuple }),
    }
}

/// The authorization client over a backend `B`.
#[derive(Debug, Clone)]
pub struct ZanzibarClient<B> {
    backend: B,
}

impl<B> View for ZanzibarClient<B> {
    type V = B;

    /// The backend the client speaks to.
    closed spec fn view(&self) -> B {
        self.backend
    }
}

impl<B> ZanzibarClient<B> {
    /// A client that speaks to `backend`.
    pub fn new(backend: B) -> (client: Self)
        ensures
            client@ == backend,
    {
        Self { backend }
    }

    /// The backend the client speaks to.
    pub fn backend(&self) -> (backend: &B)
        ensures
            *backend == self@,
    {
        &self.backend
    }
}

impl<B: ZanzibarBackend> ZanzibarClient<B> {
    /// Writes `tuple` as a batch of one.
    fn create_relation(&mut self, tuple: RelationTuple) -> (result: Result<Zookie, ModifyRelationError>)
        requires
            old(self)@.well_formed(),
        ensures
            final(self)@.well_formed(),
            wrote(old(self)@.history(), final(self)@.history(), tuple, result),
    {
        let batch = vec![tuple];
        assert(batch@.to_set() =~= Set::empty().insert(tuple));
        assert(with_relations(latest_state(self@.history()), batch@) == latest_state(
            self@.history(),
        ).insert(tuple));
        let response = self.backend.create_relations(batch);
        written(response, tuple)
    }

    /// Deletes `tuple` as a batch of one.
    fn delete_relation(&mut self, tuple: RelationTuple) -> (result: Result<Zookie, ModifyRelationError>)
        requires
            old(self)@.well_formed(),
        ensures
            final(self)@.well_formed(),
            erased(old(self)@.history(), final(self)@.history(), tuple, result),
    {
        let batch = vec![tuple];
        assert(batch@.to_set() =~= Set::empty().insert(tuple));
        assert(without_relations(latest_state(self@.history()), batch@) == latest_state(
            self@.history(),
        ).remove(tuple));
        let response = self.backend.delete_relations(batch);
        deleted(response, tuple)
    }

    /// Makes `member` an administrator of `account_group`.
    pub fn add_account_group_admin(&mut self, member: AccountId, account_group: AccountGroupId) -> (result:
        Result<Zookie, ModifyRelationError>)
        requires
            old(self)@.well_formed(),
        ensures
            final(self)@.well_formed(),
            wrote(
                old(self)@.history(),
                final(self)@.history(),
                RelationTuple::group_admin(account_group, member),
                result,
            ),
    {
        self.create_relation(RelationTuple::group_admin(account_group, member))
    }

    /// Takes the administration of `account_group` from `member`.
    pub fn remove_account_group_admin(&mut self, member: AccountId, account_group: AccountGroupId) -> (result:
        Result<Zookie, ModifyRelationError>)
        requires
            old(self)@.well_formed(),
        ensures
            final(self)@.well_formed(),
            erased(
                old(self)@.history(),
                final(self)@.history(),
                RelationTuple::group_admin(account_group, member),
                result,
            ),
    {
        self.delete_relation(RelationTuple::group_admin(account_group, member))
    }

    /// Makes `owner` an owner of `web`. A group is granted ownership
    /// through its members only.
    pub fn add_web_owner(&mut self, owner: OwnerId, web: WebId) -> (result: Result<
        Zookie,
        ModifyRelationError,
    >)
        requires
            old(self)@.well_formed(),
        ensures
            final(self)@.well_formed(),
            wrote(
                old(self)@.history(),
                final(self)@.history(),
                RelationTuple::web_owner(web, owner),
                result,
            ),
    {
        self.create_relation(RelationTuple::web_owner(web, owner))
    }

    /// Takes the ownership of `web` from `owner`.
    pub fn remove_web_owner(&mut self, owner: OwnerId, web: WebId) -> (result: Result<
        Zookie,
        ModifyRelationError,
    >)
        requires
            old(self)@.well_formed(),
        ensures
            final(self)@.well_formed(),
            erased(
                old(self)@.history(),
                final(self)@.history(),
                RelationTuple::web_owner(web, owner),
                result,
            ),
    {
        self.delete_relation(RelationTuple::web_owner(web, owner))
    }

    /// Asks whether `actor` may add members to `account_group`.
    pub fn can_add_group_members(
        &self,
        actor: AccountId,
        account_group: AccountGroupId,
        consistency: Consistency,
    ) -> (result: Result<CheckResponse, CheckError>)
        requires
            self@.well_formed(),
        ensures
            checked(
                self@.history(),
                PermissionCheck::add_group_members(account_group, actor),
                consistency,
                result,
            ),
    {
        self.backend.check(&PermissionCheck::add_group_members(account_group, actor), consistency)
    }

    /// Asks whether `actor` may remove members from `account_group`.
    pub fn can_remove_group_members(
        &self,
        actor: AccountId,
        account_group: AccountGroupId,
        consistency: Consistency,
    ) -> (result: Result<CheckResponse, CheckError>)
        requires
            self@.well_formed(),
        ensures
            checked(
                self@.history(),
                PermissionCheck::remove_group_members(account_group, actor),
                consistency,
                result,
            ),
    {
        self.backend.check(&PermissionCheck::remove_group_members(account_group, actor), consistency)
    }

    /// Makes `member` a member of `account_group`.
    pub fn add_account_group_member(&mut self, member: AccountId, account_group: AccountGroupId) -> (result:
        Result<Zookie, ModifyRelationError>)
        requires
            old(self)@.well_formed(),
        ensures
            final(self)@.well_formed(),
            wrote(
                old(self)@.history(),
                final(self)@.history(),
                RelationTuple::group_member(account_group, member),
                result,
            ),
    {
        self.create_relation(RelationTuple::group_member(account_group, member))
    }

    /// Takes the membership of `account_group` from `member`.
    pub fn remove_account_group_member(&mut self, member: AccountId, account_group: AccountGroupId) -> (result:
        Result<Zookie, ModifyRelationError>)
        requires
            old(self)@.well_formed(),
        ensures
            final(self)@.well_formed(),
            erased(
                old(self)@.history(),
                final(self)@.history(),
                RelationTuple::group_member(account_group, member),
                result,
            ),
    {
        self.delete_relation(RelationTuple::group_member(account_group, member))
    }

    /// Makes the owner that `scope` stands for an owner of `entity`.
    ///
    /// The public scope stands for no owner and is not accepted.
    pub fn add_entity_owner(&mut self, scope: VisibilityScope, entity: EntityId) -> (result: Result<
        Zookie,
        ModifyRelationError,
    >)
        requires
            old(self)@.well_formed(),
            scope.owner() is Some,
        ensures
            final(self)@.well_formed(),
            wrote(
                old(self)@.history(),
                final(self)@.history(),
                RelationTuple::entity_owner(entity, scope.owner().unwrap()),
                result,
            ),
    {
        match scope.owner() {
            Some(owner) => self.create_relation(RelationTuple::entity_owner(entity, owner)),
            None => vstd::pervasive::unreached(),
        }
    }

    /// Takes the ownership of `entity` from the owner that `scope` stands
    /// for.
    ///
    /// The public scope stands for no owner and is not accepted.
    pub fn remove_entity_owner(&mut self, scope: VisibilityScope, entity: EntityId) -> (result: Result<
        Zookie,
        ModifyRelationError,
    >)
        requires
            old(self)@.well_formed(),
            scope.owner() is Some,
        ensures
            final(self)@.well_formed(),
            erased(
                old(self)@.history(),
                final(self)@.history(),
                RelationTuple::entity_owner(entity, scope.owner().unwrap()),
                result,
            ),
    {
        match scope.owner() {
            Some(owner) => self.delete_relation(RelationTuple::entity_owner(entity, owner)),
            None => vstd::pervasive::unreached(),
        }
    }

    /// Asks whether `actor` may create entities in `web`.
    pub fn can_create_entity(&self, actor: AccountId, web: WebId, consistency: Consistency) -> (result:
        Result<CheckResponse, CheckError>)
        requires
            self@.well_formed(),
        ensures
            checked(self@.history(), PermissionCheck::create_entity(web, actor), consistency, result),
    {
        self.backend.check(&PermissionCheck::create_entity(web, actor), consistency)
    }

    /// Asks whether `actor` may update `entity`.
    pub fn can_update_entity(&self, actor: AccountId, entity: EntityId, consistency: Consistency) -> (result:
        Result<CheckResponse, CheckError>)
        requires
            self@.well_formed(),
        ensures
            checked(self@.history(), PermissionCheck::update_entity(entity, actor), consistency, result),
    {
        self.backend.check(&PermissionCheck::update_entity(entity, actor), consistency)
    }

    /// Asks whether `actor` may view `entity`.
    pub fn can_view_entity(&self, actor: AccountId, entity: EntityId, consistency: Consistency) -> (result:
        Result<CheckResponse, CheckError>)
        requires
            self@.well_formed(),
        ensures
            checked(self@.history(), PermissionCheck::view_entity(entity, actor), consistency, result),
    {
        self.backend.check(&PermissionCheck::view_entity(entity, actor), consistency)
    }
}

} // verus!
