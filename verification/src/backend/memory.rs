//! A backend that keeps its tuples in memory.
//!
//! It answers every check from its latest state, which every consistency
//! admits as long as the token it names has been issued.

use vstd::prelude::*;
use crate::backend::{
    latest_state, with_relations, without_relations, CheckError, CheckResponse,
    CreateRelationError, CreateRelationResponse, DeleteRelationError, DeleteRelationResponse,
    ZanzibarBackend,
};
use crate::schema::{
    group_permits, owns_entity, owns_web, permits, subject_includes,
    AccountGroupId, AccountGroupPermission, AccountGroupRelation, AccountId, EntityId,
    EntityRelation, PermissionCheck, RelationTuple, Subject, WebId, WebRelation,
};
use crate::zanzibar::{Consistency, Zookie};

verus! {

/// Relation tuples held in a vector, with the number of writes so far.
pub struct MemoryBackend {
    tuples: Vec<RelationTuple>,
    revision: u64,
    history: Ghost<Seq<Set<RelationTuple>>>,
}

/// Whether `tuple` is among `tuples`.
fn holds(tuples: &Vec<RelationTuple>, tuple: &RelationTuple) -> (found: bool)
    ensures
        found == tuples@.contains(*tuple),
{
    let mut i: usize = 0;
    while i < tuples.len()
        invariant
            i <= tuples.len(),
            forall|j: int| 0 <= j < i ==> tuples@[j] != *tuple,
        decreases tuples.len() - i,
    {
        if tuples[i] == *tuple {
            return true;
        }
        i += 1;
    }
    false
}

/// Whether `actor` holds `permission` on `group` by the tuples of `tuples`.
fn holds_in_group(
    tuples: &Vec<RelationTuple>,
    group: AccountGroupId,
    permission: AccountGroupPermission,
    actor: AccountId,
) -> (held: bool)
    ensures
        held == group_permits(tuples@.to_set(), group, permission, actor),
{
    let relation = match permission {
        AccountGroupPermission::AddMember => AccountGroupRelation::DirectAdmin,
        AccountGroupPermission::RemoveMember => AccountGroupRelation::DirectAdmin,
        AccountGroupPermission::Member => AccountGroupRelation::DirectMember,
    };
    holds(tuples, &RelationTuple::AccountGroup { group, relation, member: actor })
}

/// Whether `subject` includes `actor` by the tuples of `tuples`.
fn includes(tuples: &Vec<RelationTuple>, subject: Subject, actor: AccountId) -> (included: bool)
    ensures
        included == subject_includes(tuples@.to_set(), subject, actor),
{
    match subject {
        Subject::Account(account) => account == actor,
        Subject::AccountGroup { group, permission } => holds_in_group(
            tuples,
            group,
            permission,
            actor,
        ),
    }
}

/// Whether `actor` owns `web` by the tuples of `tuples`.
fn is_web_owner(tuples: &Vec<RelationTuple>, web: WebId, actor: AccountId) -> (owner: bool)
    ensures
        owner == owns_web(tuples@.to_set(), web, actor),
{
    let ghost state = tuples@.to_set();
    let mut i: usize = 0;
    while i < tuples.len()
        invariant
            i <= tuples.len(),
            state == tuples@.to_set(),
            forall|j: int|
                0 <= j < i ==> !(#[trigger] tuples@[j] matches RelationTuple::Web {
                    web: at,
                    relation: WebRelation::DirectOwner,
                    subject,
                } && at == web && subject_includes(state, subject, actor)),
        decreases tuples.len() - i,
    {
        match tuples[i] {
            RelationTuple::Web { web: at, relation: WebRelation::DirectOwner, subject } => {
                if at == web && includes(tuples, subject, actor) {
                    assert(state.contains(tuples@[i as int]));
                    return true;
                }
            },
            _ => {},
        }
        i += 1;
    }
    assert forall|subject: Subject|
        #[trigger] state.contains(
            RelationTuple::Web { web, relation: WebRelation::DirectOwner, subject },
        ) implies !subject_includes(state, subject, actor) by {
        let tuple = RelationTuple::Web { web, relation: WebRelation::DirectOwner, subject };
        assert(tuples@.contains(tuple));
    }
    false
}

/// Whether `actor` owns `entity` by the tuples of `tuples`.
fn is_entity_owner(tuples: &Vec<RelationTuple>, entity: EntityId, actor: AccountId) -> (owner: bool)
    ensures
        owner == owns_entity(tuples@.to_set(), entity, actor),
{
    let ghost state = tuples@.to_set();
    let mut i: usize = 0;
    while i < tuples.len()
        invariant
            i <= tuples.len(),
            state == tuples@.to_set(),
            forall|j: int|
                0 <= j < i ==> !(#[trigger] tuples@[j] matches RelationTuple::Entity {
                    entity: at,
                    relation: EntityRelation::DirectOwner,
                    subject,
                } && at == entity && subject_includes(state, subject, actor)),
        decreases tuples.len() - i,
    {
        match tuples[i] {
            RelationTuple::Entity { entity: at, relation: EntityRelation::DirectOwner, subject } => {
                if at == entity && includes(tuples, subject, actor) {
                    assert(state.contains(tuples@[i as int]));
                    return true;
                }
            },
            _ => {},
        }
        i += 1;
    }
    assert forall|subject: Subject|
        #[trigger] state.contains(
            RelationTuple::Entity { entity, relation: EntityRelation::DirectOwner, subject },
        ) implies !subject_includes(state, subject, actor) by {
        let tuple = RelationTuple::Entity { entity, relation: EntityRelation::DirectOwner, subject };
        assert(tuples@.contains(tuple));
    }
    false
}

/// The answer to `check` by the tuples of `tuples`.
fn evaluate(tuples: &Vec<RelationTuple>, check: &PermissionCheck) -> (allowed: bool)
    ensures
        allowed == permits(tuples@.to_set(), *check),
{
    match *check {
        PermissionCheck::AccountGroup { group, permission, actor } => holds_in_group(
            tuples,
            group,
            permission,
            actor,
        ),
        PermissionCheck::Web { web, permission, actor } => is_web_owner(tuples, web, actor),
        PermissionCheck::Entity { entity, permission, actor } => is_entity_owner(
            tuples,
            entity,
            actor,
        ),
    }
}

/// `tuples` followed by those of `added` that it lacks.
fn merged(tuples: Vec<RelationTuple>, added: &Vec<RelationTuple>) -> (all: Vec<RelationTuple>)
    ensures
        all@.to_set() == with_relations(tuples@.to_set(), added@),
{
    let ghost before = tuples@.to_set();
    let mut all = tuples;
    let mut i: usize = 0;
    while i < added.len()
        invariant
            i <= added.len(),
            all@.to_set() == before.union(added@.take(i as int).to_set()),
        decreases added.len() - i,
    {
        let tuple = added[i];
        proof {
            all@.lemma_push_to_set_commute(tuple);
            added@.take(i as int).lemma_push_to_set_commute(tuple);
            assert(added@.take(i + 1) == added@.take(i as int).push(tuple));
        }
        if !holds(&all, &tuple) {
            all.push(tuple);
        }
        i += 1;
    }
    assert(added@.take(added@.len() as int) == added@);
    all
}

/// Those of `tuples` that are not in `removed`, in their order.
fn remaining(tuples: &Vec<RelationTuple>, removed: &Vec<RelationTuple>) -> (kept: Vec<RelationTuple>)
    ensures
        kept@.to_set() == without_relations(tuples@.to_set(), removed@),
{
    let mut kept: Vec<RelationTuple> = Vec::new();
    let mut i: usize = 0;
    while i < tuples.len()
        invariant
            i <= tuples.len(),
            kept@.to_set() == tuples@.take(i as int).to_set().difference(removed@.to_set()),
        decreases tuples.len() - i,
    {
        let tuple = tuples[i];
        proof {
            kept@.lemma_push_to_set_commute(tuple);
            tuples@.take(i as int).lemma_push_to_set_commute(tuple);
            assert(tuples@.take(i + 1) == tuples@.take(i as int).push(tuple));
        }
        if !holds(removed, &tuple) {
            kept.push(tuple);
        }
        i += 1;
    }
    assert(tuples@.take(tuples@.len() as int) == tuples@);
    kept
}

impl MemoryBackend {
    /// A backend without tuples, at revision 0.
    pub fn new() -> (backend: MemoryBackend)
        ensures
            backend.well_formed(),
            backend.history() == Seq::<Set<RelationTuple>>::empty().push(Set::empty()),
    {
        let backend = MemoryBackend {
            tuples: Vec::new(),
            revision: 0,
            history: Ghost(Seq::empty().push(Set::empty())),
        };
        assert(backend.tuples@.to_set() =~= Set::<RelationTuple>::empty());
        backend
    }

    /// Whether `tuple` is in the latest state.
    pub fn contains(&self, tuple: &RelationTuple) -> (found: bool)
        requires
            self.well_formed(),
        ensures
            found == latest_state(self.history()).contains(*tuple),
    {
        holds(&self.tuples, tuple)
    }

    /// The token of the latest state.
    pub fn latest(&self) -> (token: Zookie)
        requires
            self.well_formed(),
        ensures
            token@ == self.history().len() - 1,
    {
        Zookie::at_revision(self.revision)
    }
}

impl ZanzibarBackend for MemoryBackend {
    closed spec fn history(&self) -> Seq<Set<RelationTuple>> {
        self.history@
    }

    closed spec fn well_formed(&self) -> bool {
        &&& self.history@.len() == self.revision + 1
        &&& self.tuples@.to_set() == self.history@.last()
    }

    proof fn history_is_never_empty(&self) {
    }

    /// Fails only when no further revision can be numbered.
    fn create_relations(&mut self, tuples: Vec<RelationTuple>) -> (response: Result<
        CreateRelationResponse,
        CreateRelationError,
    >)
        ensures
            response is Ok <==> old(self).history().len() <= u64::MAX,
    {
        if self.revision == u64::MAX {
            return Err(CreateRelationError);
        }
        let mut held: Vec<RelationTuple> = Vec::new();
        std::mem::swap(&mut held, &mut self.tuples);
        self.tuples = merged(held, &tuples);
        self.revision = self.revision + 1;
        proof {
            self.history@ = self.history@.push(self.tuples@.to_set());
        }
        Ok(CreateRelationResponse { written_at: Zookie::at_revision(self.revision) })
    }

    /// Fails only when no further revision can be numbered.
    fn delete_relations(&mut self, tuples: Vec<RelationTuple>) -> (response: Result<
        DeleteRelationResponse,
        DeleteRelationError,
    >)
        ensures
            response is Ok <==> old(self).history().len() <= u64::MAX,
    {
        if self.revision == u64::MAX {
            return Err(DeleteRelationError);
        }
        self.tuples = remaining(&self.tuples, &tuples);
        self.revision = self.revision + 1;
        proof {
            self.history@ = self.history@.push(self.tuples@.to_set());
        }
        Ok(DeleteRelationResponse { deleted_at: Zookie::at_revision(self.revision) })
    }

    /// Answers from the latest state. Fails exactly when the check asks for
    /// a state at least as fresh as a token that has not been issued yet.
    fn check(&self, check: &PermissionCheck, consistency: Consistency) -> (response: Result<
        CheckResponse,
        CheckError,
    >)
        ensures
            response is Ok <==> consistency.admits(
                (self.history().len() - 1) as nat,
                (self.history().len() - 1) as nat,
            ),
            response matches Ok(checked) ==> checked.checked_at@ == self.history().len() - 1,
    {
        match consistency {
            Consistency::AtLeastAsFresh(token) => {
                if token.revision() > self.revision {
                    return Err(CheckError { check: *check });
                }
            },
            _ => {},
        }
        Ok(
            CheckResponse {
                checked_at: Zookie::at_revision(self.revision),
                has_permission: evaluate(&self.tuples, check),
            },
        )
    }
}

} // verus!
