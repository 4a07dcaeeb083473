//! The entity store: versioned entities under optimistic concurrency.
//!
//! Every entity is absent, active at an edition, or archived. A mutation is
//! checked against the live permission state and against the edition the
//! caller has seen. There is no lock: the caller whose edition is stale
//! loses, learns of the race and may try again with what it reads then.
//! Nothing is merged or retried here.

use vstd::prelude::*;
use crate::api::{checked, ZanzibarClient};
use crate::backend::{latest_state, CheckError, CheckResponse, ZanzibarBackend};
use crate::knowledge::{
    Entity, EntityEditionId, EntityLinkOrder, EntityMetadata, EntityProperties, EntityRecordId,
    LinkData, ProvenanceMetadata, VersionedUrl,
};
use crate::schema::{
    permits, AccountId, EntityId, EntityUuid, OwnedById, PermissionCheck, RelationTuple, WebId,
};
use crate::zanzibar::Consistency;
use vstd::std_specs::convert::FromSpec;

verus! {

/// Where an entity stands in its life.
#[derive(Clone, Copy, Debug, PartialEq, Eq, Structural)]
pub enum EntityState {
    Absent,
    Active(EntityEditionId),
    Archived(EntityEditionId),
}

/// Why an entity was not created.
#[derive(Clone, Copy, Debug, PartialEq, Eq, Structural)]
pub enum InsertionError {
    /// The actor may not create entities in the owning web.
    PermissionDenied,
    /// The permission could not be evaluated. This is not a denial.
    CheckFailed(CheckError),
    /// The identifier is taken, by an active or an archived entity.
    EntityAlreadyExists,
}

/// Why an entity was not updated.
#[derive(Clone, Copy, Debug, PartialEq, Eq, Structural)]
pub enum UpdateEntityError {
    /// There is no such entity, or it is archived and the update keeps it so.
    EntityDoesNotExist,
    /// The actor may not update the entity.
    PermissionDenied,
    /// The permission could not be evaluated. This is not a denial.
    CheckFailed(CheckError),
    /// The entity is no longer at the edition the caller has seen.
    RaceConditionOnUpdate,
    /// The entity is at the last edition that can be numbered.
    EditionExhausted,
}

/// Why a query was not answered.
#[derive(Clone, Copy, Debug, PartialEq, Eq, Structural)]
pub enum QueryError {
    /// A permission could not be evaluated. This is not a denial.
    CheckFailed(CheckError),
}

/// Which entities a query asks for.
#[derive(Clone, Copy, Debug, PartialEq, Eq, Structural)]
pub enum EntityFilter {
    /// Every entity.
    All,
    /// The entities of one web.
    OwnedBy(OwnedById),
    /// The entity with this identifier.
    Id(EntityId),
}

/// The check an actor has to pass to create an entity owned by `owned_by_id`.
pub open spec fn creation_check(actor: AccountId, owned_by_id: OwnedById) -> PermissionCheck {
    PermissionCheck::create_entity(WebId::from_spec(owned_by_id), actor)
}

/// The check an actor has to pass to update `entity`.
pub open spec fn update_check(actor: AccountId, entity: EntityId) -> PermissionCheck {
    PermissionCheck::update_entity(entity, actor)
}

/// The check an actor has to pass to see `entity`.
pub open spec fn view_check(actor: AccountId, entity: EntityId) -> PermissionCheck {
    PermissionCheck::view_entity(entity, actor)
}

/// No two entities share an identifier.
pub open spec fn distinct_ids(entities: Seq<Entity>) -> bool {
    forall|i: int, j: int|
        0 <= i < j < entities.len() ==> (#[trigger] entities[i]).id() != (#[trigger] entities[j]).id()
}

/// Where the entity `id` is kept, if it is.
pub open spec fn position(entities: Seq<Entity>, id: EntityId) -> Option<int> {
    if exists|i: int| 0 <= i < entities.len() && (#[trigger] entities[i]).id() == id {
        Some(choose|i: int| 0 <= i < entities.len() && (#[trigger] entities[i]).id() == id)
    } else {
        None
    }
}

/// The state that an entity's record stands for.
pub open spec fn state_in(entity: Entity) -> EntityState {
    if entity.metadata.archived {
        EntityState::Archived(entity.edition())
    } else {
        EntityState::Active(entity.edition())
    }
}

/// The state of the entity `id`.
pub open spec fn state_of(entities: Seq<Entity>, id: EntityId) -> EntityState {
    match position(entities, id) {
        None => EntityState::Absent,
        Some(i) => state_in(entities[i]),
    }
}

/// Whether an update that sets the archived flag to `archived` finds an
/// entity in `state`: an absent entity is never found, an archived one only
/// by the update that brings it back.
pub open spec fn found_for_update(state: EntityState, archived: bool) -> bool {
    match state {
        EntityState::Absent => false,
        EntityState::Active(_) => true,
        EntityState::Archived(_) => !archived,
    }
}

/// What becomes of an update of an entity in `state` by a caller that has
/// seen edition `expected`, once the permission check has answered
/// `check`: the next state, or the reason there is none.
pub open spec fn update_decision(
    state: EntityState,
    expected: EntityEditionId,
    archived: bool,
    check: Result<CheckResponse, CheckError>,
) -> Result<EntityState, UpdateEntityError> {
    match state {
        EntityState::Absent => Err(UpdateEntityError::EntityDoesNotExist),
        EntityState::Active(current) | EntityState::Archived(current) => {
            if !found_for_update(state, archived) {
                Err(UpdateEntityError::EntityDoesNotExist)
            } else {
                match check {
                    Err(error) => Err(UpdateEntityError::CheckFailed(error)),
                    Ok(response) => {
                        if !response.has_permission {
                            Err(UpdateEntityError::PermissionDenied)
                        } else if expected != current {
                            Err(UpdateEntityError::RaceConditionOnUpdate)
                        } else if current.0 == u64::MAX {
                            Err(UpdateEntityError::EditionExhausted)
                        } else {
                            let next = EntityEditionId((current.0 + 1) as u64);
                            Ok(
                                if archived {
                                    EntityState::Archived(next)
                                } else {
                                    EntityState::Active(next)
                                },
                            )
                        }
                    },
                }
            }
        },
    }
}

/// What becomes of the creation of an entity whose identifier is in
/// `state`, once the permission check has answered `check`.
pub open spec fn creation_decision(state: EntityState, check: Result<CheckResponse, CheckError>) -> Result<
    EntityState,
    InsertionError,
> {
    match check {
        Err(error) => Err(InsertionError::CheckFailed(error)),
        Ok(response) => {
            if !response.has_permission {
                Err(InsertionError::PermissionDenied)
            } else if state != EntityState::Absent {
                Err(InsertionError::EntityAlreadyExists)
            } else {
                Ok(EntityState::Active(EntityEditionId(0)))
            }
        },
    }
}

/// The edition of an entity that is there.
pub open spec fn edition_of(state: EntityState) -> EntityEditionId {
    match state {
        EntityState::Absent => EntityEditionId(0),
        EntityState::Active(edition) => edition,
        EntityState::Archived(edition) => edition,
    }
}

/// Whether a state is the archived one.
pub open spec fn is_archived(state: EntityState) -> bool {
    state is Archived
}

/// The entity that an update leaves in place of `before`.
pub open spec fn updated_entity(
    before: Entity,
    actor: AccountId,
    next: EntityState,
    entity_type_id: VersionedUrl,
    properties: EntityProperties,
    order: EntityLinkOrder,
) -> Entity {
    Entity {
        properties,
        link_data: match before.link_data {
            Some(link) => Some(link.reordered(order)),
            None => None,
        },
        metadata: EntityMetadata {
            record_id: EntityRecordId { entity_id: before.id(), edition_id: edition_of(next) },
            entity_type_id,
            provenance: ProvenanceMetadata { record_created_by_id: actor },
            archived: is_archived(next),
        },
    }
}

/// The entity that a creation adds.
pub open spec fn created_entity(
    actor: AccountId,
    entity_id: EntityId,
    entity_type_id: VersionedUrl,
    properties: EntityProperties,
    link_data: Option<LinkData>,
) -> Entity {
    Entity {
        properties,
        link_data,
        metadata: EntityMetadata {
            record_id: EntityRecordId { entity_id, edition_id: EntityEditionId(0) },
            entity_type_id,
            provenance: ProvenanceMetadata { record_created_by_id: actor },
            archived: false,
        },
    }
}

/// The entities after an update of `entity_id` that was decided as
/// `decision`: on success the entity is replaced by its next edition,
/// otherwise nothing is changed.
pub open spec fn entities_after_update(
    before: Seq<Entity>,
    actor: AccountId,
    entity_id: EntityId,
    entity_type_id: VersionedUrl,
    properties: EntityProperties,
    order: EntityLinkOrder,
    decision: Result<EntityState, UpdateEntityError>,
) -> Seq<Entity> {
    match (decision, position(before, entity_id)) {
        (Ok(next), Some(at)) => before.update(
            at,
            updated_entity(before[at], actor, next, entity_type_id, properties, order),
        ),
        _ => before,
    }
}

/// What an update of `entity_id` that was decided as `decision` answers:
/// the metadata of the next edition, or the reason there is none.
pub open spec fn update_result(
    before: Seq<Entity>,
    actor: AccountId,
    entity_id: EntityId,
    entity_type_id: VersionedUrl,
    properties: EntityProperties,
    order: EntityLinkOrder,
    decision: Result<EntityState, UpdateEntityError>,
) -> Result<EntityMetadata, UpdateEntityError> {
    match decision {
        Err(error) => Err(error),
        Ok(next) => match position(before, entity_id) {
            Some(at) => Ok(
                updated_entity(before[at], actor, next, entity_type_id, properties, order).metadata,
            ),
            None => Err(UpdateEntityError::EntityDoesNotExist),
        },
    }
}

/// The entities after a creation of `entity` that was decided as
/// `decision`: on success the entity is added, otherwise nothing is
/// changed.
pub open spec fn entities_after_creation(
    before: Seq<Entity>,
    entity: Entity,
    decision: Result<EntityState, InsertionError>,
) -> Seq<Entity> {
    match decision {
        Ok(_) => before.push(entity),
        Err(_) => before,
    }
}

/// What a creation of `entity` that was decided as `decision` answers: the
/// metadata of the entity, or the reason it was not created.
pub open spec fn creation_result(entity: Entity, decision: Result<EntityState, InsertionError>) -> Result<
    EntityMetadata,
    InsertionError,
> {
    match decision {
        Ok(_) => Ok(entity.metadata),
        Err(error) => Err(error),
    }
}

/// Whether `filter` asks for the entity `id`.
pub open spec fn selects(filter: EntityFilter, id: EntityId) -> bool {
    match filter {
        EntityFilter::All => true,
        EntityFilter::OwnedBy(owned_by_id) => id.owned_by_id == owned_by_id,
        EntityFilter::Id(wanted) => id == wanted,
    }
}

/// Whether a query sees `entity`: it is live, the filter asks for it, and
/// the actor may view it in the permission state `live`.
pub open spec fn shown(entity: Entity, filter: EntityFilter, live: Set<RelationTuple>, actor: AccountId) -> bool {
    &&& !entity.metadata.archived
    &&& selects(filter, entity.id())
    &&& permits(live, view_check(actor, entity.id()))
}

/// [`shown`] as a predicate on entities.
pub open spec fn shown_to(filter: EntityFilter, live: Set<RelationTuple>, actor: AccountId) -> spec_fn(
    Entity,
) -> bool {
    |entity: Entity| shown(entity, filter, live, actor)
}

/// The entities that a query sees, in the order the store keeps them.
pub open spec fn visible(
    entities: Seq<Entity>,
    filter: EntityFilter,
    live: Set<RelationTuple>,
    actor: AccountId,
) -> Seq<Entity> {
    entities.filter(shown_to(filter, live, actor))
}

/// Decides an update: see [`update_decision`].
pub fn decide_update(
    state: EntityState,
    expected: EntityEditionId,
    archived: bool,
    check: Result<CheckResponse, CheckError>,
) -> (decision: Result<EntityState, UpdateEntityError>)
    ensures
        decision == update_decision(state, expected, archived, check),
{
    let current = match state {
        EntityState::Absent => {
            return Err(UpdateEntityError::EntityDoesNotExist);
        },
        EntityState::Active(current) => current,
        EntityState::Archived(current) => {
            if archived {
                return Err(UpdateEntityError::EntityDoesNotExist);
            }
            current
        },
    };
    match check {
        Err(error) => Err(UpdateEntityError::CheckFailed(error)),
        Ok(response) => {
            if !response.has_permission {
                Err(UpdateEntityError::PermissionDenied)
            } else if expected != current {
                Err(UpdateEntityError::RaceConditionOnUpdate)
            } else if current.0 == u64::MAX {
                Err(UpdateEntityError::EditionExhausted)
            } else {
                let next = EntityEditionId(current.0 + 1);
                if archived {
                    Ok(EntityState::Archived(next))
                } else {
                    Ok(EntityState::Active(next))
                }
            }
        },
    }
}

/// Decides a creation: see [`creation_decision`].
pub fn decide_creation(state: EntityState, check: Result<CheckResponse, CheckError>) -> (decision: Result<
    EntityState,
    InsertionError,
>)
    ensures
        decision == creation_decision(state, check),
{
    match check {
        Err(error) => Err(InsertionError::CheckFailed(error)),
        Ok(response) => {
            if !response.has_permission {
                Err(InsertionError::PermissionDenied)
            } else {
                match state {
                    EntityState::Absent => Ok(EntityState::Active(EntityEditionId(0))),
                    _ => Err(InsertionError::EntityAlreadyExists),
                }
            }
        },
    }
}

/// The versioned entities, in the order they were created.
pub struct EntityStore {
    entities: Vec<Entity>,
}

impl View for EntityStore {
    type V = Seq<Entity>;

    /// The entities at their current editions, archived ones included.
    closed spec fn view(&self) -> Seq<Entity> {
        self.entities@
    }
}

impl EntityStore {
    /// No two entities of the store share an identifier.
    pub open spec fn well_formed(&self) -> bool {
        distinct_ids(self@)
    }

    /// A store without entities.
    pub fn new() -> (store: EntityStore)
        ensures
            store.well_formed(),
            store@ == Seq::<Entity>::empty(),
    {
        EntityStore { entities: Vec::new() }
    }

    /// Where the entity `id` is kept.
    fn find(&self, id: EntityId) -> (at: Option<usize>)
        requires
            self.well_formed(),
        ensures
            match at {
                Some(i) => i < self@.len() && self@[i as int].id() == id && position(self@, id) == Some(
                    i as int,
                ),
                None => position(self@, id) is None,
            },
    {
        let mut i: usize = 0;
        while i < self.entities.len()
            invariant
                i <= self.entities.len(),
                self.well_formed(),
                forall|j: int| 0 <= j < i ==> (#[trigger] self.entities@[j]).id() != id,
            decreases self.entities.len() - i,
        {
            if self.entities[i].metadata.record_id.entity_id == id {
                return Some(i);
            }
            i += 1;
        }
        None
    }

    /// The state of the entity that is kept at `at`, or of one that is not
    /// kept.
    fn state_at(&self, at: Option<usize>) -> (state: EntityState)
        requires
            at matches Some(i) ==> i < self@.len(),
        ensures
            state == match at {
                Some(i) => state_in(self@[i as int]),
                None => EntityState::Absent,
            },
    {
        match at {
            None => EntityState::Absent,
            Some(i) => {
                let metadata = &self.entities[i].metadata;
                if metadata.archived {
                    EntityState::Archived(metadata.record_id.edition_id)
                } else {
                    EntityState::Active(metadata.record_id.edition_id)
                }
            },
        }
    }

    /// The state of the entity `id`.
    pub fn state(&self, id: EntityId) -> (state: EntityState)
        requires
            self.well_formed(),
        ensures
            state == state_of(self@, id),
    {
        self.state_at(self.find(id))
    }

    /// The number of entities kept, archived ones included.
    pub fn len(&self) -> (len: usize)
        ensures
            len == self@.len(),
    {
        self.entities.len()
    }

    /// Creates the entity `entity_uuid` of the web `owned_by_id` at edition
    /// 0, if `actor` may create entities in that web and the identifier is
    /// free.
    pub fn create_entity<B: ZanzibarBackend>(
        &mut self,
        actor: AccountId,
        authorization: &ZanzibarClient<B>,
        owned_by_id: OwnedById,
        entity_uuid: EntityUuid,
        entity_type_id: VersionedUrl,
        properties: EntityProperties,
        link_data: Option<LinkData>,
    ) -> (result: Result<EntityMetadata, InsertionError>)
        requires
            old(self).well_formed(),
            authorization@.well_formed(),
        ensures
            final(self).well_formed(),
            exists|check: Result<CheckResponse, CheckError>|
                {
                    let entity_id = EntityId { owned_by_id, entity_uuid };
                    let entity = created_entity(actor, entity_id, entity_type_id, properties, link_data);
                    let decision = creation_decision(state_of(old(self)@, entity_id), check);
                    &&& #[trigger] checked(
                        authorization@.history(),
                        creation_check(actor, owned_by_id),
                        Consistency::FullyConsistent,
                        check,
                    )
                    &&& final(self)@ == entities_after_creation(old(self)@, entity, decision)
                    &&& result == creation_result(entity, decision)
                },
    {
        let entity_id = EntityId { owned_by_id, entity_uuid };
        let check = authorization.can_create_entity(
            actor,
            WebId::from(owned_by_id),
            Consistency::FullyConsistent,
        );
        let state = self.state(entity_id);
        match decide_creation(state, check) {
            Err(error) => Err(error),
            Ok(_) => {
                let metadata = EntityMetadata {
                    record_id: EntityRecordId { entity_id, edition_id: EntityEditionId(0) },
                    entity_type_id,
                    provenance: ProvenanceMetadata { record_created_by_id: actor },
                    archived: false,
                };
                let returned = metadata.clone();
                let entity = Entity { properties, link_data, metadata };
                assert(position(self@, entity_id) is None);
                self.entities.push(entity);
                Ok(returned)
            },
        }
    }

    /// Takes the entity `entity_id` from the edition `expected_edition` to
    /// the next one, with new type, properties, link order and archived
    /// flag, if `actor` may update it and it is still at that edition.
    pub fn update_entity<B: ZanzibarBackend>(
        &mut self,
        actor: AccountId,
        authorization: &ZanzibarClient<B>,
        entity_id: EntityId,
        expected_edition: EntityEditionId,
        archived: bool,
        entity_type_id: VersionedUrl,
        properties: EntityProperties,
        order: EntityLinkOrder,
    ) -> (result: Result<EntityMetadata, UpdateEntityError>)
        requires
            old(self).well_formed(),
            authorization@.well_formed(),
        ensures
            final(self).well_formed(),
            exists|check: Result<CheckResponse, CheckError>|
                {
                    let decision = update_decision(
                        state_of(old(self)@, entity_id),
                        expected_edition,
                        archived,
                        check,
                    );
                    &&& #[trigger] checked(
                        authorization@.history(),
                        update_check(actor, entity_id),
                        Consistency::FullyConsistent,
                        check,
                    )
                    &&& final(self)@ == entities_after_update(
                        old(self)@,
                        actor,
                        entity_id,
                        entity_type_id,
                        properties,
                        order,
                        decision,
                    )
                    &&& result == update_result(
                        old(self)@,
                        actor,
                        entity_id,
                        entity_type_id,
                        properties,
                        order,
                        decision,
                    )
                },
    {
        let ghost before = self.entities@;
        let at = self.find(entity_id);
        let state = self.state_at(at);
        let found = match state {
            EntityState::Absent => false,
            EntityState::Active(_) => true,
            EntityState::Archived(_) => !archived,
        };
        if !found {
            proof {
                let unasked: Result<CheckResponse, CheckError> = Err(
                    CheckError { check: update_check(actor, entity_id) },
                );
                assert(checked(
                    authorization@.history(),
                    update_check(actor, entity_id),
                    Consistency::FullyConsistent,
                    unasked,
                ));
            }
            return Err(UpdateEntityError::EntityDoesNotExist);
        }
        let check = authorization.can_update_entity(actor, entity_id, Consistency::FullyConsistent);
        match decide_update(state, expected_edition, archived, check) {
            Err(error) => Err(error),
            Ok(next) => {
                let index = match at {
                    Some(index) => index,
                    None => vstd::pervasive::unreached(),
                };
                let (edition_id, archived_next) = match next {
                    EntityState::Absent => vstd::pervasive::unreached(),
                    EntityState::Active(edition) => (edition, false),
                    EntityState::Archived(edition) => (edition, true),
                };
                let link_data = match self.entities[index].link_data {
                    Some(link) => Some(
                        LinkData {
                            left_entity_id: link.left_entity_id,
                            right_entity_id: link.right_entity_id,
                            order,
                        },
                    ),
                    None => None,
                };
                let metadata = EntityMetadata {
                    record_id: EntityRecordId { entity_id, edition_id },
                    entity_type_id,
                    provenance: ProvenanceMetadata { record_created_by_id: actor },
                    archived: archived_next,
                };
                let returned = metadata.clone();
                let entity = Entity { properties, link_data, metadata };
                self.entities.set(index, entity);
                proof {
                    let after = self.entities@;
                    assert forall|i: int| 0 <= i < after.len() implies (#[trigger] after[i]).id()
                        == before[i].id() by {}
                }
                Ok(returned)
            },
        }
    }

    /// The live entities that `filter` asks for and `actor` may view. Each
    /// candidate is checked by itself against the live permission state;
    /// a check that fails fails the query.
    pub fn get_entity<B: ZanzibarBackend>(
        &self,
        actor: AccountId,
        authorization: &ZanzibarClient<B>,
        filter: &EntityFilter,
    ) -> (result: Result<Vec<Entity>, QueryError>)
        requires
            self.well_formed(),
            authorization@.well_formed(),
        ensures
            match result {
                Ok(found) => found@ == visible(
                    self@,
                    *filter,
                    latest_state(authorization@.history()),
                    actor,
                ),
                Err(QueryError::CheckFailed(error)) => exists|i: int|
                    {
                        &&& 0 <= i < self@.len()
                        &&& !(#[trigger] self@[i]).metadata.archived
                        &&& selects(*filter, self@[i].id())
                        &&& error.check == view_check(actor, self@[i].id())
                    },
            },
    {
        let ghost live = latest_state(authorization@.history());
        let ghost pred = shown_to(*filter, live, actor);
        let mut found: Vec<Entity> = Vec::new();
        let mut i: usize = 0;
        proof {
            reveal(Seq::filter);
        }
        while i < self.entities.len()
            invariant
                i <= self.entities.len(),
                authorization@.well_formed(),
                live == latest_state(authorization@.history()),
                pred == shown_to(*filter, live, actor),
                found@ == self.entities@.take(i as int).filter(pred),
            decreases self.entities.len() - i,
        {
            let entity = &self.entities[i];
            let id = entity.metadata.record_id.entity_id;
            let wanted = !entity.metadata.archived && match *filter {
                EntityFilter::All => true,
                EntityFilter::OwnedBy(owned_by_id) => id.owned_by_id == owned_by_id,
                EntityFilter::Id(wanted) => id == wanted,
            };
            let mut show = false;
            if wanted {
                match authorization.can_view_entity(actor, id, Consistency::FullyConsistent) {
                    Err(error) => {
                        assert(!self@[i as int].metadata.archived && selects(*filter, self@[i as int].id()));
                        return Err(QueryError::CheckFailed(error));
                    },
                    Ok(response) => {
                        show = response.has_permission;
                    },
                }
            }
            proof {
                reveal(Seq::filter);
                assert(self.entities@.take(i + 1).drop_last() == self.entities@.take(i as int));
            }
            if show {
                found.push(entity.clone());
            }
            i += 1;
        }
        assert(self.entities@.take(self.entities@.len() as int) == self.entities@);
        Ok(found)
    }
}

/// With distinct identifiers, an entity is kept where its identifier is
/// found.
proof fn kept_where_found(entities: Seq<Entity>, id: EntityId, at: int)
    requires
        distinct_ids(entities),
        0 <= at < entities.len(),
        entities[at].id() == id,
    ensures
        position(entities, id) == Some(at),
{
}

/// An update touches one entity. After an update that was decided to
/// succeed, the entity is in the state that was decided, every other entity
/// is in the state it was in, and identifiers are still distinct.
pub proof fn update_moves_one_entity(
    before: Seq<Entity>,
    after: Seq<Entity>,
    entity_id: EntityId,
    actor: AccountId,
    next: EntityState,
    entity_type_id: VersionedUrl,
    properties: EntityProperties,
    order: EntityLinkOrder,
    other: EntityId,
)
    requires
        distinct_ids(before),
        next !is Absent,
        position(before, entity_id) matches Some(at) && after == before.update(
            at,
            updated_entity(before[at], actor, next, entity_type_id, properties, order),
        ),
    ensures
        distinct_ids(after),
        state_of(after, entity_id) == next,
        other != entity_id ==> state_of(after, other) == state_of(before, other),
{
    let at = position(before, entity_id).unwrap();
    assert forall|i: int| 0 <= i < after.len() implies (#[trigger] after[i]).id() == before[i].id() by {}
    kept_where_found(after, entity_id, at);
    if other != entity_id {
        if let Some(i) = position(before, other) {
            kept_where_found(after, other, i);
        }
    }
}

/// A creation adds one entity. After a creation that was decided to
/// succeed, the entity is active at edition 0, every other entity is in the
/// state it was in, and identifiers are still distinct.
pub proof fn creation_adds_one_entity(
    before: Seq<Entity>,
    after: Seq<Entity>,
    actor: AccountId,
    entity_id: EntityId,
    entity_type_id: VersionedUrl,
    properties: EntityProperties,
    link_data: Option<LinkData>,
    other: EntityId,
)
    requires
        distinct_ids(before),
        state_of(before, entity_id) is Absent,
        after == before.push(created_entity(actor, entity_id, entity_type_id, properties, link_data)),
    ensures
        distinct_ids(after),
        state_of(after, entity_id) == EntityState::Active(EntityEditionId(0)),
        other != entity_id ==> state_of(after, other) == state_of(before, other),
{
    let last = before.len() as int;
    assert forall|i: int| 0 <= i < last implies (#[trigger] after[i]) == before[i] by {}
    assert(position(before, entity_id) is None);
    kept_where_found(after, entity_id, last);
    if other != entity_id {
        if let Some(i) = position(before, other) {
            kept_where_found(after, other, i);
        }
    }
}

/// Single winner. Of two updates by permitted callers that have both seen
/// an active entity at edition `edition`, the one that is applied first
/// takes the entity to the next edition, and the other, applied to what the
/// first left, loses the race. An update that has seen the new edition
/// succeeds after them.
pub proof fn single_winner(
    edition: EntityEditionId,
    first: CheckResponse,
    second: CheckResponse,
    third: CheckResponse,
)
    requires
        edition.0 + 2 <= u64::MAX,
        first.has_permission,
        second.has_permission,
        third.has_permission,
    ensures
        ({
            let start = EntityState::Active(edition);
            let next = EntityState::Active(EntityEditionId((edition.0 + 1) as u64));
            let last = EntityState::Active(EntityEditionId((edition.0 + 2) as u64));
            &&& update_decision(start, edition, false, Ok(first)) == Ok::<EntityState, UpdateEntityError>(next)
            &&& update_decision(next, edition, false, Ok(second)) == Err::<
                EntityState,
                UpdateEntityError,
            >(UpdateEntityError::RaceConditionOnUpdate)
            &&& update_decision(next, edition_of(next), false, Ok(third)) == Ok::<
                EntityState,
                UpdateEntityError,
            >(last)
        }),
{
}

/// An update of an entity that is absent, or archived and kept so, finds no
/// entity: whatever edition the caller has seen and whatever the
/// permission check answered, the outcome is never a race.
pub proof fn update_of_missing_entity(
    state: EntityState,
    expected: EntityEditionId,
    archived: bool,
    check: Result<CheckResponse, CheckError>,
)
    requires
        state is Absent || (state is Archived && archived),
    ensures
        update_decision(state, expected, archived, check) == Err::<EntityState, UpdateEntityError>(
            UpdateEntityError::EntityDoesNotExist,
        ),
{
}

/// Editions only grow: an update that succeeds leaves the entity at the
/// edition after the one it was at.
pub proof fn update_advances_edition(
    state: EntityState,
    expected: EntityEditionId,
    archived: bool,
    check: Result<CheckResponse, CheckError>,
)
    requires
        update_decision(state, expected, archived, check) is Ok,
    ensures
        state !is Absent,
        expected == edition_of(state),
        edition_of(update_decision(state, expected, archived, check).unwrap()).0 == edition_of(state).0
            + 1,
        is_archived(update_decision(state, expected, archived, check).unwrap()) == archived,
{
}

} // verus!
