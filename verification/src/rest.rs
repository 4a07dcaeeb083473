//! The entity operations as the HTTP layer sees them.
//!
//! Each operation runs against a store and an authorization client that the
//! caller has acquired, and answers with the entity's metadata or with the
//! status that the failure maps to. A creation that is denied, an update of
//! a missing entity and an update that lost the race each have a status of
//! their own; everything else is an internal failure.

use vstd::prelude::*;
use crate::api::{checked, ZanzibarClient};
use crate::backend::{latest_state, CheckError, CheckResponse, ZanzibarBackend};
use crate::knowledge::{
    Entity, EntityEditionId, EntityLinkOrder, EntityMetadata, EntityProperties, LinkData,
    VersionedUrl,
};
use crate::schema::{AccountId, EntityId, EntityUuid, OwnedById};
use crate::store::{
    created_entity, creation_check, creation_decision, creation_result, edition_of,
    entities_after_creation, entities_after_update, selects, state_of, update_check,
    update_decision, update_result, visible, EntityFilter, EntityState, EntityStore,
    InsertionError, QueryError, UpdateEntityError,
};
use crate::zanzibar::Consistency;

verus! {

/// The statuses that a failed operation answers with.
#[derive(Clone, Copy, Debug, PartialEq, Eq, Structural)]
pub enum StatusCode {
    /// 403: the actor lacks the permission.
    Forbidden,
    /// 404: there is no such entity.
    NotFound,
    /// 423: the entity was updated by someone else in the meantime.
    Locked,
    /// 500: the store or the authorization backend failed.
    InternalServerError,
}

impl StatusCode {
    /// The number of the status.
    pub open spec fn code(self) -> u16 {
        match self {
            StatusCode::Forbidden => 403,
            StatusCode::NotFound => 404,
            StatusCode::Locked => 423,
            StatusCode::InternalServerError => 500,
        }
    }

    /// The number of the status.
    pub fn as_u16(self) -> (code: u16)
        ensures
            code == self.code(),
    {
        match self {
            StatusCode::Forbidden => 403,
            StatusCode::NotFound => 404,
            StatusCode::Locked => 423,
            StatusCode::InternalServerError => 500,
        }
    }
}

/// The HTTP methods that the entity routes use.
#[derive(Clone, Copy, Debug, PartialEq, Eq, Structural)]
pub enum Method {
    Post,
    Put,
}

/// The operations on entities.
#[derive(Clone, Copy, Debug, PartialEq, Eq, Structural)]
pub enum Operation {
    CreateEntity,
    UpdateEntity,
    GetEntitiesByQuery,
}

/// One route: the operation that a method on a path stands for.
#[derive(Clone, Copy, Debug)]
pub struct Route {
    pub method: Method,
    pub path: &'static str,
    pub operation: Operation,
}

/// The body of a request to create an entity.
#[derive(Debug)]
pub struct CreateEntityRequest {
    pub properties: EntityProperties,
    pub entity_type_id: VersionedUrl,
    pub owned_by_id: OwnedById,
    pub entity_uuid: Option<EntityUuid>,
    pub link_data: Option<LinkData>,
}

/// The body of a request to update an entity.
#[derive(Debug)]
pub struct UpdateEntityRequest {
    pub properties: EntityProperties,
    pub entity_id: EntityId,
    pub entity_type_id: VersionedUrl,
    pub order: EntityLinkOrder,
    pub archived: bool,
}

/// Why a request was not served before the store was asked.
#[derive(Clone, Copy, Debug, PartialEq, Eq, Structural)]
pub enum Unserved {
    /// No store could be acquired.
    StoreUnavailable,
    /// No authorization client could be acquired.
    AuthorizationUnavailable,
    /// The body of a query was not a query.
    MalformedQuery,
}

/// The status of a request that was not served: always an internal
/// failure.
pub open spec fn unserved_status(reason: Unserved) -> StatusCode {
    StatusCode::InternalServerError
}

/// The status of a creation that failed: a denial is forbidden, all else
/// is an internal failure.
pub open spec fn creation_status(error: InsertionError) -> StatusCode {
    match error {
        InsertionError::PermissionDenied => StatusCode::Forbidden,
        InsertionError::CheckFailed(_) => StatusCode::InternalServerError,
        InsertionError::EntityAlreadyExists => StatusCode::InternalServerError,
    }
}

/// The status of an update that failed: a missing entity is not found, a
/// lost race is locked, all else, a denial too, is an internal failure.
pub open spec fn update_status(error: UpdateEntityError) -> StatusCode {
    match error {
        UpdateEntityError::EntityDoesNotExist => StatusCode::NotFound,
        UpdateEntityError::RaceConditionOnUpdate => StatusCode::Locked,
        UpdateEntityError::PermissionDenied => StatusCode::InternalServerError,
        UpdateEntityError::CheckFailed(_) => StatusCode::InternalServerError,
        UpdateEntityError::EditionExhausted => StatusCode::InternalServerError,
    }
}

/// The status of a query that failed: always an internal failure.
pub open spec fn query_status(error: QueryError) -> StatusCode {
    StatusCode::InternalServerError
}

/// The identifier that a creation uses: the one the request names, or
/// `generated` if it names none.
pub open spec fn chosen_uuid(requested: Option<EntityUuid>, generated: EntityUuid) -> EntityUuid {
    match requested {
        Some(entity_uuid) => entity_uuid,
        None => generated,
    }
}

/// The edition that an update expects: the one the caller names, or the
/// edition the entity is at if the caller names none.
pub open spec fn expected_or_live(expected: Option<EntityEditionId>, state: EntityState) -> EntityEditionId {
    match expected {
        Some(edition) => edition,
        None => edition_of(state),
    }
}

/// The status of a request that was not served.
pub fn status_of_unserved(reason: &Unserved) -> (status: StatusCode)
    ensures
        status == unserved_status(*reason),
{
    StatusCode::InternalServerError
}

/// The status of a creation that failed.
pub fn status_of_creation(error: &InsertionError) -> (status: StatusCode)
    ensures
        status == creation_status(*error),
{
    match error {
        InsertionError::PermissionDenied => StatusCode::Forbidden,
        _ => StatusCode::InternalServerError,
    }
}

/// The status of an update that failed.
pub fn status_of_update(error: &UpdateEntityError) -> (status: StatusCode)
    ensures
        status == update_status(*error),
{
    match error {
        UpdateEntityError::EntityDoesNotExist => StatusCode::NotFound,
        UpdateEntityError::RaceConditionOnUpdate => StatusCode::Locked,
        _ => StatusCode::InternalServerError,
    }
}

/// The status of a query that failed.
pub fn status_of_query(error: &QueryError) -> (status: StatusCode)
    ensures
        status == query_status(*error),
{
    StatusCode::InternalServerError
}

/// What a creation answers that the store answered with `result`: the
/// metadata of the entity, or the status of the failure.
pub open spec fn creation_response(result: Result<EntityMetadata, InsertionError>) -> Result<
    EntityMetadata,
    StatusCode,
> {
    match result {
        Ok(metadata) => Ok(metadata),
        Err(error) => Err(creation_status(error)),
    }
}

/// What an update answers that the store answered with `result`: the
/// metadata of the entity, or the status of the failure.
pub open spec fn update_response(result: Result<EntityMetadata, UpdateEntityError>) -> Result<
    EntityMetadata,
    StatusCode,
> {
    match result {
        Ok(metadata) => Ok(metadata),
        Err(error) => Err(update_status(error)),
    }
}

/// The entity resource of the REST interface.
#[derive(Clone, Copy, Debug)]
pub struct EntityResource;

impl EntityResource {
    /// The routes of the resource: entities are created by `POST` and
    /// updated by `PUT` on `/entities`, and queried by `POST` on
    /// `/entities/query`.
    pub fn routes() -> (routes: Vec<Route>)
        ensures
            routes@.len() == 3,
            routes@[0].method == Method::Post && routes@[0].path@ == "/entities"@
                && routes@[0].operation == Operation::CreateEntity,
            routes@[1].method == Method::Put && routes@[1].path@ == "/entities"@
                && routes@[1].operation == Operation::UpdateEntity,
            routes@[2].method == Method::Post && routes@[2].path@ == "/entities/query"@
                && routes@[2].operation == Operation::GetEntitiesByQuery,
    {
        let mut routes: Vec<Route> = Vec::new();
        routes.push(Route { method: Method::Post, path: "/entities", operation: Operation::CreateEntity });
        routes.push(Route { method: Method::Put, path: "/entities", operation: Operation::UpdateEntity });
        routes.push(
            Route {
                method: Method::Post,
                path: "/entities/query",
                operation: Operation::GetEntitiesByQuery,
            },
        );
        routes
    }
}

/// Creates an entity for `actor` as `body` describes it, under the
/// identifier that `body` names, or under `generated_uuid` if it names none.
///
/// Answers with the metadata of the new entity at edition 0; with
/// `Forbidden` if the actor may not create entities in the owning web; with
/// `InternalServerError` on any other failure.
pub fn create_entity<B: ZanzibarBackend>(
    actor: AccountId,
    store: &mut EntityStore,
    authorization: &ZanzibarClient<B>,
    body: CreateEntityRequest,
    generated_uuid: EntityUuid,
) -> (response: Result<EntityMetadata, StatusCode>)
    requires
        old(store).well_formed(),
        authorization@.well_formed(),
    ensures
        final(store).well_formed(),
        exists|check: Result<CheckResponse, CheckError>|
            {
                let entity_id = EntityId {
                    owned_by_id: body.owned_by_id,
                    entity_uuid: chosen_uuid(body.entity_uuid, generated_uuid),
                };
                let entity = created_entity(
                    actor,
                    entity_id,
                    body.entity_type_id,
                    body.properties,
                    body.link_data,
                );
                let decision = creation_decision(state_of(old(store)@, entity_id), check);
                &&& #[trigger] checked(
                    authorization@.history(),
                    creation_check(actor, body.owned_by_id),
                    Consistency::FullyConsistent,
                    check,
                )
                &&& final(store)@ == entities_after_creation(old(store)@, entity, decision)
                &&& response == creation_response(creation_result(entity, decision))
            },
{
    let CreateEntityRequest { properties, entity_type_id, owned_by_id, entity_uuid, link_data } = body;
    let entity_uuid = match entity_uuid {
        Some(entity_uuid) => entity_uuid,
        None => generated_uuid,
    };
    match store.create_entity(
        actor,
        authorization,
        owned_by_id,
        entity_uuid,
        entity_type_id,
        properties,
        link_data,
    ) {
        Ok(metadata) => Ok(metadata),
        Err(error) => Err(status_of_creation(&error)),
    }
}

/// The entities that `query` asks for and `actor` may view.
///
/// Answers with `InternalServerError` if a permission could not be
/// evaluated.
pub fn get_entities_by_query<B: ZanzibarBackend>(
    actor: AccountId,
    store: &EntityStore,
    authorization: &ZanzibarClient<B>,
    query: &EntityFilter,
) -> (response: Result<Vec<Entity>, StatusCode>)
    requires
        store.well_formed(),
        authorization@.well_formed(),
    ensures
        match response {
            Ok(found) => found@ == visible(store@, *query, latest_state(authorization@.history()), actor),
            Err(status) => {
                &&& status == StatusCode::InternalServerError
                &&& exists|i: int|
                    {
                        &&& 0 <= i < store@.len()
                        &&& !(#[trigger] store@[i]).metadata.archived
                        &&& selects(*query, store@[i].id())
                    }
            },
        },
{
    match store.get_entity(actor, authorization, query) {
        Ok(found) => Ok(found),
        Err(error) => Err(status_of_query(&error)),
    }
}

/// Updates an entity for `actor` as `body` describes it, if the entity is
/// still at `expected_edition`, the edition that the caller has read. A
/// caller that names no edition expects the one the entity is at.
///
/// Answers with the metadata of the entity at its next edition; with
/// `NotFound` if there is no such entity; with `Locked` if the entity has
/// left the expected edition; with `InternalServerError` on any other
/// failure.
pub fn update_entity<B: ZanzibarBackend>(
    actor: AccountId,
    store: &mut EntityStore,
    authorization: &ZanzibarClient<B>,
    body: UpdateEntityRequest,
    expected_edition: Option<EntityEditionId>,
) -> (response: Result<EntityMetadata, StatusCode>)
    requires
        old(store).well_formed(),
        authorization@.well_formed(),
    ensures
        final(store).well_formed(),
        exists|check: Result<CheckResponse, CheckError>|
            {
                let state = state_of(old(store)@, body.entity_id);
                let decision = update_decision(
                    state,
                    expected_or_live(expected_edition, state),
                    body.archived,
                    check,
                );
                &&& #[trigger] checked(
                    authorization@.history(),
                    update_check(actor, body.entity_id),
                    Consistency::FullyConsistent,
                    check,
                )
                &&& final(store)@ == entities_after_update(
                    old(store)@,
                    actor,
                    body.entity_id,
                    body.entity_type_id,
                    body.properties,
                    body.order,
                    decision,
                )
                &&& response == update_response(
                    update_result(
                        old(store)@,
                        actor,
                        body.entity_id,
                        body.entity_type_id,
                        body.properties,
                        body.order,
                        decision,
                    ),
                )
            },
{
    let UpdateEntityRequest { properties, entity_id, entity_type_id, order, archived } = body;
    let expected = match expected_edition {
        Some(edition) => edition,
        None => match store.state(entity_id) {
            EntityState::Absent => EntityEditionId(0),
            EntityState::Active(edition) => edition,
            EntityState::Archived(edition) => edition,
        },
    };
    match store.update_entity(
        actor,
        authorization,
        entity_id,
        expected,
        archived,
        entity_type_id,
        properties,
        order,
    ) {
        Ok(metadata) => Ok(metadata),
        Err(error) => Err(status_of_update(&error)),
    }
}

} // verus!
