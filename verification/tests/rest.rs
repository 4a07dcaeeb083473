use graph_core::api::ZanzibarClient;
use graph_core::backend::memory::MemoryBackend;
use graph_core::backend::CheckError;
use graph_core::knowledge::{EntityEditionId, EntityLinkOrder, EntityProperties, VersionedUrl};
use graph_core::rest::{
    create_entity, get_entities_by_query, status_of_creation, status_of_query,
    status_of_unserved, status_of_update, update_entity, CreateEntityRequest, EntityResource,
    Method, Operation, StatusCode, Unserved, UpdateEntityRequest,
};
use graph_core::schema::{
    AccountId, EntityId, EntityPermission, EntityUuid, OwnedById, OwnerId, PermissionCheck,
    VisibilityScope, WebId,
};
use graph_core::store::{
    EntityFilter, EntityState, EntityStore, InsertionError, QueryError, UpdateEntityError,
};

const OWNER: AccountId = AccountId(1);
const STRANGER: AccountId = AccountId(2);
const WEB: OwnedById = OwnedById(10);

fn authorization() -> ZanzibarClient<MemoryBackend> {
    let mut client = ZanzibarClient::new(MemoryBackend::new());
    client.add_web_owner(OwnerId::Account(OWNER), WebId(WEB.0)).unwrap();
    client
}

fn creation(entity_uuid: Option<EntityUuid>) -> CreateEntityRequest {
    CreateEntityRequest {
        properties: EntityProperties { json: String::from("{}") },
        entity_type_id: VersionedUrl { base_url: String::from("https://example.com/t/"), version: 1 },
        owned_by_id: WEB,
        entity_uuid,
        link_data: None,
    }
}

fn change(entity_id: EntityId, archived: bool) -> UpdateEntityRequest {
    UpdateEntityRequest {
        properties: EntityProperties { json: String::from("{\"n\":1}") },
        entity_id,
        entity_type_id: VersionedUrl { base_url: String::from("https://example.com/t/"), version: 2 },
        order: EntityLinkOrder { left_to_right: None, right_to_left: None },
        archived,
    }
}

fn id(uuid: u128) -> EntityId {
    EntityId { owned_by_id: WEB, entity_uuid: EntityUuid(uuid) }
}

#[test]
fn statuses_have_their_numbers() {
    assert_eq!(StatusCode::Forbidden.as_u16(), 403);
    assert_eq!(StatusCode::NotFound.as_u16(), 404);
    assert_eq!(StatusCode::Locked.as_u16(), 423);
    assert_eq!(StatusCode::InternalServerError.as_u16(), 500);
}

#[test]
fn failures_map_to_statuses() {
    let error = CheckError {
        check: PermissionCheck::Entity {
            entity: id(1),
            permission: EntityPermission::View,
            actor: OWNER,
        },
    };
    assert_eq!(status_of_creation(&InsertionError::PermissionDenied), StatusCode::Forbidden);
    assert_eq!(
        status_of_creation(&InsertionError::CheckFailed(error)),
        StatusCode::InternalServerError
    );
    assert_eq!(
        status_of_creation(&InsertionError::EntityAlreadyExists),
        StatusCode::InternalServerError
    );
    assert_eq!(status_of_update(&UpdateEntityError::EntityDoesNotExist), StatusCode::NotFound);
    assert_eq!(status_of_update(&UpdateEntityError::RaceConditionOnUpdate), StatusCode::Locked);
    assert_eq!(
        status_of_update(&UpdateEntityError::PermissionDenied),
        StatusCode::InternalServerError
    );
    assert_eq!(
        status_of_update(&UpdateEntityError::CheckFailed(error)),
        StatusCode::InternalServerError
    );
    assert_eq!(
        status_of_update(&UpdateEntityError::EditionExhausted),
        StatusCode::InternalServerError
    );
    assert_eq!(status_of_query(&QueryError::CheckFailed(error)), StatusCode::InternalServerError);
    for reason in [
        Unserved::StoreUnavailable,
        Unserved::AuthorizationUnavailable,
        Unserved::MalformedQuery,
    ] {
        assert_eq!(status_of_unserved(&reason), StatusCode::InternalServerError);
    }
}

#[test]
fn routes_of_the_entity_resource() {
    let routes = EntityResource::routes();
    let listed: Vec<(Method, &str, Operation)> =
        routes.iter().map(|route| (route.method, route.path, route.operation)).collect();
    assert_eq!(
        listed,
        vec![
            (Method::Post, "/entities", Operation::CreateEntity),
            (Method::Put, "/entities", Operation::UpdateEntity),
            (Method::Post, "/entities/query", Operation::GetEntitiesByQuery),
        ]
    );
}

#[test]
fn creation_uses_the_requested_identifier_or_the_generated_one() {
    let authorization = authorization();
    let mut store = EntityStore::new();
    let named =
        create_entity(OWNER, &mut store, &authorization, creation(Some(EntityUuid(5))), EntityUuid(9))
            .unwrap();
    assert_eq!(named.record_id.entity_id, id(5));
    assert_eq!(named.record_id.edition_id, EntityEditionId(0));
    let unnamed =
        create_entity(OWNER, &mut store, &authorization, creation(None), EntityUuid(9)).unwrap();
    assert_eq!(unnamed.record_id.entity_id, id(9));
    assert_eq!(store.state(id(5)), EntityState::Active(EntityEditionId(0)));
    assert_eq!(store.state(id(9)), EntityState::Active(EntityEditionId(0)));
}

#[test]
fn creation_by_a_stranger_is_forbidden() {
    let authorization = authorization();
    let mut store = EntityStore::new();
    let result = create_entity(STRANGER, &mut store, &authorization, creation(None), EntityUuid(9));
    assert_eq!(result.err(), Some(StatusCode::Forbidden));
    assert_eq!(store.len(), 0);
}

#[test]
fn creation_of_a_taken_identifier_is_an_internal_failure() {
    let authorization = authorization();
    let mut store = EntityStore::new();
    create_entity(OWNER, &mut store, &authorization, creation(None), EntityUuid(9)).unwrap();
    let again = create_entity(OWNER, &mut store, &authorization, creation(None), EntityUuid(9));
    assert_eq!(again.err(), Some(StatusCode::InternalServerError));
    assert_eq!(store.len(), 1);
}

#[test]
fn update_answers_not_found_locked_or_the_next_edition() {
    let mut authorization = authorization();
    let mut store = EntityStore::new();
    create_entity(OWNER, &mut store, &authorization, creation(Some(EntityUuid(1))), EntityUuid(0))
        .unwrap();
    authorization.add_entity_owner(VisibilityScope::Account(OWNER), id(1)).unwrap();

    let missing =
        update_entity(OWNER, &mut store, &authorization, change(id(2), false), Some(EntityEditionId(0)));
    assert_eq!(missing.err(), Some(StatusCode::NotFound));

    let first =
        update_entity(OWNER, &mut store, &authorization, change(id(1), false), Some(EntityEditionId(0)))
            .unwrap();
    assert_eq!(first.record_id.edition_id, EntityEditionId(1));
    let stale =
        update_entity(OWNER, &mut store, &authorization, change(id(1), false), Some(EntityEditionId(0)));
    assert_eq!(stale.err(), Some(StatusCode::Locked));
    let stranger =
        update_entity(STRANGER, &mut store, &authorization, change(id(1), false), Some(EntityEditionId(1)));
    assert_eq!(stranger.err(), Some(StatusCode::InternalServerError));

    let unread = update_entity(OWNER, &mut store, &authorization, change(id(1), false), None).unwrap();
    assert_eq!(unread.record_id.edition_id, EntityEditionId(2));
    let archived =
        update_entity(OWNER, &mut store, &authorization, change(id(1), true), Some(EntityEditionId(2)))
            .unwrap();
    assert!(archived.archived);
    assert_eq!(archived.record_id.edition_id, EntityEditionId(3));
    let gone = update_entity(OWNER, &mut store, &authorization, change(id(1), true), None);
    assert_eq!(gone.err(), Some(StatusCode::NotFound));
    let back = update_entity(OWNER, &mut store, &authorization, change(id(1), false), None).unwrap();
    assert!(!back.archived);
    assert_eq!(back.record_id.edition_id, EntityEditionId(4));
}

#[test]
fn query_shows_viewable_entities() {
    let mut authorization = authorization();
    let mut store = EntityStore::new();
    create_entity(OWNER, &mut store, &authorization, creation(Some(EntityUuid(1))), EntityUuid(0))
        .unwrap();
    create_entity(OWNER, &mut store, &authorization, creation(Some(EntityUuid(2))), EntityUuid(0))
        .unwrap();
    authorization.add_entity_owner(VisibilityScope::Account(OWNER), id(2)).unwrap();
    let found = get_entities_by_query(OWNER, &store, &authorization, &EntityFilter::All).unwrap();
    assert_eq!(found.len(), 1);
    assert_eq!(found[0].metadata.record_id.entity_id, id(2));
    let none = get_entities_by_query(STRANGER, &store, &authorization, &EntityFilter::All).unwrap();
    assert!(none.is_empty());
}
