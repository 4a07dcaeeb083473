use graph_core::api::{deleted, written, Modification, ModifyRelationError, ZanzibarClient};
use graph_core::backend::memory::MemoryBackend;
use graph_core::backend::{
    CheckError, CheckResponse, CreateRelationError, CreateRelationResponse, DeleteRelationError,
    DeleteRelationResponse, ZanzibarBackend,
};
use graph_core::schema::{
    AccountGroupId, AccountGroupPermission, AccountGroupRelation, AccountId, EntityId,
    EntityPermission, EntityRelation, EntityUuid, OwnedById, OwnerId, PermissionCheck,
    RelationTuple, Subject, VisibilityScope, WebId, WebPermission, WebRelation,
};
use graph_core::zanzibar::{Consistency, Zookie};

/// A backend that is out of reach: every call fails and nothing changes.
struct UnreachableBackend;

impl ZanzibarBackend for UnreachableBackend {
    fn history(&self) -> vstd::seq::Seq<vstd::set::Set<RelationTuple>> {
        unreachable!()
    }

    fn well_formed(&self) -> bool {
        unreachable!()
    }

    fn history_is_never_empty(&self) {}

    fn create_relations(
        &mut self,
        _tuples: Vec<RelationTuple>,
    ) -> Result<CreateRelationResponse, CreateRelationError> {
        Err(CreateRelationError)
    }

    fn delete_relations(
        &mut self,
        _tuples: Vec<RelationTuple>,
    ) -> Result<DeleteRelationResponse, DeleteRelationError> {
        Err(DeleteRelationError)
    }

    fn check(
        &self,
        check: &PermissionCheck,
        _consistency: Consistency,
    ) -> Result<CheckResponse, CheckError> {
        Err(CheckError { check: *check })
    }
}

fn entity(web: u128, uuid: u128) -> EntityId {
    EntityId { owned_by_id: OwnedById(web), entity_uuid: EntityUuid(uuid) }
}

fn client() -> ZanzibarClient<MemoryBackend> {
    ZanzibarClient::new(MemoryBackend::new())
}

#[test]
fn end_to_end_group_membership_scenario() {
    let mut client = client();
    let actor = AccountId(1);
    let group = AccountGroupId(2);
    let web = WebId(3);

    let z1 = client.add_account_group_member(actor, group).expect("membership is written");
    let z2 = client
        .add_web_owner(OwnerId::AccountGroup(group), web)
        .expect("ownership is written");
    assert!(z1.revision() < z2.revision());

    let allowed = client
        .can_create_entity(actor, web, Consistency::AtLeastAsFresh(z2))
        .expect("the check is evaluated");
    assert!(allowed.has_permission);

    let z3 = client
        .remove_account_group_member(actor, group)
        .expect("membership is removed");
    assert!(z2.revision() < z3.revision());
    let denied = client
        .can_create_entity(actor, web, Consistency::AtLeastAsFresh(z3))
        .expect("the check is evaluated");
    assert!(!denied.has_permission);
}

#[test]
fn tokens_count_the_writes() {
    let mut client = client();
    assert_eq!(client.backend().latest(), Zookie::at_revision(0));
    let z1 = client.add_account_group_admin(AccountId(1), AccountGroupId(1)).unwrap();
    let z2 = client.add_account_group_member(AccountId(1), AccountGroupId(1)).unwrap();
    let z3 = client.remove_account_group_admin(AccountId(1), AccountGroupId(1)).unwrap();
    assert_eq!(z1, Zookie::at_revision(1));
    assert_eq!(z2, Zookie::at_revision(2));
    assert_eq!(z3, Zookie::at_revision(3));
    assert_eq!(z3.revision(), 3);
    assert_eq!(client.backend().latest(), z3);
}

#[test]
fn group_admin_tuple_is_written_and_deleted() {
    let mut client = client();
    let member = AccountId(7);
    let group = AccountGroupId(9);
    let tuple = RelationTuple::AccountGroup {
        group,
        relation: AccountGroupRelation::DirectAdmin,
        member,
    };
    assert!(!client.backend().contains(&tuple));
    client.add_account_group_admin(member, group).unwrap();
    assert!(client.backend().contains(&tuple));
    assert!(!client.backend().contains(&RelationTuple::AccountGroup {
        group,
        relation: AccountGroupRelation::DirectMember,
        member,
    }));
    client.remove_account_group_admin(member, group).unwrap();
    assert!(!client.backend().contains(&tuple));
}

#[test]
fn group_member_tuple_is_written_and_deleted() {
    let mut client = client();
    let member = AccountId(7);
    let group = AccountGroupId(9);
    let tuple = RelationTuple::AccountGroup {
        group,
        relation: AccountGroupRelation::DirectMember,
        member,
    };
    client.add_account_group_member(member, group).unwrap();
    assert!(client.backend().contains(&tuple));
    client.remove_account_group_member(member, group).unwrap();
    assert!(!client.backend().contains(&tuple));
}

#[test]
fn web_owner_tuple_of_an_account_is_plain() {
    let mut client = client();
    let web = WebId(4);
    let account = AccountId(5);
    let tuple = RelationTuple::Web {
        web,
        relation: WebRelation::DirectOwner,
        subject: Subject::Account(account),
    };
    client.add_web_owner(OwnerId::Account(account), web).unwrap();
    assert!(client.backend().contains(&tuple));
    client.remove_web_owner(OwnerId::Account(account), web).unwrap();
    assert!(!client.backend().contains(&tuple));
}

#[test]
fn web_owner_tuple_of_a_group_is_conditioned_on_membership() {
    let mut client = client();
    let web = WebId(4);
    let group = AccountGroupId(6);
    let tuple = RelationTuple::Web {
        web,
        relation: WebRelation::DirectOwner,
        subject: Subject::AccountGroup { group, permission: AccountGroupPermission::Member },
    };
    client.add_web_owner(OwnerId::AccountGroup(group), web).unwrap();
    assert!(client.backend().contains(&tuple));
    client.remove_web_owner(OwnerId::AccountGroup(group), web).unwrap();
    assert!(!client.backend().contains(&tuple));
}

#[test]
fn entity_owner_tuples_follow_the_scope() {
    let mut client = client();
    let entity = entity(1, 2);
    let account = AccountId(5);
    let group = AccountGroupId(6);
    let plain = RelationTuple::Entity {
        entity,
        relation: EntityRelation::DirectOwner,
        subject: Subject::Account(account),
    };
    let conditioned = RelationTuple::Entity {
        entity,
        relation: EntityRelation::DirectOwner,
        subject: Subject::AccountGroup { group, permission: AccountGroupPermission::Member },
    };
    client.add_entity_owner(VisibilityScope::Account(account), entity).unwrap();
    client.add_entity_owner(VisibilityScope::AccountGroup(group), entity).unwrap();
    assert!(client.backend().contains(&plain));
    assert!(client.backend().contains(&conditioned));
    client.remove_entity_owner(VisibilityScope::Account(account), entity).unwrap();
    assert!(!client.backend().contains(&plain));
    assert!(client.backend().contains(&conditioned));
    client.remove_entity_owner(VisibilityScope::AccountGroup(group), entity).unwrap();
    assert!(!client.backend().contains(&conditioned));
}

#[test]
fn scopes_stand_for_their_owners() {
    assert_eq!(VisibilityScope::Public.owner(), None);
    assert_eq!(
        VisibilityScope::Account(AccountId(1)).owner(),
        Some(OwnerId::Account(AccountId(1)))
    );
    assert_eq!(
        VisibilityScope::AccountGroup(AccountGroupId(2)).owner(),
        Some(OwnerId::AccountGroup(AccountGroupId(2)))
    );
    assert_eq!(Subject::from_owner(OwnerId::Account(AccountId(1))), Subject::Account(AccountId(1)));
    assert_eq!(
        Subject::from_owner(OwnerId::AccountGroup(AccountGroupId(2))),
        Subject::AccountGroup {
            group: AccountGroupId(2),
            permission: AccountGroupPermission::Member
        }
    );
    assert_eq!(WebId::from(OwnedById(12)), WebId(12));
}

#[test]
fn read_after_write_sees_the_written_tuple() {
    let mut client = client();
    let actor = AccountId(1);
    let group = AccountGroupId(2);
    let entity = entity(3, 4);

    let before = client
        .can_add_group_members(actor, group, Consistency::FullyConsistent)
        .unwrap();
    assert!(!before.has_permission);
    assert_eq!(before.checked_at, Zookie::at_revision(0));

    let token = client.add_account_group_admin(actor, group).unwrap();
    let add = client
        .can_add_group_members(actor, group, Consistency::AtLeastAsFresh(token))
        .unwrap();
    assert!(add.has_permission);
    assert_eq!(add.checked_at, token);
    let remove = client
        .can_remove_group_members(actor, group, Consistency::AtLeastAsFresh(token))
        .unwrap();
    assert!(remove.has_permission);

    let token = client.add_entity_owner(VisibilityScope::Account(actor), entity).unwrap();
    let update = client
        .can_update_entity(actor, entity, Consistency::AtLeastAsFresh(token))
        .unwrap();
    let view = client
        .can_view_entity(actor, entity, Consistency::AtLeastAsFresh(token))
        .unwrap();
    assert!(update.has_permission);
    assert!(view.has_permission);
    assert_eq!(view.checked_at, token);
}

#[test]
fn administrators_are_not_members() {
    let mut client = client();
    let actor = AccountId(1);
    let group = AccountGroupId(2);
    let web = WebId(3);
    client.add_account_group_admin(actor, group).unwrap();
    client.add_web_owner(OwnerId::AccountGroup(group), web).unwrap();
    let check = client
        .can_create_entity(actor, web, Consistency::FullyConsistent)
        .unwrap();
    assert!(!check.has_permission);
    let members = client
        .backend()
        .check(
            &PermissionCheck::AccountGroup {
                group,
                permission: AccountGroupPermission::Member,
                actor,
            },
            Consistency::FullyConsistent,
        )
        .unwrap();
    assert!(!members.has_permission);
}

#[test]
fn members_may_not_manage_the_group() {
    let mut client = client();
    let actor = AccountId(1);
    let group = AccountGroupId(2);
    client.add_account_group_member(actor, group).unwrap();
    assert!(
        !client
            .can_add_group_members(actor, group, Consistency::FullyConsistent)
            .unwrap()
            .has_permission
    );
    assert!(
        !client
            .can_remove_group_members(actor, group, Consistency::FullyConsistent)
            .unwrap()
            .has_permission
    );
}

#[test]
fn deleting_an_absent_tuple_succeeds_and_changes_nothing() {
    let mut client = client();
    let owner = AccountId(1);
    let web = WebId(2);
    let kept = client.add_web_owner(OwnerId::Account(owner), web).unwrap();

    let token = client
        .remove_account_group_member(AccountId(8), AccountGroupId(9))
        .expect("a delete of nothing is no error");
    assert_eq!(token.revision(), kept.revision() + 1);
    assert!(client.backend().contains(&RelationTuple::Web {
        web,
        relation: WebRelation::DirectOwner,
        subject: Subject::Account(owner),
    }));
    let check = client
        .can_create_entity(owner, web, Consistency::AtLeastAsFresh(token))
        .unwrap();
    assert!(check.has_permission);

    let again = client
        .remove_account_group_member(AccountId(8), AccountGroupId(9))
        .expect("nor is a second one");
    assert_eq!(again.revision(), token.revision() + 1);
}

#[test]
fn creating_a_tuple_twice_keeps_one_and_advances_the_token() {
    let mut client = client();
    let actor = AccountId(1);
    let group = AccountGroupId(2);
    let first = client.add_account_group_member(actor, group).unwrap();
    let second = client.add_account_group_member(actor, group).unwrap();
    assert!(first.revision() < second.revision());
    client.remove_account_group_member(actor, group).unwrap();
    assert!(!client.backend().contains(&RelationTuple::AccountGroup {
        group,
        relation: AccountGroupRelation::DirectMember,
        member: actor,
    }));
}

#[test]
fn group_ownership_reaches_members_only() {
    let mut client = client();
    let member = AccountId(1);
    let stranger = AccountId(2);
    let group = AccountGroupId(3);
    let other_group = AccountGroupId(4);
    let web = WebId(5);
    client.add_account_group_member(member, group).unwrap();
    client.add_account_group_member(stranger, other_group).unwrap();
    let token = client.add_web_owner(OwnerId::AccountGroup(group), web).unwrap();

    let consistency = Consistency::AtLeastAsFresh(token);
    assert!(client.can_create_entity(member, web, consistency).unwrap().has_permission);
    assert!(!client.can_create_entity(stranger, web, consistency).unwrap().has_permission);
    assert!(!client.can_create_entity(member, WebId(6), consistency).unwrap().has_permission);

    let token = client.remove_account_group_member(member, group).unwrap();
    let consistency = Consistency::AtLeastAsFresh(token);
    assert!(!client.can_create_entity(member, web, consistency).unwrap().has_permission);

    let token = client.add_account_group_member(stranger, group).unwrap();
    let consistency = Consistency::AtLeastAsFresh(token);
    assert!(client.can_create_entity(stranger, web, consistency).unwrap().has_permission);
}

#[test]
fn a_direct_owner_stays_owner_when_leaving_the_group() {
    let mut client = client();
    let actor = AccountId(1);
    let group = AccountGroupId(3);
    let web = WebId(5);
    client.add_web_owner(OwnerId::Account(actor), web).unwrap();
    client.add_account_group_member(actor, group).unwrap();
    client.add_web_owner(OwnerId::AccountGroup(group), web).unwrap();
    let token = client.remove_account_group_member(actor, group).unwrap();
    assert!(
        client
            .can_create_entity(actor, web, Consistency::AtLeastAsFresh(token))
            .unwrap()
            .has_permission
    );
}

#[test]
fn entity_group_ownership_follows_membership() {
    let mut client = client();
    let actor = AccountId(1);
    let group = AccountGroupId(3);
    let entity = entity(5, 6);
    client.add_entity_owner(VisibilityScope::AccountGroup(group), entity).unwrap();
    assert!(
        !client
            .can_update_entity(actor, entity, Consistency::FullyConsistent)
            .unwrap()
            .has_permission
    );
    client.add_account_group_member(actor, group).unwrap();
    assert!(
        client
            .can_update_entity(actor, entity, Consistency::FullyConsistent)
            .unwrap()
            .has_permission
    );
    assert!(
        client
            .can_view_entity(actor, entity, Consistency::FullyConsistent)
            .unwrap()
            .has_permission
    );
    client.remove_account_group_member(actor, group).unwrap();
    assert!(
        !client
            .can_view_entity(actor, entity, Consistency::FullyConsistent)
            .unwrap()
            .has_permission
    );
}

#[test]
fn every_consistency_is_answered_from_an_admitted_state() {
    let mut client = client();
    let actor = AccountId(1);
    let web = WebId(2);
    let token = client.add_web_owner(OwnerId::Account(actor), web).unwrap();
    let older = Zookie::at_revision(0);
    for consistency in [
        Consistency::MinimalLatency,
        Consistency::AtLeastAsFresh(older),
        Consistency::AtLeastAsFresh(token),
        Consistency::FullyConsistent,
    ] {
        let response = client.can_create_entity(actor, web, consistency).unwrap();
        assert_eq!(response, CheckResponse { checked_at: token, has_permission: true });
    }
}

#[test]
fn a_token_from_the_future_fails_the_check() {
    let mut client = client();
    let actor = AccountId(1);
    let web = WebId(2);
    client.add_web_owner(OwnerId::Account(actor), web).unwrap();
    let unseen = Zookie::at_revision(2);
    let result = client.can_create_entity(actor, web, Consistency::AtLeastAsFresh(unseen));
    assert_eq!(
        result,
        Err(CheckError {
            check: PermissionCheck::Web { web, permission: WebPermission::CreateEntity, actor }
        })
    );
}

#[test]
fn a_batch_is_written_as_one_revision() {
    let mut backend = MemoryBackend::new();
    let member = RelationTuple::AccountGroup {
        group: AccountGroupId(1),
        relation: AccountGroupRelation::DirectMember,
        member: AccountId(1),
    };
    let owner = RelationTuple::Web {
        web: WebId(2),
        relation: WebRelation::DirectOwner,
        subject: Subject::AccountGroup {
            group: AccountGroupId(1),
            permission: AccountGroupPermission::Member,
        },
    };
    let created = backend.create_relations(vec![member, owner, member]).unwrap();
    assert_eq!(created.written_at, Zookie::at_revision(1));
    assert!(backend.contains(&member));
    assert!(backend.contains(&owner));

    let empty = backend.create_relations(Vec::new()).unwrap();
    assert_eq!(empty.written_at, Zookie::at_revision(2));

    let deleted = backend.delete_relations(vec![owner, owner]).unwrap();
    assert_eq!(deleted.deleted_at, Zookie::at_revision(3));
    assert!(backend.contains(&member));
    assert!(!backend.contains(&owner));
}

#[test]
fn a_failed_write_names_the_tuple() {
    let mut client = ZanzibarClient::new(UnreachableBackend);
    let owner = OwnerId::AccountGroup(AccountGroupId(2));
    let web = WebId(3);
    let tuple = RelationTuple::Web {
        web,
        relation: WebRelation::DirectOwner,
        subject: Subject::AccountGroup {
            group: AccountGroupId(2),
            permission: AccountGroupPermission::Member,
        },
    };
    assert_eq!(
        client.add_web_owner(owner, web),
        Err(ModifyRelationError { modification: Modification::Create, tuple })
    );
    assert_eq!(
        client.remove_web_owner(owner, web),
        Err(ModifyRelationError { modification: Modification::Delete, tuple })
    );
}

#[test]
fn a_failed_check_is_no_denial() {
    let client = ZanzibarClient::new(UnreachableBackend);
    let actor = AccountId(1);
    let entity = entity(1, 1);
    assert_eq!(
        client.can_view_entity(actor, entity, Consistency::MinimalLatency),
        Err(CheckError {
            check: PermissionCheck::Entity { entity, permission: EntityPermission::View, actor }
        })
    );
    assert_eq!(
        client.can_update_entity(actor, entity, Consistency::MinimalLatency),
        Err(CheckError {
            check: PermissionCheck::Entity { entity, permission: EntityPermission::Update, actor }
        })
    );
    assert_eq!(
        client.can_remove_group_members(actor, AccountGroupId(1), Consistency::FullyConsistent),
        Err(CheckError {
            check: PermissionCheck::AccountGroup {
                group: AccountGroupId(1),
                permission: AccountGroupPermission::RemoveMember,
                actor
            }
        })
    );
}

#[test]
fn backend_answers_become_client_answers() {
    let tuple = RelationTuple::AccountGroup {
        group: AccountGroupId(1),
        relation: AccountGroupRelation::DirectAdmin,
        member: AccountId(2),
    };
    let token = Zookie::at_revision(41);
    assert_eq!(written(Ok(CreateRelationResponse { written_at: token }), tuple), Ok(token));
    assert_eq!(
        written(Err(CreateRelationError), tuple),
        Err(ModifyRelationError { modification: Modification::Create, tuple })
    );
    assert_eq!(deleted(Ok(DeleteRelationResponse { deleted_at: token }), tuple), Ok(token));
    assert_eq!(
        deleted(Err(DeleteRelationError), tuple),
        Err(ModifyRelationError { modification: Modification::Delete, tuple })
    );
}

#[test]
fn a_written_tuple_is_seen_while_it_is_kept() {
    let mut client = client();
    let actor = AccountId(1);
    let web = WebId(2);
    let token = client.add_web_owner(OwnerId::Account(actor), web).unwrap();
    client.add_account_group_member(AccountId(5), AccountGroupId(6)).unwrap();
    client.add_web_owner(OwnerId::Account(AccountId(5)), web).unwrap();
    client.remove_account_group_member(AccountId(5), AccountGroupId(6)).unwrap();
    let kept = client
        .can_create_entity(actor, web, Consistency::AtLeastAsFresh(token))
        .unwrap();
    assert!(kept.has_permission);
    assert_eq!(kept.checked_at, Zookie::at_revision(4));

    client.remove_web_owner(OwnerId::Account(actor), web).unwrap();
    let gone = client
        .can_create_entity(actor, web, Consistency::AtLeastAsFresh(token))
        .unwrap();
    assert!(!gone.has_permission);
}
