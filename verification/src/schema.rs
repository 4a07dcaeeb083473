//! Identifiers, relations, permissions and relation tuples.
//!
//! A relation tuple is the only unit of authorization state. Whether a
//! permission is held is never stored: it is derived from the set of tuples
//! by [`permits`].

use vstd::prelude::*;

verus! {

/// Identifies a single actor.
#[derive(Clone, Copy, Debug, PartialEq, Eq, Structural, Hash)]
pub struct AccountId(pub u128);

/// Identifies a group of accounts.
#[derive(Clone, Copy, Debug, PartialEq, Eq, Structural, Hash)]
pub struct AccountGroupId(pub u128);

/// Identifies a web, the namespace that entities live in.
#[derive(Clone, Copy, Debug, PartialEq, Eq, Structural, Hash)]
pub struct WebId(pub u128);

/// The web that owns an entity, as recorded on the entity itself.
#[derive(Clone, Copy, Debug, PartialEq, Eq, Structural, Hash)]
pub struct OwnedById(pub u128);

/// Distinguishes the entities of one web.
#[derive(Clone, Copy, Debug, PartialEq, Eq, Structural, Hash)]
pub struct EntityUuid(pub u128);

/// Identifies an entity across all webs.
#[derive(Clone, Copy, Debug, PartialEq, Eq, Structural, Hash)]
pub struct EntityId {
    pub owned_by_id: OwnedById,
    pub entity_uuid: EntityUuid,
}

impl From<OwnedById> for WebId {
    /// The web that an owner reference names.
    fn from(owned_by_id: OwnedById) -> (web: WebId) {
        WebId(owned_by_id.0)
    }
}

impl vstd::std_specs::convert::FromSpecImpl<OwnedById> for WebId {
    open spec fn obeys_from_spec() -> bool {
        true
    }

    open spec fn from_spec(owned_by_id: OwnedById) -> WebId {
        WebId(owned_by_id.0)
    }
}

/// Relations that can be written on an account group.
#[derive(Clone, Copy, Debug, PartialEq, Eq, Structural, Hash)]
pub enum AccountGroupRelation {
    DirectAdmin,
    DirectMember,
}

/// Permissions that can be checked on an account group.
#[derive(Clone, Copy, Debug, PartialEq, Eq, Structural, Hash)]
pub enum AccountGroupPermission {
    AddMember,
    RemoveMember,
    Member,
}

/// Relations that can be written on a web.
#[derive(Clone, Copy, Debug, PartialEq, Eq, Structural, Hash)]
pub enum WebRelation {
    DirectOwner,
}

/// Permissions that can be checked on a web.
#[derive(Clone, Copy, Debug, PartialEq, Eq, Structural, Hash)]
pub enum WebPermission {
    CreateEntity,
}

/// Relations that can be written on an entity.
#[derive(Clone, Copy, Debug, PartialEq, Eq, Structural, Hash)]
pub enum EntityRelation {
    DirectOwner,
}

/// Permissions that can be checked on an entity.
#[derive(Clone, Copy, Debug, PartialEq, Eq, Structural, Hash)]
pub enum EntityPermission {
    Update,
    View,
}

/// The owner of a web: one account, or an account group.
#[derive(Clone, Copy, Debug, PartialEq, Eq, Structural, Hash)]
pub enum OwnerId {
    Account(AccountId),
    AccountGroup(AccountGroupId),
}

/// Who an entity is visible to and owned by.
///
/// `Public` is declared but has no tuple shape yet: no operation accepts it.
#[derive(Clone, Copy, Debug, PartialEq, Eq, Structural, Hash)]
pub enum VisibilityScope {
    Public,
    Account(AccountId),
    AccountGroup(AccountGroupId),
}

impl VisibilityScope {
    /// The owner a scope stands for; `None` for the public scope.
    pub open spec fn spec_owner(self) -> Option<OwnerId> {
        match self {
            VisibilityScope::Public => None,
            VisibilityScope::Account(account) => Some(OwnerId::Account(account)),
            VisibilityScope::AccountGroup(group) => Some(OwnerId::AccountGroup(group)),
        }
    }

    /// The owner a scope stands for; `None` for the public scope.
    #[verifier::when_used_as_spec(spec_owner)]
    pub fn owner(self) -> (owner: Option<OwnerId>)
        ensures
            owner == self.spec_owner(),
    {
        match self {
            VisibilityScope::Public => None,
            VisibilityScope::Account(account) => Some(OwnerId::Account(account)),
            VisibilityScope::AccountGroup(group) => Some(OwnerId::AccountGroup(group)),
        }
    }
}

/// The subject side of a relation tuple.
#[derive(Clone, Copy, Debug, PartialEq, Eq, Structural, Hash)]
pub enum Subject {
    /// Exactly this account.
    Account(AccountId),
    /// Every account that holds `permission` on `group` when the tuple is
    /// evaluated. The set is looked up then, not copied when the tuple is
    /// written.
    AccountGroup { group: AccountGroupId, permission: AccountGroupPermission },
}

impl Subject {
    /// The subject that stands for an owner: the account itself, or the
    /// members of the group.
    pub open spec fn spec_from_owner(owner: OwnerId) -> Subject {
        match owner {
            OwnerId::Account(account) => Subject::Account(account),
            OwnerId::AccountGroup(group) => Subject::AccountGroup {
                group,
                permission: AccountGroupPermission::Member,
            },
        }
    }

    /// The subject that stands for an owner: the account itself, or the
    /// members of the group.
    #[verifier::when_used_as_spec(spec_from_owner)]
    pub fn from_owner(owner: OwnerId) -> (subject: Subject)
        ensures
            subject == Subject::spec_from_owner(owner),
    {
        match owner {
            OwnerId::Account(account) => Subject::Account(account),
            OwnerId::AccountGroup(group) => Subject::AccountGroup {
                group,
                permission: AccountGroupPermission::Member,
            },
        }
    }
}

/// One fact of authorization state: `subject` stands in `relation` to a
/// resource.
#[derive(Clone, Copy, Debug, PartialEq, Eq, Structural, Hash)]
#[allow(inconsistent_fields)]
pub enum RelationTuple {
    AccountGroup { group: AccountGroupId, relation: AccountGroupRelation, member: AccountId },
    Web { web: WebId, relation: WebRelation, subject: Subject },
    Entity { entity: EntityId, relation: EntityRelation, subject: Subject },
}

impl RelationTuple {
    /// `member` administers `group`.
    pub open spec fn spec_group_admin(group: AccountGroupId, member: AccountId) -> RelationTuple {
        RelationTuple::AccountGroup { group, relation: AccountGroupRelation::DirectAdmin, member }
    }

    /// `member` administers `group`.
    #[verifier::when_used_as_spec(spec_group_admin)]
    pub fn group_admin(group: AccountGroupId, member: AccountId) -> (tuple: RelationTuple)
        ensures
            tuple == Self::spec_group_admin(group, member),
    {
        RelationTuple::AccountGroup { group, relation: AccountGroupRelation::DirectAdmin, member }
    }

    /// `member` belongs to `group`.
    pub open spec fn spec_group_member(group: AccountGroupId, member: AccountId) -> RelationTuple {
        RelationTuple::AccountGroup { group, relation: AccountGroupRelation::DirectMember, member }
    }

    /// `member` belongs to `group`.
    #[verifier::when_used_as_spec(spec_group_member)]
    pub fn group_member(group: AccountGroupId, member: AccountId) -> (tuple: RelationTuple)
        ensures
            tuple == Self::spec_group_member(group, member),
    {
        RelationTuple::AccountGroup { group, relation: AccountGroupRelation::DirectMember, member }
    }

    /// `owner` owns `web`. A group owns it through its members: the tuple
    /// is conditioned on the group's `Member` permission.
    pub open spec fn spec_web_owner(web: WebId, owner: OwnerId) -> RelationTuple {
        RelationTuple::Web {
            web,
            relation: WebRelation::DirectOwner,
            subject: Subject::from_owner(owner),
        }
    }

    /// `owner` owns `web`. A group owns it through its members: the tuple
    /// is conditioned on the group's `Member` permission.
    #[verifier::when_used_as_spec(spec_web_owner)]
    pub fn web_owner(web: WebId, owner: OwnerId) -> (tuple: RelationTuple)
        ensures
            tuple == Self::spec_web_owner(web, owner),
    {
        RelationTuple::Web {
            web,
            relation: WebRelation::DirectOwner,
            subject: Subject::from_owner(owner),
        }
    }

    /// `owner` owns `entity`. A group owns it through its members: the
    /// tuple is conditioned on the group's `Member` permission.
    pub open spec fn spec_entity_owner(entity: EntityId, owner: OwnerId) -> RelationTuple {
        RelationTuple::Entity {
            entity,
            relation: EntityRelation::DirectOwner,
            subject: Subject::from_owner(owner),
        }
    }

    /// `owner` owns `entity`. A group owns it through its members: the
    /// tuple is conditioned on the group's `Member` permission.
    #[verifier::when_used_as_spec(spec_entity_owner)]
    pub fn entity_owner(entity: EntityId, owner: OwnerId) -> (tuple: RelationTuple)
        ensures
            tuple == Self::spec_entity_owner(entity, owner),
    {
        RelationTuple::Entity {
            entity,
            relation: EntityRelation::DirectOwner,
            subject: Subject::from_owner(owner),
        }
    }
}

/// A question put to the backend: does `actor` hold `permission` on the
/// resource?
#[derive(Clone, Copy, Debug, PartialEq, Eq, Structural, Hash)]
#[allow(inconsistent_fields)]
pub enum PermissionCheck {
    AccountGroup { group: AccountGroupId, permission: AccountGroupPermission, actor: AccountId },
    Web { web: WebId, permission: WebPermission, actor: AccountId },
    Entity { entity: EntityId, permission: EntityPermission, actor: AccountId },
}

impl PermissionCheck {
    /// May `actor` add members to `group`?
    pub open spec fn spec_add_group_members(group: AccountGroupId, actor: AccountId) -> PermissionCheck {
        PermissionCheck::AccountGroup { group, permission: AccountGroupPermission::AddMember, actor }
    }

    /// May `actor` add members to `group`?
    #[verifier::when_used_as_spec(spec_add_group_members)]
    pub fn add_group_members(group: AccountGroupId, actor: AccountId) -> (check: PermissionCheck)
        ensures
            check == Self::spec_add_group_members(group, actor),
    {
        PermissionCheck::AccountGroup { group, permission: AccountGroupPermission::AddMember, actor }
    }

    /// May `actor` remove members from `group`?
    pub open spec fn spec_remove_group_members(group: AccountGroupId, actor: AccountId) -> PermissionCheck {
        PermissionCheck::AccountGroup { group, permission: AccountGroupPermission::RemoveMember, actor }
    }

    /// May `actor` remove members from `group`?
    #[verifier::when_used_as_spec(spec_remove_group_members)]
    pub fn remove_group_members(group: AccountGroupId, actor: AccountId) -> (check: PermissionCheck)
        ensures
            check == Self::spec_remove_group_members(group, actor),
    {
        PermissionCheck::AccountGroup { group, permission: AccountGroupPermission::RemoveMember, actor }
    }

    /// May `actor` create entities in `web`?
    pub open spec fn spec_create_entity(web: WebId, actor: AccountId) -> PermissionCheck {
        PermissionCheck::Web { web, permission: WebPermission::CreateEntity, actor }
    }

    /// May `actor` create entities in `web`?
    #[verifier::when_used_as_spec(spec_create_entity)]
    pub fn create_entity(web: WebId, actor: AccountId) -> (check: PermissionCheck)
        ensures
            check == Self::spec_create_entity(web, actor),
    {
        PermissionCheck::Web { web, permission: WebPermission::CreateEntity, actor }
    }

    /// May `actor` update `entity`?
    pub open spec fn spec_update_entity(entity: EntityId, actor: AccountId) -> PermissionCheck {
        PermissionCheck::Entity { entity, permission: EntityPermission::Update, actor }
    }

    /// May `actor` update `entity`?
    #[verifier::when_used_as_spec(spec_update_entity)]
    pub fn update_entity(entity: EntityId, actor: AccountId) -> (check: PermissionCheck)
        ensures
            check == Self::spec_update_entity(entity, actor),
    {
        PermissionCheck::Entity { entity, permission: EntityPermission::Update, actor }
    }

    /// May `actor` view `entity`?
    pub open spec fn spec_view_entity(entity: EntityId, actor: AccountId) -> PermissionCheck {
        PermissionCheck::Entity { entity, permission: EntityPermission::View, actor }
    }

    /// May `actor` view `entity`?
    #[verifier::when_used_as_spec(spec_view_entity)]
    pub fn view_entity(entity: EntityId, actor: AccountId) -> (check: PermissionCheck)
        ensures
            check == Self::spec_view_entity(entity, actor),
    {
        PermissionCheck::Entity { entity, permission: EntityPermission::View, actor }
    }
}

/// The relation that lets an account hold a permission on a group:
/// administrators may add and remove members, and members hold `Member`.
/// An administrator is not thereby a member.
pub open spec fn group_relation_for(permission: AccountGroupPermission) -> AccountGroupRelation {
    match permission {
        AccountGroupPermission::AddMember => AccountGroupRelation::DirectAdmin,
        AccountGroupPermission::RemoveMember => AccountGroupRelation::DirectAdmin,
        AccountGroupPermission::Member => AccountGroupRelation::DirectMember,
    }
}

/// Whether `actor` holds `permission` on `group` in `state`.
pub open spec fn group_permits(
    state: Set<RelationTuple>,
    group: AccountGroupId,
    permission: AccountGroupPermission,
    actor: AccountId,
) -> bool {
    state.contains(
        RelationTuple::AccountGroup { group, relation: group_relation_for(permission), member: actor },
    )
}

/// Whether `subject` includes `actor` in `state`.
pub open spec fn subject_includes(state: Set<RelationTuple>, subject: Subject, actor: AccountId) -> bool {
    match subject {
        Subject::Account(account) => account == actor,
        Subject::AccountGroup { group, permission } => group_permits(state, group, permission, actor),
    }
}

/// Whether `actor` is an owner of `web` in `state`, directly or through a group.
pub open spec fn owns_web(state: Set<RelationTuple>, web: WebId, actor: AccountId) -> bool {
    exists|subject: Subject|
        #[trigger] state.contains(RelationTuple::Web { web, relation: WebRelation::DirectOwner, subject })
            && subject_includes(state, subject, actor)
}

/// Whether `actor` is an owner of `entity` in `state`, directly or through a group.
pub open spec fn owns_entity(state: Set<RelationTuple>, entity: EntityId, actor: AccountId) -> bool {
    exists|subject: Subject|
        #[trigger] state.contains(
            RelationTuple::Entity { entity, relation: EntityRelation::DirectOwner, subject },
        ) && subject_includes(state, subject, actor)
}

/// The answer to `check` in `state`. Administrators of a group may add and
/// remove members; its members hold `Member`. Owners of a web may create
/// entities in it. Owners of an entity may update and view it.
pub open spec fn permits(state: Set<RelationTuple>, check: PermissionCheck) -> bool {
    match check {
        PermissionCheck::AccountGroup { group, permission, actor } => group_permits(
            state,
            group,
            permission,
            actor,
        ),
        PermissionCheck::Web { web, permission, actor } => match permission {
            WebPermission::CreateEntity => owns_web(state, web, actor),
        },
        PermissionCheck::Entity { entity, permission, actor } => match permission {
            EntityPermission::Update => owns_entity(state, entity, actor),
            EntityPermission::View => owns_entity(state, entity, actor),
        },
    }
}

/// Whether `tuple`, once it is in `state`, lets `check` pass there.
pub open spec fn grants(state: Set<RelationTuple>, tuple: RelationTuple, check: PermissionCheck) -> bool {
    match tuple {
        RelationTuple::AccountGroup { group, relation, member } => {
            &&& check matches PermissionCheck::AccountGroup { group: on, permission, actor }
            &&& on == group
            &&& actor == member
            &&& group_relation_for(permission) == relation
        },
        RelationTuple::Web { web, relation, subject } => {
            &&& check matches PermissionCheck::Web { web: on, permission, actor }
            &&& on == web
            &&& subject_includes(state, subject, actor)
        },
        RelationTuple::Entity { entity, relation, subject } => {
            &&& check matches PermissionCheck::Entity { entity: on, permission, actor }
            &&& on == entity
            &&& subject_includes(state, subject, actor)
        },
    }
}

/// A check that a tuple of the state grants is permitted.
pub proof fn granted_is_permitted(state: Set<RelationTuple>, tuple: RelationTuple, check: PermissionCheck)
    requires
        state.contains(tuple),
        grants(state, tuple, check),
    ensures
        permits(state, check),
{
    match tuple {
        RelationTuple::AccountGroup { group, relation, member } => {},
        RelationTuple::Web { web, relation, subject } => {
            assert(state.contains(RelationTuple::Web { web, relation: WebRelation::DirectOwner, subject }));
        },
        RelationTuple::Entity { entity, relation, subject } => {
            assert(state.contains(
                RelationTuple::Entity { entity, relation: EntityRelation::DirectOwner, subject },
            ));
        },
    }
}

/// Granting a group the ownership of a web lets exactly the group's members
/// create entities in it, beside those who could before.
pub proof fn group_ownership_reaches_members(
    state: Set<RelationTuple>,
    web: WebId,
    group: AccountGroupId,
    actor: AccountId,
)
    ensures
        owns_web(state.insert(RelationTuple::web_owner(web, OwnerId::AccountGroup(group))), web, actor)
            == (owns_web(state, web, actor) || group_permits(
            state,
            group,
            AccountGroupPermission::Member,
            actor,
        )),
{
    let grant = RelationTuple::web_owner(web, OwnerId::AccountGroup(group));
    let members = Subject::AccountGroup { group, permission: AccountGroupPermission::Member };
    let granted = state.insert(grant);
    assert forall|subject: Subject| subject_includes(granted, subject, actor) == subject_includes(
        state,
        subject,
        actor,
    ) by {}
    if owns_web(state, web, actor) {
        let subject = choose|subject: Subject|
            #[trigger] state.contains(RelationTuple::Web { web, relation: WebRelation::DirectOwner, subject })
                && subject_includes(state, subject, actor);
        assert(granted.contains(RelationTuple::Web { web, relation: WebRelation::DirectOwner, subject }));
    }
    if group_permits(state, group, AccountGroupPermission::Member, actor) {
        assert(granted.contains(
            RelationTuple::Web { web, relation: WebRelation::DirectOwner, subject: members },
        ));
    }
    if owns_web(granted, web, actor) {
        let subject = choose|subject: Subject|
            #[trigger] granted.contains(
                RelationTuple::Web { web, relation: WebRelation::DirectOwner, subject },
            ) && subject_includes(granted, subject, actor);
        if subject != members {
            assert(state.contains(RelationTuple::Web { web, relation: WebRelation::DirectOwner, subject }));
        }
    }
}

/// Group-conditioned ownership. For an actor who does not own `web` in
/// `state`: once `group` is granted the ownership of `web`, the actor may
/// create entities in `web` exactly if a member of `group`; and taking the
/// actor's membership away, with the grant left in place, denies it.
pub proof fn group_ownership_follows_membership(
    state: Set<RelationTuple>,
    web: WebId,
    group: AccountGroupId,
    actor: AccountId,
)
    requires
        !owns_web(state, web, actor),
    ensures
        ({
            let granted = state.insert(RelationTuple::web_owner(web, OwnerId::AccountGroup(group)));
            let check = PermissionCheck::create_entity(web, actor);
            &&& permits(granted, check) == state.contains(RelationTuple::group_member(group, actor))
            &&& !permits(granted.remove(RelationTuple::group_member(group, actor)), check)
        }),
{
    let grant = RelationTuple::web_owner(web, OwnerId::AccountGroup(group));
    let membership = RelationTuple::group_member(group, actor);
    let granted = state.insert(grant);
    let left = granted.remove(membership);
    group_ownership_reaches_members(state, web, group, actor);
    if owns_web(left, web, actor) {
        let subject = choose|subject: Subject|
            #[trigger] left.contains(RelationTuple::Web { web, relation: WebRelation::DirectOwner, subject })
                && subject_includes(left, subject, actor);
        let tuple = RelationTuple::Web { web, relation: WebRelation::DirectOwner, subject };
        if tuple == grant {
            assert(!left.contains(membership));
        } else {
            assert(state.contains(tuple));
        }
    }
}

} // verus!
