//! Entities and the metadata that versions them.

use vstd::prelude::*;
use crate::schema::{AccountId, EntityId};

verus! {

/// The revision counter of an entity. It starts at 0 and grows by one with
/// every update that succeeds.
#[derive(Clone, Copy, Debug, PartialEq, Eq, Structural, Hash)]
pub struct EntityEditionId(pub u64);

/// One edition of one entity.
#[derive(Clone, Copy, Debug, PartialEq, Eq, Structural, Hash)]
pub struct EntityRecordId {
    pub entity_id: EntityId,
    pub edition_id: EntityEditionId,
}

/// The versioned address of an entity type.
#[derive(Debug)]
pub struct VersionedUrl {
    pub base_url: String,
    pub version: u32,
}

/// The properties of an entity, as a JSON document.
#[derive(Debug)]
pub struct EntityProperties {
    pub json: String,
}

/// Where a link entity stands among the links of its two ends.
#[derive(Clone, Copy, Debug, PartialEq, Eq, Structural)]
pub struct EntityLinkOrder {
    pub left_to_right: Option<i32>,
    pub right_to_left: Option<i32>,
}

/// The two ends of a link entity.
#[derive(Clone, Copy, Debug, PartialEq, Eq, Structural)]
pub struct LinkData {
    pub left_entity_id: EntityId,
    pub right_entity_id: EntityId,
    pub order: EntityLinkOrder,
}

/// Who wrote an edition.
#[derive(Clone, Copy, Debug, PartialEq, Eq, Structural)]
pub struct ProvenanceMetadata {
    pub record_created_by_id: AccountId,
}

/// What the store records about the current edition of an entity.
#[derive(Debug)]
pub struct EntityMetadata {
    pub record_id: EntityRecordId,
    pub entity_type_id: VersionedUrl,
    pub provenance: ProvenanceMetadata,
    pub archived: bool,
}

/// An entity at its current edition.
#[derive(Debug)]
pub struct Entity {
    pub properties: EntityProperties,
    pub link_data: Option<LinkData>,
    pub metadata: EntityMetadata,
}

impl Clone for VersionedUrl {
    fn clone(&self) -> (copy: Self)
        ensures
            copy == *self,
    {
        VersionedUrl { base_url: self.base_url.clone(), version: self.version }
    }
}

impl Clone for EntityProperties {
    fn clone(&self) -> (copy: Self)
        ensures
            copy == *self,
    {
        EntityProperties { json: self.json.clone() }
    }
}

impl Clone for EntityMetadata {
    fn clone(&self) -> (copy: Self)
        ensures
            copy == *self,
    {
        EntityMetadata {
            record_id: self.record_id,
            entity_type_id: self.entity_type_id.clone(),
            provenance: self.provenance,
            archived: self.archived,
        }
    }
}

impl Clone for Entity {
    fn clone(&self) -> (copy: Self)
        ensures
            copy == *self,
    {
        Entity {
            properties: self.properties.clone(),
            link_data: self.link_data,
            metadata: self.metadata.clone(),
        }
    }
}

impl Entity {
    /// The identifier of the entity.
    pub open spec fn id(self) -> EntityId {
        self.metadata.record_id.entity_id
    }

    /// The edition the entity is at.
    pub open spec fn edition(self) -> EntityEditionId {
        self.metadata.record_id.edition_id
    }
}

impl LinkData {
    /// The same link with its order replaced by `order`.
    pub open spec fn reordered(self, order: EntityLinkOrder) -> LinkData {
        LinkData { order, ..self }
    }
}

} // verus!
