//! The rows of the five tables, as the storage holds them.

use crate::api_types;
use crate::storage::{StorageRequest, StorageRequestView};
use crate::timestamp::Timestamp;
use vstd::prelude::*;

verus! {

/// A kind of object. `ky` is the name by which the business knows the kind;
/// `id` is given by the storage and is 0 before the row is stored.
#[derive(Debug, Clone, PartialEq, Eq)]
pub struct ObjectType {
    pub id: i32,
    pub name: String,
    pub ky: String,
    pub description: String,
    pub locale_key: String,
    pub deleted: bool,
}

/// What an [`ObjectType`] row holds.
pub struct ObjectTypeView {
    pub id: int,
    pub name: Seq<char>,
    pub ky: Seq<char>,
    pub description: Seq<char>,
    pub locale_key: Seq<char>,
    pub deleted: bool,
}

impl View for ObjectType {
    type V = ObjectTypeView;

    open spec fn view(&self) -> ObjectTypeView {
        ObjectTypeView {
            id: self.id as int,
            name: self.name@,
            ky: self.ky@,
            description: self.description@,
            locale_key: self.locale_key@,
            deleted: self.deleted,
        }
    }
}

impl ObjectTypeView {
    /// The kind of object that this row holds, as it goes over the wire:
    /// every field as it is, `ky` under the name `key`.
    pub open spec fn wire(self) -> api_types::ObjectTypeView {
        api_types::ObjectTypeView {
            id: self.id,
            name: self.name,
            key: self.ky,
            description: self.description,
            locale_key: self.locale_key,
            deleted: self.deleted,
        }
    }
}

impl vstd::std_specs::convert::FromSpecImpl<api_types::ObjectType> for ObjectType {
    open spec fn obeys_from_spec() -> bool {
        true
    }

    open spec fn from_spec(v: api_types::ObjectType) -> Self {
        ObjectType {
            id: v.id,
            name: v.name,
            ky: v.key,
            description: v.description,
            locale_key: v.locale_key,
            deleted: v.deleted,
        }
    }
}

impl From<api_types::ObjectType> for ObjectType {
    /// The row for a kind of object as it came over the wire: every field
    /// as it is, `key` under the name `ky`.
    fn from(v: api_types::ObjectType) -> (row: Self) {
        ObjectType {
            id: v.id,
            name: v.name,
            ky: v.key,
            description: v.description,
            locale_key: v.locale_key,
            deleted: v.deleted,
        }
    }
}

impl ObjectType {
    /// What is asked of the storage to store this row.
    pub fn insert(self) -> (request: StorageRequest)
        ensures
            request@ == StorageRequestView::InsertObjectType(self@),
    {
        StorageRequest::InsertObjectType(self)
    }
}

/// The schema of an attribute: its name and the tag of the kind of value it
/// takes.
#[derive(Debug, Clone, PartialEq, Eq)]
pub struct AttributeType {
    pub id: i32,
    pub name: String,
    pub ky: String,
    pub locale_key: String,
    pub datatype: String,
}

/// What an [`AttributeType`] row holds.
pub struct AttributeTypeView {
    pub id: int,
    pub name: Seq<char>,
    pub ky: Seq<char>,
    pub locale_key: Seq<char>,
    pub datatype: Seq<char>,
}

impl View for AttributeType {
    type V = AttributeTypeView;

    open spec fn view(&self) -> AttributeTypeView {
        AttributeTypeView {
            id: self.id as int,
            name: self.name@,
            ky: self.ky@,
            locale_key: self.locale_key@,
            datatype: self.datatype@,
        }
    }
}

impl AttributeType {
    /// What is asked of the storage to store this row.
    pub fn insert(self) -> (request: StorageRequest)
        ensures
            request@ == StorageRequestView::InsertAttributeType(self@),
    {
        StorageRequest::InsertAttributeType(self)
    }
}

/// One value of an attribute. `ty` is the name of its [`AttributeType`],
/// `json_data` the JSON text of the value.
#[derive(Debug, Clone, PartialEq, Eq)]
pub struct Attribute {
    pub id: i32,
    pub ty: String,
    pub json_data: String,
}

/// What an [`Attribute`] row holds.
pub struct AttributeView {
    pub id: int,
    pub ty: Seq<char>,
    pub json_data: Seq<char>,
}

impl View for Attribute {
    type V = AttributeView;

    open spec fn view(&self) -> AttributeView {
        AttributeView { id: self.id as int, ty: self.ty@, json_data: self.json_data@ }
    }
}

impl Attribute {
    /// What is asked of the storage to store this row.
    pub fn insert(self) -> (request: StorageRequest)
        ensures
            request@ == StorageRequestView::InsertAttribute(self@),
    {
        StorageRequest::InsertAttribute(self)
    }
}

/// One object. The two positions are the 32 bits of a binary floating-point
/// number each; `ty` is the `id` of the object's [`ObjectType`].
#[derive(Debug, Clone, PartialEq, Eq)]
pub struct Entity {
    pub id: i32,
    pub latitude_position: u32,
    pub longitude_position: u32,
    pub created_by: String,
    pub edited_by: String,
    pub created_at: Timestamp,
    pub edited_at: Timestamp,
    pub geo_json: String,
    pub prop_json: String,
    pub ky: String,
    pub ty: i32,
    pub deleted: bool,
}

/// What an [`Entity`] row holds.
pub struct EntityView {
    pub id: int,
    pub latitude_position: u32,
    pub longitude_position: u32,
    pub created_by: Seq<char>,
    pub edited_by: Seq<char>,
    pub created_at: int,
    pub edited_at: int,
    pub geo_json: Seq<char>,
    pub prop_json: Seq<char>,
    pub ky: Seq<char>,
    pub ty: int,
    pub deleted: bool,
}

impl View for Entity {
    type V = EntityView;

    open spec fn view(&self) -> EntityView {
        EntityView {
            id: self.id as int,
            latitude_position: self.latitude_position,
            longitude_position: self.longitude_position,
            created_by: self.created_by@,
            edited_by: self.edited_by@,
            created_at: self.created_at@,
            edited_at: self.edited_at@,
            geo_json: self.geo_json@,
            prop_json: self.prop_json@,
            ky: self.ky@,
            ty: self.ty as int,
            deleted: self.deleted,
        }
    }
}

impl Entity {
    /// What is asked of the storage to store this row.
    pub fn insert(self) -> (request: StorageRequest)
        ensures
            request@ == StorageRequestView::InsertEntity(self@),
    {
        StorageRequest::InsertEntity(self)
    }
}

/// The link between one object and one of its attribute values.
#[derive(Debug, Clone, Copy, PartialEq, Eq)]
pub struct EntityAttributeJunction {
    pub id: i32,
    pub entity_id: i32,
    pub attribute_id: i32,
}

/// What an [`EntityAttributeJunction`] row holds.
pub struct EntityAttributeJunctionView {
    pub id: int,
    pub entity_id: int,
    pub attribute_id: int,
}

impl View for EntityAttributeJunction {
    type V = EntityAttributeJunctionView;

    open spec fn view(&self) -> EntityAttributeJunctionView {
        EntityAttributeJunctionView {
            id: self.id as int,
            entity_id: self.entity_id as int,
            attribute_id: self.attribute_id as int,
        }
    }
}

impl EntityAttributeJunction {
    /// What is asked of the storage to store this row.
    pub fn insert(self) -> (request: StorageRequest)
        ensures
            request@ == StorageRequestView::InsertEntityAttributeJunction(self@),
    {
        StorageRequest::InsertEntityAttributeJunction(self)
    }
}

} // verus!
