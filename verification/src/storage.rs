//! What the library asks of the storage, what the storage answers, and a
//! model of the five tables that says what an answer means.
//!
//! The library never reaches the storage itself. It hands out one request at
//! a time and is handed back the answer; whoever holds the connection does
//! the work in between.

use crate::db_types::{
    Attribute, AttributeType, AttributeTypeView, AttributeView, Entity, EntityAttributeJunction,
    EntityAttributeJunctionView, EntityView, ObjectType, ObjectTypeView,
};
use vstd::prelude::*;

verus! {

/// One thing that the storage is asked to do. A row that is to be stored
/// gets an `id` of the storage's choosing, whatever `id` it comes with.
#[derive(Debug, Clone, PartialEq, Eq)]
pub enum StorageRequest {
    /// Store this object.
    InsertEntity(Entity),
    /// Say whether a kind of object with this `ky` is stored.
    FindObjectType { ky: String },
    /// Store this kind of object.
    InsertObjectType(ObjectType),
    /// Store this schema of an attribute.
    InsertAttributeType(AttributeType),
    /// Store this value of an attribute.
    InsertAttribute(Attribute),
    /// Store this link between an object and a value.
    InsertEntityAttributeJunction(EntityAttributeJunction),
}

/// What a [`StorageRequest`] holds.
pub enum StorageRequestView {
    InsertEntity(EntityView),
    FindObjectType { ky: Seq<char> },
    InsertObjectType(ObjectTypeView),
    InsertAttributeType(AttributeTypeView),
    InsertAttribute(AttributeView),
    InsertEntityAttributeJunction(EntityAttributeJunctionView),
}

impl View for StorageRequest {
    type V = StorageRequestView;

    open spec fn view(&self) -> StorageRequestView {
        match self {
            StorageRequest::InsertEntity(row) => StorageRequestView::InsertEntity(row@),
            StorageRequest::FindObjectType { ky } => StorageRequestView::FindObjectType { ky: ky@ },
            StorageRequest::InsertObjectType(row) => StorageRequestView::InsertObjectType(row@),
            StorageRequest::InsertAttributeType(row) => StorageRequestView::InsertAttributeType(
                row@,
            ),
            StorageRequest::InsertAttribute(row) => StorageRequestView::InsertAttribute(row@),
            StorageRequest::InsertEntityAttributeJunction(
                row,
            ) => StorageRequestView::InsertEntityAttributeJunction(row@),
        }
    }
}

/// What the storage answers to one request. The row in an answer is the row
/// as it is stored, with its `id`.
#[derive(Debug, Clone, PartialEq, Eq)]
pub enum StorageReply {
    /// The object is stored.
    EntityInserted(Entity),
    /// Whether a kind of object with the `ky` asked for is stored.
    ObjectTypeLookup { found: bool },
    /// The kind of object is stored.
    ObjectTypeInserted(ObjectType),
    /// The schema is stored.
    AttributeTypeInserted(AttributeType),
    /// The value is stored.
    AttributeInserted(Attribute),
    /// The link is stored.
    EntityAttributeJunctionInserted(EntityAttributeJunction),
    /// The storage could not do what it was asked.
    Failed,
}

/// What a [`StorageReply`] holds.
pub enum StorageReplyView {
    EntityInserted(EntityView),
    ObjectTypeLookup { found: bool },
    ObjectTypeInserted(ObjectTypeView),
    AttributeTypeInserted(AttributeTypeView),
    AttributeInserted(AttributeView),
    EntityAttributeJunctionInserted(EntityAttributeJunctionView),
    Failed,
}

impl View for StorageReply {
    type V = StorageReplyView;

    open spec fn view(&self) -> StorageReplyView {
        match self {
            StorageReply::EntityInserted(row) => StorageReplyView::EntityInserted(row@),
            StorageReply::ObjectTypeLookup { found } => StorageReplyView::ObjectTypeLookup {
                found: *found,
            },
            StorageReply::ObjectTypeInserted(row) => StorageReplyView::ObjectTypeInserted(row@),
            StorageReply::AttributeTypeInserted(row) => StorageReplyView::AttributeTypeInserted(
                row@,
            ),
            StorageReply::AttributeInserted(row) => StorageReplyView::AttributeInserted(row@),
            StorageReply::EntityAttributeJunctionInserted(
                row,
            ) => StorageReplyView::EntityAttributeJunctionInserted(row@),
            StorageReply::Failed => StorageReplyView::Failed,
        }
    }
}

/// A failure of the storage. It says no more than that a request was not
/// carried out.
#[derive(Debug, Clone, Copy, PartialEq, Eq, Structural)]
pub struct StorageError {}

/// How many of the rows have the key `ky`.
pub open spec fn count_key(rows: Seq<ObjectTypeView>, ky: Seq<char>) -> nat
    decreases rows.len(),
{
    if rows.len() == 0 {
        0
    } else {
        count_key(rows.drop_last(), ky) + if rows.last().ky == ky {
            1nat
        } else {
            0nat
        }
    }
}

/// Whether the `id`s of the rows of one table are as the storage gives
/// them: positive, and no two the same.
pub open spec fn ids_are_sound(ids: Seq<int>) -> bool {
    &&& forall|i: int| 0 <= i < ids.len() ==> #[trigger] ids[i] > 0
    &&& forall|i: int, j: int| 0 <= i < j < ids.len() ==> #[trigger] ids[i] != #[trigger] ids[j]
}

/// Whether `id` can be given to a new row of a table with these `id`s: it
/// is positive and no row has it.
pub open spec fn id_is_free(ids: Seq<int>, id: int) -> bool {
    id > 0 && forall|i: int| 0 <= i < ids.len() ==> #[trigger] ids[i] != id
}

/// What one request meets at the storage: it fails, or it is carried out,
/// and a row that it stores gets the `id` named here.
pub struct Turn {
    pub fails: bool,
    pub id: int,
}

/// The rows of the five tables, each table in the order in which its rows
/// were stored.
pub struct Tables {
    pub entities: Seq<EntityView>,
    pub object_types: Seq<ObjectTypeView>,
    pub attribute_types: Seq<AttributeTypeView>,
    pub attributes: Seq<AttributeView>,
    pub junctions: Seq<EntityAttributeJunctionView>,
}

impl Tables {
    /// Whether a kind of object with the key `ky` is stored.
    pub open spec fn holds_key(self, ky: Seq<char>) -> bool {
        exists|i: int|
            0 <= i < self.object_types.len() && (#[trigger] self.object_types[i]).ky == ky
    }

    /// The `id`s of the table that a request stores a row in; none for a
    /// request that stores nothing.
    pub open spec fn ids(self, request: StorageRequestView) -> Seq<int> {
        match request {
            StorageRequestView::InsertEntity(_) => self.entities.map_values(|r: EntityView| r.id),
            StorageRequestView::FindObjectType { ky } => Seq::empty(),
            StorageRequestView::InsertObjectType(_) => self.object_types.map_values(
                |r: ObjectTypeView| r.id,
            ),
            StorageRequestView::InsertAttributeType(_) => self.attribute_types.map_values(
                |r: AttributeTypeView| r.id,
            ),
            StorageRequestView::InsertAttribute(_) => self.attributes.map_values(
                |r: AttributeView| r.id,
            ),
            StorageRequestView::InsertEntityAttributeJunction(_) => self.junctions.map_values(
                |r: EntityAttributeJunctionView| r.id,
            ),
        }
    }

    /// In every table, every row has a positive `id` and no two rows have
    /// the same.
    pub open spec fn well_formed(self) -> bool {
        &&& ids_are_sound(self.entities.map_values(|r: EntityView| r.id))
        &&& ids_are_sound(self.object_types.map_values(|r: ObjectTypeView| r.id))
        &&& ids_are_sound(self.attribute_types.map_values(|r: AttributeTypeView| r.id))
        &&& ids_are_sound(self.attributes.map_values(|r: AttributeView| r.id))
        &&& ids_are_sound(self.junctions.map_values(|r: EntityAttributeJunctionView| r.id))
    }

    /// What the tables hold after one request, and the answer to it. A
    /// request that fails changes nothing. A row that is stored is put last
    /// in its table, under the `id` of the turn in place of the one it came
    /// with, and is the answer; looking for a key changes nothing.
    pub open spec fn serve(self, request: StorageRequestView, turn: Turn) -> (
        Tables,
        StorageReplyView,
    ) {
        if turn.fails {
            (self, StorageReplyView::Failed)
        } else {
            match request {
                StorageRequestView::InsertEntity(row) => {
                    let stored = EntityView { id: turn.id, ..row };
                    (
                        Tables { entities: self.entities.push(stored), ..self },
                        StorageReplyView::EntityInserted(stored),
                    )
                },
                StorageRequestView::FindObjectType { ky } => (
                    self,
                    StorageReplyView::ObjectTypeLookup { found: self.holds_key(ky) },
                ),
                StorageRequestView::InsertObjectType(row) => {
                    let stored = ObjectTypeView { id: turn.id, ..row };
                    (
                        Tables { object_types: self.object_types.push(stored), ..self },
                        StorageReplyView::ObjectTypeInserted(stored),
                    )
                },
                StorageRequestView::InsertAttributeType(row) => {
                    let stored = AttributeTypeView { id: turn.id, ..row };
                    (
                        Tables { attribute_types: self.attribute_types.push(stored), ..self },
                        StorageReplyView::AttributeTypeInserted(stored),
                    )
                },
                StorageRequestView::InsertAttribute(row) => {
                    let stored = AttributeView { id: turn.id, ..row };
                    (
                        Tables { attributes: self.attributes.push(stored), ..self },
                        StorageReplyView::AttributeInserted(stored),
                    )
                },
                StorageRequestView::InsertEntityAttributeJunction(row) => {
                    let stored = EntityAttributeJunctionView { id: turn.id, ..row };
                    (
                        Tables { junctions: self.junctions.push(stored), ..self },
                        StorageReplyView::EntityAttributeJunctionInserted(stored),
                    )
                },
            }
        }
    }
}

/// One more row adds one to the count of its own key and nothing to the
/// count of any other.
pub proof fn lemma_count_key_push(rows: Seq<ObjectTypeView>, row: ObjectTypeView, ky: Seq<char>)
    ensures
        count_key(rows.push(row), ky) == count_key(rows, ky) + if row.ky == ky {
            1nat
        } else {
            0nat
        },
{
    assert(rows.push(row).drop_last() =~= rows);
}

/// A key is counted at least once exactly where a row has it.
pub proof fn lemma_count_key_positive(rows: Seq<ObjectTypeView>, ky: Seq<char>)
    ensures
        count_key(rows, ky) > 0 <==> exists|i: int|
            0 <= i < rows.len() && (#[trigger] rows[i]).ky == ky,
    decreases rows.len(),
{
    if rows.len() > 0 {
        let front = rows.drop_last();
        lemma_count_key_positive(front, ky);
        if count_key(rows, ky) > 0 {
            if rows.last().ky == ky {
                assert(rows[rows.len() - 1].ky == ky);
            } else {
                let i = choose|i: int| 0 <= i < front.len() && (#[trigger] front[i]).ky == ky;
                assert(rows[i].ky == ky);
            }
        }
        if exists|i: int| 0 <= i < rows.len() && (#[trigger] rows[i]).ky == ky {
            let i = choose|i: int| 0 <= i < rows.len() && (#[trigger] rows[i]).ky == ky;
            if i < rows.len() - 1 {
                assert(front[i].ky == ky);
            }
        }
    }
}

/// One more `id` that was free leaves the `id`s of a table sound.
pub proof fn lemma_free_id_keeps_ids_sound(ids: Seq<int>, id: int)
    requires
        ids_are_sound(ids),
        id_is_free(ids, id),
    ensures
        ids_are_sound(ids.push(id)),
{
}

/// Whatever is asked, the tables stay well formed as long as a row that is
/// stored gets an `id` that is free in its table.
pub proof fn lemma_serve_keeps_well_formed(tables: Tables, request: StorageRequestView, turn: Turn)
    requires
        tables.well_formed(),
        id_is_free(tables.ids(request), turn.id) || turn.fails || request is FindObjectType,
    ensures
        tables.serve(request, turn).0.well_formed(),
{
    let after = tables.serve(request, turn).0;
    if !turn.fails && !(request is FindObjectType) {
        lemma_free_id_keeps_ids_sound(tables.ids(request), turn.id);
        assert(after.ids(request) =~= tables.ids(request).push(turn.id));
    }
}

} // verus!
