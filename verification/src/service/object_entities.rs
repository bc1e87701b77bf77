//! Storing a new object.

use crate::api_types::{attribute_rows_view, ObjectEntity, ObjectEntityView};
use crate::db_types::{
    Attribute, AttributeType, AttributeTypeView, AttributeView, EntityView, ObjectType,
    ObjectTypeView,
};
use crate::storage::{
    count_key, lemma_count_key_positive, lemma_count_key_push, StorageError, StorageReply,
    StorageReplyView, StorageRequest, StorageRequestView, Tables, Turn,
};
use vstd::prelude::*;

verus! {

/// How far the storing of one object has come.
#[derive(Debug, Clone, PartialEq, Eq)]
pub enum WriteState {
    /// The storage was asked to store the object.
    StoringEntity { object_type: ObjectType, rows: Vec<(Attribute, AttributeType)> },
    /// The object is stored; the storage was asked whether its kind is.
    FindingObjectType { object_type: ObjectType, rows: Vec<(Attribute, AttributeType)> },
    /// The kind was not found; the storage was asked to store it.
    StoringObjectType { rows: Vec<(Attribute, AttributeType)> },
    /// The object and its kind are stored. The rows of its attributes are
    /// set apart, values and schemas, and are not stored.
    Done { attributes: Vec<Attribute>, attribute_types: Vec<AttributeType> },
    /// The storage failed. What was stored before stays stored.
    Failed,
}

/// What a [`WriteState`] holds.
pub enum WriteStateView {
    StoringEntity { object_type: ObjectTypeView, rows: Seq<(AttributeView, AttributeTypeView)> },
    FindingObjectType {
        object_type: ObjectTypeView,
        rows: Seq<(AttributeView, AttributeTypeView)>,
    },
    StoringObjectType { rows: Seq<(AttributeView, AttributeTypeView)> },
    Done { attributes: Seq<AttributeView>, attribute_types: Seq<AttributeTypeView> },
    Failed,
}

impl View for WriteState {
    type V = WriteStateView;

    open spec fn view(&self) -> WriteStateView {
        match self {
            WriteState::StoringEntity { object_type, rows } => WriteStateView::StoringEntity {
                object_type: object_type@,
                rows: attribute_rows_view(rows@),
            },
            WriteState::FindingObjectType {
                object_type,
                rows,
            } => WriteStateView::FindingObjectType {
                object_type: object_type@,
                rows: attribute_rows_view(rows@),
            },
            WriteState::StoringObjectType { rows } => WriteStateView::StoringObjectType {
                rows: attribute_rows_view(rows@),
            },
            WriteState::Done { attributes, attribute_types } => WriteStateView::Done {
                attributes: attributes@.map_values(|a: Attribute| a@),
                attribute_types: attribute_types@.map_values(|t: AttributeType| t@),
            },
            WriteState::Failed => WriteStateView::Failed,
        }
    }
}

/// The state in which the rows of the attributes are set apart: the value
/// rows in one list, the schema rows in another, both in the order of the
/// pairs.
pub open spec fn done(pairs: Seq<(AttributeView, AttributeTypeView)>) -> WriteStateView {
    WriteStateView::Done {
        attributes: pairs.map_values(|p: (AttributeView, AttributeTypeView)| p.0),
        attribute_types: pairs.map_values(|p: (AttributeView, AttributeTypeView)| p.1),
    }
}

/// The start of storing an object: the storage is asked to store the row of
/// the object, whatever is stored already.
pub open spec fn begun(object: ObjectEntityView) -> (WriteStateView, StorageRequestView) {
    (
        WriteStateView::StoringEntity {
            object_type: object.object_type(),
            rows: object.attribute_rows(),
        },
        StorageRequestView::InsertEntity(object.entity()),
    )
}

/// What follows an answer of the storage: the next state, and what is asked
/// of the storage next, if anything.
///
/// Once the object is stored, its kind is looked for by `ky`. A kind that is
/// found is left as it is stored, and the object's own description of it is
/// dropped; a kind that is not found is stored. Looking and storing are two
/// requests, and nothing keeps another writer from storing the same `ky`
/// in between. A failure, or an answer that does not fit the state, ends in
/// `Failed` with nothing more asked; nothing is undone.
pub open spec fn step(state: WriteStateView, reply: StorageReplyView) -> (
    WriteStateView,
    Option<StorageRequestView>,
) {
    match state {
        WriteStateView::StoringEntity { object_type, rows } => match reply {
            StorageReplyView::EntityInserted(_) => (
                WriteStateView::FindingObjectType { object_type, rows },
                Some(StorageRequestView::FindObjectType { ky: object_type.ky }),
            ),
            _ => (WriteStateView::Failed, None),
        },
        WriteStateView::FindingObjectType { object_type, rows } => match reply {
            StorageReplyView::ObjectTypeLookup { found } => if found {
                (done(rows), None)
            } else {
                (
                    WriteStateView::StoringObjectType { rows },
                    Some(StorageRequestView::InsertObjectType(object_type)),
                )
            },
            _ => (WriteStateView::Failed, None),
        },
        WriteStateView::StoringObjectType { rows } => match reply {
            StorageReplyView::ObjectTypeInserted(_) => (done(rows), None),
            _ => (WriteStateView::Failed, None),
        },
        WriteStateView::Done { attributes, attribute_types } => (state, None),
        WriteStateView::Failed => (state, None),
    }
}

/// What a request that may be missing holds.
pub open spec fn request_view(request: Option<StorageRequest>) -> Option<StorageRequestView> {
    match request {
        Some(request) => Some(request@),
        None => None,
    }
}

/// Sets the rows of the attributes apart: the value rows in one list, the
/// schema rows in another.
fn split(pairs: Vec<(Attribute, AttributeType)>) -> (state: WriteState)
    ensures
        state@ == done(attribute_rows_view(pairs@)),
{
    let ghost given = pairs@;
    let mut attributes: Vec<Attribute> = Vec::new();
    let mut attribute_types: Vec<AttributeType> = Vec::new();
    for pair in iter: pairs
        invariant
            iter.seq() == given,
            attributes.len() == iter.index(),
            attribute_types.len() == iter.index(),
            forall|j: int| 0 <= j < attributes.len() ==> (#[trigger] attributes[j]) == given[j].0,
            forall|j: int|
                0 <= j < attribute_types.len() ==> (#[trigger] attribute_types[j]) == given[j].1,
    {
        let (value, schema) = pair;
        attributes.push(value);
        attribute_types.push(schema);
    }
    let state = WriteState::Done { attributes, attribute_types };
    proof {
        let want = done(attribute_rows_view(given));
        assert(state@->attributes =~= want->attributes);
        assert(state@->attribute_types =~= want->attribute_types);
    }
    state
}

/// Starts the storing of an object that came over the wire: takes it apart
/// into its rows and asks the storage to store the row of the object.
pub fn post(val: ObjectEntity) -> (start: (WriteState, StorageRequest))
    ensures
        (start.0@, start.1@) == begun(val@),
{
    let (entity, object_type, rows) = val.into_db();
    (WriteState::StoringEntity { object_type, rows }, entity.insert())
}

impl WriteStateView {
    /// How the storing has ended: well in `Done`, with a failure of the
    /// storage in `Failed`; nothing while it goes on.
    pub open spec fn outcome(self) -> Option<Result<(), StorageError>> {
        match self {
            WriteStateView::Done { attributes, attribute_types } => Some(Ok(())),
            WriteStateView::Failed => Some(Err(StorageError {  })),
            _ => None,
        }
    }
}

impl WriteState {
    /// How the storing has ended, if it has.
    pub fn outcome(&self) -> (ended: Option<Result<(), StorageError>>)
        ensures
            ended == self@.outcome(),
    {
        match self {
            WriteState::Done { attributes: _, attribute_types: _ } => Some(Ok(())),
            WriteState::Failed => Some(Err(StorageError {  })),
            _ => None,
        }
    }

    /// Takes the storage's answer to the last request and says what is
    /// asked next; nothing where the storing has ended, in `Done` or in
    /// `Failed`.
    pub fn advance(self, reply: StorageReply) -> (next: (WriteState, Option<StorageRequest>))
        ensures
            (next.0@, request_view(next.1)) == step(self@, reply@),
    {
        match self {
            WriteState::StoringEntity { object_type, rows } => match reply {
                StorageReply::EntityInserted(_) => {
                    let ky = object_type.ky.clone();
                    (
                        WriteState::FindingObjectType { object_type, rows },
                        Some(StorageRequest::FindObjectType { ky }),
                    )
                },
                _ => (WriteState::Failed, None),
            },
            WriteState::FindingObjectType { object_type, rows } => match reply {
                StorageReply::ObjectTypeLookup { found } => {
                    if found {
                        (split(rows), None)
                    } else {
                        (
                            WriteState::StoringObjectType { rows },
                            Some(object_type.insert()),
                        )
                    }
                },
                _ => (WriteState::Failed, None),
            },
            WriteState::StoringObjectType { rows } => match reply {
                StorageReply::ObjectTypeInserted(_) => (split(rows), None),
                _ => (WriteState::Failed, None),
            },
            WriteState::Done { attributes, attribute_types } => (
                WriteState::Done { attributes, attribute_types },
                None,
            ),
            WriteState::Failed => (WriteState::Failed, None),
        }
    }
}

/// Where the storing stands, and what the tables hold, after the storage
/// has taken one request after the other, one turn each, for as long as
/// there are turns and something is asked.
pub open spec fn run(
    tables: Tables,
    state: WriteStateView,
    request: StorageRequestView,
    turns: Seq<Turn>,
) -> (Tables, WriteStateView)
    decreases turns.len(),
{
    if turns.len() == 0 {
        (tables, state)
    } else {
        let (after, reply) = tables.serve(request, turns[0]);
        let (next, more) = step(state, reply);
        match more {
            Some(request) => run(after, next, request, turns.drop_first()),
            None => (after, next),
        }
    }
}

/// What the tables hold, and where the storing stands, once an object has
/// been handed in and the storage has taken its turns, with no other writer
/// in between.
pub open spec fn submitted(tables: Tables, object: ObjectEntityView, turns: Seq<Turn>) -> (
    Tables,
    WriteStateView,
) {
    run(tables, begun(object).0, begun(object).1, turns)
}

/// Three turns in which nothing fails: the object gets `entity_id`, the
/// looking for its kind is answered, and the kind, where it is stored, gets
/// `object_type_id`.
pub open spec fn unfailing(entity_id: int, object_type_id: int) -> Seq<Turn> {
    seq![
        Turn { fails: false, id: entity_id },
        Turn { fails: false, id: 0 },
        Turn { fails: false, id: object_type_id },
    ]
}

/// Three turns of which the last fails: the object gets `entity_id`, the
/// looking for its kind is answered, and the storing of the kind fails.
pub open spec fn failing_at_object_type(entity_id: int) -> Seq<Turn> {
    seq![
        Turn { fails: false, id: entity_id },
        Turn { fails: false, id: 0 },
        Turn { fails: true, id: 0 },
    ]
}

/// Every way in which the storing of one object can end, with no other
/// writer in between. It ends within three turns, and nothing that was
/// stored is taken back:
///
/// - the storing of the object fails: `Failed`, and nothing is stored;
/// - the looking for the kind fails: `Failed`, and the object is stored;
/// - a kind with the key is found: `Done`, and the object is stored;
/// - none is found and the storing of the kind fails: `Failed`, and the
///   object is stored;
/// - none is found and the kind is stored: `Done`, and both are stored.
pub proof fn lemma_submission_ends(tables: Tables, object: ObjectEntityView, turns: Seq<Turn>)
    requires
        turns.len() >= 3,
    ensures
        ({
            let (after, state) = submitted(tables, object, turns);
            let entity = EntityView { id: turns[0].id, ..object.entity() };
            let kind = ObjectTypeView { id: turns[2].id, ..object.object_type() };
            let stored_entity = Tables { entities: tables.entities.push(entity), ..tables };
            let stored_both = Tables {
                object_types: tables.object_types.push(kind),
                ..stored_entity
            };
            if turns[0].fails {
                state is Failed && after == tables
            } else if turns[1].fails {
                state is Failed && after == stored_entity
            } else if tables.holds_key(object.ty.key) {
                state == done(object.attribute_rows()) && after == stored_entity
            } else if turns[2].fails {
                state is Failed && after == stored_entity
            } else {
                state == done(object.attribute_rows()) && after == stored_both
            }
        }),
{
    let (s0, q0) = begun(object);
    let (t1, r0) = tables.serve(q0, turns[0]);
    let (s1, q1) = step(s0, r0);
    let rest1 = turns.drop_first();
    assert(rest1.len() >= 2 && rest1[0] == turns[1] && rest1[1] == turns[2]);
    if !turns[0].fails {
        assert(t1.object_types == tables.object_types);
        let (t2, r1) = t1.serve(q1->0, rest1[0]);
        let (s2, q2) = step(s1, r1);
        let rest2 = rest1.drop_first();
        assert(rest2.len() >= 1 && rest2[0] == turns[2]);
        assert(run(tables, s0, q0, turns) == run(t1, s1, q1->0, rest1));
        if !turns[1].fails && !tables.holds_key(object.ty.key) {
            let (t3, r2) = t2.serve(q2->0, rest2[0]);
            let (s3, q3) = step(s2, r2);
            assert(run(t1, s1, q1->0, rest1) == run(t2, s2, q2->0, rest2));
            assert(run(t2, s2, q2->0, rest2) == (t3, s3));
        } else {
            assert(run(t1, s1, q1->0, rest1) == (t2, s2));
        }
    }
}

/// An object that is handed in while nothing fails is stored, last among the
/// objects and under the `id` that the storage gave it; its kind is stored,
/// last among the kinds, only where no kind with its key was stored before.
pub proof fn lemma_submitted(
    tables: Tables,
    object: ObjectEntityView,
    entity_id: int,
    object_type_id: int,
)
    ensures
        ({
            let (after, state) = submitted(tables, object, unfailing(entity_id, object_type_id));
            &&& state == done(object.attribute_rows())
            &&& after.entities == tables.entities.push(
                EntityView { id: entity_id, ..object.entity() },
            )
            &&& after.object_types == if tables.holds_key(object.ty.key) {
                tables.object_types
            } else {
                tables.object_types.push(
                    ObjectTypeView { id: object_type_id, ..object.object_type() },
                )
            }
        }),
{
    lemma_submission_ends(tables, object, unfailing(entity_id, object_type_id));
}

/// Two objects of one kind, handed in one after the other while nothing
/// fails and no other writer comes in between, leave one row for the kind
/// and one row for each object.
///
/// Where no kind with their key was stored before, exactly one is stored
/// afterwards, and it is the first object's description of the kind; where
/// kinds with that key were stored, they are the same as before. Both
/// objects are stored, the first before the second, and both rows name the
/// same kind in `ty`: the 0 that an object is written with.
pub proof fn lemma_same_key_stores_one_object_type(
    tables: Tables,
    first: ObjectEntityView,
    second: ObjectEntityView,
    first_entity_id: int,
    first_object_type_id: int,
    second_entity_id: int,
    second_object_type_id: int,
)
    requires
        first.ty.key == second.ty.key,
    ensures
        ({
            let key = first.ty.key;
            let (t1, s1) = submitted(
                tables,
                first,
                unfailing(first_entity_id, first_object_type_id),
            );
            let (t2, s2) = submitted(
                t1,
                second,
                unfailing(second_entity_id, second_object_type_id),
            );
            let a = EntityView { id: first_entity_id, ..first.entity() };
            let b = EntityView { id: second_entity_id, ..second.entity() };
            &&& s1 is Done
            &&& s2 is Done
            &&& t2.entities == tables.entities.push(a).push(b)
            &&& a.ty == b.ty
            &&& count_key(t2.object_types, key) == if tables.holds_key(key) {
                count_key(tables.object_types, key)
            } else {
                1
            }
            &&& !tables.holds_key(key) ==> t2.object_types == tables.object_types.push(
                ObjectTypeView { id: first_object_type_id, ..first.object_type() },
            )
        }),
{
    let key = first.ty.key;
    lemma_submitted(tables, first, first_entity_id, first_object_type_id);
    let (t1, s1) = submitted(tables, first, unfailing(first_entity_id, first_object_type_id));
    lemma_submitted(t1, second, second_entity_id, second_object_type_id);
    let stored = ObjectTypeView { id: first_object_type_id, ..first.object_type() };
    if !tables.holds_key(key) {
        let rows = tables.object_types.push(stored);
        assert(rows[rows.len() - 1].ky == key);
        assert(t1.holds_key(key));
        lemma_count_key_push(tables.object_types, stored, key);
        lemma_count_key_positive(tables.object_types, key);
    }
}

/// An object whose kind cannot be stored is stored all the same. Where the
/// object is stored, no kind with its key is found and the storing of the
/// kind fails, the storing ends in `Failed`, the object's row is in the
/// tables, and the kinds are as they were.
pub proof fn lemma_failed_object_type_leaves_entity(
    tables: Tables,
    object: ObjectEntityView,
    entity_id: int,
)
    requires
        !tables.holds_key(object.ty.key),
    ensures
        ({
            let (after, state) = submitted(tables, object, failing_at_object_type(entity_id));
            &&& state is Failed
            &&& after.entities == tables.entities.push(
                EntityView { id: entity_id, ..object.entity() },
            )
            &&& after.object_types == tables.object_types
        }),
{
    lemma_submission_ends(tables, object, failing_at_object_type(entity_id));
}

/// Looking for a kind and storing it are two requests, and nothing holds
/// other writers off in between. Where two objects of one kind that is not
/// stored are handed in, and the storage looks for the kind of both before
/// it stores the kind of either, both storings end well and the kind is
/// stored twice.
pub proof fn lemma_interleaved_lookups_store_the_key_twice(
    tables: Tables,
    first: ObjectEntityView,
    second: ObjectEntityView,
    first_entity_id: int,
    second_entity_id: int,
    first_object_type_id: int,
    second_object_type_id: int,
)
    requires
        first.ty.key == second.ty.key,
        !tables.holds_key(first.ty.key),
    ensures
        ({
            let carried_out = Turn { fails: false, id: 0 };
            let (a0, ask_a0) = begun(first);
            let (b0, ask_b0) = begun(second);
            let (t1, got_a0) = tables.serve(ask_a0, Turn { fails: false, id: first_entity_id });
            let (a1, ask_a1) = step(a0, got_a0);
            let (t2, got_b0) = t1.serve(ask_b0, Turn { fails: false, id: second_entity_id });
            let (b1, ask_b1) = step(b0, got_b0);
            let (t3, got_a1) = t2.serve(ask_a1->0, carried_out);
            let (a2, ask_a2) = step(a1, got_a1);
            let (t4, got_b1) = t3.serve(ask_b1->0, carried_out);
            let (b2, ask_b2) = step(b1, got_b1);
            let (t5, got_a2) = t4.serve(
                ask_a2->0,
                Turn { fails: false, id: first_object_type_id },
            );
            let (a3, ask_a3) = step(a2, got_a2);
            let (t6, got_b2) = t5.serve(
                ask_b2->0,
                Turn { fails: false, id: second_object_type_id },
            );
            let (b3, ask_b3) = step(b2, got_b2);
            &&& ask_a1 is Some && ask_b1 is Some && ask_a2 is Some && ask_b2 is Some
            &&& ask_a3 is None && ask_b3 is None
            &&& a3 is Done
            &&& b3 is Done
            &&& t6.entities.len() == tables.entities.len() + 2
            &&& count_key(t6.object_types, first.ty.key) == 2
        }),
{
    let key = first.ty.key;
    let stored_a = ObjectTypeView { id: first_object_type_id, ..first.object_type() };
    let stored_b = ObjectTypeView { id: second_object_type_id, ..second.object_type() };
    lemma_count_key_positive(tables.object_types, key);
    lemma_count_key_push(tables.object_types, stored_a, key);
    lemma_count_key_push(tables.object_types.push(stored_a), stored_b, key);
}

/// A failure of the storage ends the storing at once, whatever was asked:
/// the state is `Failed` and nothing more is asked.
pub proof fn lemma_failure_is_final(state: WriteStateView)
    requires
        !(state is Done),
    ensures
        step(state, StorageReplyView::Failed) == (
            WriteStateView::Failed,
            None::<StorageRequestView>,
        ),
        step(WriteStateView::Failed, StorageReplyView::Failed).1 is None,
{
}

} // verus!
