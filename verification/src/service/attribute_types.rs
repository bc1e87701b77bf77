//! Listing the kinds of object, and storing a new one.

use crate::api_types;
use crate::db_types;
use crate::storage::{
    count_key, id_is_free, lemma_count_key_positive, lemma_count_key_push, StorageReplyView,
    StorageRequest, StorageRequestView, Tables, Turn,
};
use vstd::prelude::*;

verus! {

/// What a list of rows holds.
pub open spec fn rows_view(rows: Seq<db_types::ObjectType>) -> Seq<db_types::ObjectTypeView> {
    rows.map_values(|row: db_types::ObjectType| row@)
}

/// What a list of kinds of object holds.
pub open spec fn list_view(list: Seq<api_types::ObjectType>) -> Seq<api_types::ObjectTypeView> {
    list.map_values(|kind: api_types::ObjectType| kind@)
}

/// The kinds of object that rows hold, row by row.
pub open spec fn listed(rows: Seq<db_types::ObjectTypeView>) -> Seq<api_types::ObjectTypeView> {
    rows.map_values(|row: db_types::ObjectTypeView| row.wire())
}

/// The answer to a request for all kinds of object: every row that the
/// storage holds, in the storage's order, each as it goes over the wire.
pub fn get(rows: Vec<db_types::ObjectType>) -> (list: Vec<api_types::ObjectType>)
    ensures
        list_view(list@) == listed(rows_view(rows@)),
{
    let ghost given = rows@;
    let mut list: Vec<api_types::ObjectType> = Vec::new();
    for row in iter: rows
        invariant
            iter.seq() == given,
            list.len() == iter.index(),
            forall|j: int| 0 <= j < list.len() ==> (#[trigger] list[j])@ == given[j]@.wire(),
    {
        list.push(api_types::ObjectType::from(row));
    }
    assert(list_view(list@) =~= listed(rows_view(given)));
    list
}

/// What is asked of the storage for a new kind of object: to store its row.
/// Nothing is looked up first, so a kind whose `key` is stored already is
/// stored once more.
pub fn post(val: api_types::ObjectType) -> (request: StorageRequest)
    ensures
        request@ == StorageRequestView::InsertObjectType(val@.row()),
{
    db_types::ObjectType::from(val).insert()
}

/// Two kinds of object with the same `key` that are stored one after the
/// other are both stored: the storage holds two more rows with that key, the
/// two that it answered with, and where their `id`s are free they differ.
pub proof fn lemma_post_twice_stores_two_rows(
    tables: Tables,
    first: api_types::ObjectTypeView,
    second: api_types::ObjectTypeView,
    first_id: int,
    second_id: int,
)
    requires
        first.key == second.key,
    ensures
        ({
            let one = StorageRequestView::InsertObjectType(first.row());
            let two = StorageRequestView::InsertObjectType(second.row());
            let (t1, r1) = tables.serve(one, Turn { fails: false, id: first_id });
            let (t2, r2) = t1.serve(two, Turn { fails: false, id: second_id });
            let a = db_types::ObjectTypeView { id: first_id, ..first.row() };
            let b = db_types::ObjectTypeView { id: second_id, ..second.row() };
            &&& r1 == StorageReplyView::ObjectTypeInserted(a)
            &&& r2 == StorageReplyView::ObjectTypeInserted(b)
            &&& t2.object_types == tables.object_types.push(a).push(b)
            &&& t2.entities == tables.entities
            &&& count_key(t2.object_types, first.key) == count_key(
                tables.object_types,
                first.key,
            ) + 2
            &&& id_is_free(t1.ids(two), second_id) ==> a.id != b.id
        }),
{
    let a = db_types::ObjectTypeView { id: first_id, ..first.row() };
    let b = db_types::ObjectTypeView { id: second_id, ..second.row() };
    lemma_count_key_push(tables.object_types, a, first.key);
    lemma_count_key_push(tables.object_types.push(a), b, first.key);
    let two = StorageRequestView::InsertObjectType(second.row());
    let t1 = tables.serve(
        StorageRequestView::InsertObjectType(first.row()),
        Turn { fails: false, id: first_id },
    ).0;
    if id_is_free(t1.ids(two), second_id) {
        let ids = t1.ids(two);
        assert(ids[ids.len() - 1] == first_id);
    }
}

/// A kind of object with a `key` that no stored kind has, stored under a
/// positive `id`, is listed afterwards exactly once, and under that `id`.
pub proof fn lemma_posted_kind_is_listed_once(
    tables: Tables,
    kind: api_types::ObjectTypeView,
    id: int,
)
    requires
        id > 0,
        !tables.holds_key(kind.key),
    ensures
        ({
            let after = tables.serve(
                StorageRequestView::InsertObjectType(kind.row()),
                Turn { fails: false, id },
            ).0;
            let list = listed(after.object_types);
            &&& count_key(after.object_types, kind.key) == 1
            &&& list.len() == tables.object_types.len() + 1
            &&& list.last() == api_types::ObjectTypeView { id, ..kind }
            &&& list.last().id > 0
        }),
{
    let stored = db_types::ObjectTypeView { id, ..kind.row() };
    lemma_count_key_push(tables.object_types, stored, kind.key);
    lemma_count_key_positive(tables.object_types, kind.key);
}

} // verus!
