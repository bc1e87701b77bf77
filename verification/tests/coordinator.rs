use object_catalog::api_types;
use object_catalog::api_types::{Attribute, DataType, GeoJson, ObjectEntity, PropJson};
use object_catalog::db_types;
use object_catalog::service::attribute_types;
use object_catalog::service::object_entities;
use object_catalog::service::object_entities::WriteState;
use object_catalog::storage::{StorageError, StorageReply, StorageRequest};
use object_catalog::timestamp::Timestamp;

/// The five tables in memory. A request whose number is in `failing` fails.
#[derive(Default)]
struct Tables {
    entities: Vec<db_types::Entity>,
    object_types: Vec<db_types::ObjectType>,
    attribute_types: Vec<db_types::AttributeType>,
    attributes: Vec<db_types::Attribute>,
    junctions: Vec<db_types::EntityAttributeJunction>,
    served: usize,
    failing: Vec<usize>,
}

impl Tables {
    fn new() -> Tables {
        Tables::default()
    }

    fn serve(&mut self, request: StorageRequest) -> StorageReply {
        self.served += 1;
        if self.failing.contains(&self.served) {
            return StorageReply::Failed;
        }
        match request {
            StorageRequest::InsertEntity(mut row) => {
                row.id = self.entities.len() as i32 + 1;
                self.entities.push(row.clone());
                StorageReply::EntityInserted(row)
            }
            StorageRequest::FindObjectType { ky } => StorageReply::ObjectTypeLookup {
                found: self.object_types.iter().any(|row| row.ky == ky),
            },
            StorageRequest::InsertObjectType(mut row) => {
                row.id = self.object_types.len() as i32 + 1;
                self.object_types.push(row.clone());
                StorageReply::ObjectTypeInserted(row)
            }
            StorageRequest::InsertAttributeType(mut row) => {
                row.id = self.attribute_types.len() as i32 + 1;
                self.attribute_types.push(row.clone());
                StorageReply::AttributeTypeInserted(row)
            }
            StorageRequest::InsertAttribute(mut row) => {
                row.id = self.attributes.len() as i32 + 1;
                self.attributes.push(row.clone());
                StorageReply::AttributeInserted(row)
            }
            StorageRequest::InsertEntityAttributeJunction(mut row) => {
                row.id = self.junctions.len() as i32 + 1;
                self.junctions.push(row);
                StorageReply::EntityAttributeJunctionInserted(row)
            }
        }
    }

    fn submit(&mut self, object: ObjectEntity) -> WriteState {
        let (mut state, first) = object_entities::post(object);
        let mut request = Some(first);
        while let Some(asked) = request {
            let reply = self.serve(asked);
            let (next, more) = state.advance(reply);
            state = next;
            request = more;
        }
        state
    }

    fn list(&self) -> Vec<api_types::ObjectType> {
        attribute_types::get(self.object_types.clone())
    }
}

fn kind(name: &str, key: &str) -> api_types::ObjectType {
    api_types::ObjectType {
        id: 0,
        name: name.to_string(),
        key: key.to_string(),
        description: format!("all of {}", name),
        locale_key: format!("kind.{}", key),
        deleted: false,
    }
}

fn object(key: &str, ty: api_types::ObjectType) -> ObjectEntity {
    ObjectEntity {
        parent_id: 0,
        latitude_position: 1.0f32.to_bits(),
        longitude_position: 2.0f32.to_bits(),
        created_by: "ann".to_string(),
        edited_by: "ann".to_string(),
        created_at: Timestamp::from_seconds(1000).unwrap(),
        edited_at: Timestamp::from_seconds(2000).unwrap(),
        geo_json: GeoJson {},
        search_string: String::new(),
        prop_json: PropJson {},
        key: key.to_string(),
        ty,
        attributes: vec![
            Attribute {
                id: 0,
                name: "height".to_string(),
                key: "h".to_string(),
                locale_key: "attr.h".to_string(),
                data: DataType::IntegerType { attribute_value: 7 },
            },
            Attribute {
                id: 0,
                name: "label".to_string(),
                key: "l".to_string(),
                locale_key: "attr.l".to_string(),
                data: DataType::StringType { attribute_value: "x".to_string() },
            },
        ],
    }
}

#[test]
fn post_asks_first_for_the_entity() {
    let (state, request) = object_entities::post(object("tower-1", kind("Region A", "region-a")));
    let (entity, object_type, rows) = object("tower-1", kind("Region A", "region-a")).into_db();
    assert_eq!(request, StorageRequest::InsertEntity(entity));
    assert_eq!(state, WriteState::StoringEntity { object_type, rows });
}

#[test]
fn stored_entity_is_followed_by_a_lookup_of_the_key() {
    let (state, request) = object_entities::post(object("tower-1", kind("Region A", "region-a")));
    let stored = match request {
        StorageRequest::InsertEntity(row) => db_types::Entity { id: 5, ..row },
        other => panic!("{:?}", other),
    };
    let (state, request) = state.advance(StorageReply::EntityInserted(stored));
    assert_eq!(request, Some(StorageRequest::FindObjectType { ky: "region-a".to_string() }));
    assert!(matches!(state, WriteState::FindingObjectType { .. }));
}

#[test]
fn found_kind_is_not_stored_again() {
    let (state, _) = object_entities::post(object("tower-1", kind("Region A", "region-a")));
    let (_, _, rows) = object("tower-1", kind("Region A", "region-a")).into_db();
    let (entity, _, _) = object("tower-1", kind("Region A", "region-a")).into_db();
    let (state, _) = state.advance(StorageReply::EntityInserted(entity));
    let (state, request) = state.advance(StorageReply::ObjectTypeLookup { found: true });
    assert_eq!(request, None);
    let (attributes, attribute_types): (Vec<_>, Vec<_>) = rows.into_iter().unzip();
    assert_eq!(state, WriteState::Done { attributes, attribute_types });
}

#[test]
fn missing_kind_is_stored_as_the_object_describes_it() {
    let (state, _) = object_entities::post(object("tower-1", kind("Region A", "region-a")));
    let (entity, object_type, rows) = object("tower-1", kind("Region A", "region-a")).into_db();
    let (state, _) = state.advance(StorageReply::EntityInserted(entity));
    let (state, request) = state.advance(StorageReply::ObjectTypeLookup { found: false });
    assert_eq!(request, Some(StorageRequest::InsertObjectType(object_type.clone())));
    assert_eq!(state, WriteState::StoringObjectType { rows: rows.clone() });
    let (state, request) = state.advance(StorageReply::ObjectTypeInserted(object_type));
    assert_eq!(request, None);
    let (attributes, attribute_types): (Vec<_>, Vec<_>) = rows.into_iter().unzip();
    assert_eq!(attributes.len(), 2);
    assert_eq!(attributes[0].ty, "height");
    assert_eq!(attribute_types[1].datatype, "STRING_TYPE");
    assert_eq!(state, WriteState::Done { attributes, attribute_types });
}

#[test]
fn failure_at_any_step_ends_the_storing() {
    let fresh = || object_entities::post(object("tower-1", kind("Region A", "region-a"))).0;
    let (entity, object_type, _) = object("tower-1", kind("Region A", "region-a")).into_db();

    let (state, request) = fresh().advance(StorageReply::Failed);
    assert_eq!((state, request), (WriteState::Failed, None));

    let (state, _) = fresh().advance(StorageReply::EntityInserted(entity.clone()));
    let (state, request) = state.advance(StorageReply::Failed);
    assert_eq!((state, request), (WriteState::Failed, None));

    let (state, _) = fresh().advance(StorageReply::EntityInserted(entity));
    let (state, _) = state.advance(StorageReply::ObjectTypeLookup { found: false });
    let (state, request) = state.advance(StorageReply::Failed);
    assert_eq!((state, request), (WriteState::Failed, None));

    let (state, request) = WriteState::Failed.advance(StorageReply::ObjectTypeInserted(object_type));
    assert_eq!((state, request), (WriteState::Failed, None));
}

#[test]
fn answer_that_does_not_fit_ends_the_storing() {
    let fresh = || object_entities::post(object("tower-1", kind("Region A", "region-a"))).0;
    let (entity, object_type, _) = object("tower-1", kind("Region A", "region-a")).into_db();

    let (state, request) = fresh().advance(StorageReply::ObjectTypeLookup { found: true });
    assert_eq!((state, request), (WriteState::Failed, None));
    let (state, request) = fresh().advance(StorageReply::ObjectTypeInserted(object_type));
    assert_eq!((state, request), (WriteState::Failed, None));

    let (state, _) = fresh().advance(StorageReply::EntityInserted(entity.clone()));
    let (state, request) = state.advance(StorageReply::EntityInserted(entity.clone()));
    assert_eq!((state, request), (WriteState::Failed, None));

    let (state, _) = fresh().advance(StorageReply::EntityInserted(entity.clone()));
    let (state, _) = state.advance(StorageReply::ObjectTypeLookup { found: false });
    let (state, request) = state.advance(StorageReply::ObjectTypeLookup { found: false });
    assert_eq!((state, request), (WriteState::Failed, None));
}

#[test]
fn answer_about_another_table_ends_the_storing() {
    let fresh = || object_entities::post(object("tower-1", kind("Region A", "region-a"))).0;
    let (_, _, rows) = object("tower-1", kind("Region A", "region-a")).into_db();
    let (value, schema) = rows[0].clone();
    let link = db_types::EntityAttributeJunction { id: 1, entity_id: 1, attribute_id: 1 };
    for reply in [
        StorageReply::AttributeInserted(value),
        StorageReply::AttributeTypeInserted(schema),
        StorageReply::EntityAttributeJunctionInserted(link),
    ] {
        let (state, request) = fresh().advance(reply);
        assert_eq!((state, request), (WriteState::Failed, None));
    }
}

#[test]
fn outcome_is_known_once_the_storing_has_ended() {
    let (state, _) = object_entities::post(object("tower-1", kind("Region A", "region-a")));
    let (entity, object_type, _) = object("tower-1", kind("Region A", "region-a")).into_db();
    assert_eq!(state.outcome(), None);
    let (state, _) = state.advance(StorageReply::EntityInserted(entity));
    assert_eq!(state.outcome(), None);
    let (state, _) = state.advance(StorageReply::ObjectTypeLookup { found: false });
    assert_eq!(state.outcome(), None);
    let (done, _) = state.clone().advance(StorageReply::ObjectTypeInserted(object_type));
    assert_eq!(done.outcome(), Some(Ok(())));
    let (failed, _) = state.advance(StorageReply::Failed);
    assert_eq!(failed.outcome(), Some(Err(StorageError {})));
}

#[test]
fn attributes_are_set_apart_and_not_stored() {
    let mut tables = Tables::new();
    let state = tables.submit(object("tower-1", kind("Region A", "region-a")));
    match state {
        WriteState::Done { attributes, attribute_types } => {
            assert_eq!(attributes.len(), 2);
            assert_eq!(attribute_types.len(), 2);
            assert_eq!(attributes[0].json_data, "7");
            assert_eq!(attributes[1].json_data, "\"x\"");
            assert_eq!(attribute_types[0].datatype, "INTEGER_TYPE");
            assert_eq!(attribute_types[1].datatype, "STRING_TYPE");
        }
        other => panic!("{:?}", other),
    }
    assert!(tables.attributes.is_empty());
    assert!(tables.attribute_types.is_empty());
    assert!(tables.junctions.is_empty());
}

#[test]
fn insert_asks_for_the_row_itself() {
    let (entity, object_type, rows) = object("tower-1", kind("Region A", "region-a")).into_db();
    let (value, schema) = rows[0].clone();
    let link = db_types::EntityAttributeJunction { id: 0, entity_id: 4, attribute_id: 9 };
    assert_eq!(entity.clone().insert(), StorageRequest::InsertEntity(entity));
    assert_eq!(object_type.clone().insert(), StorageRequest::InsertObjectType(object_type));
    assert_eq!(value.clone().insert(), StorageRequest::InsertAttribute(value));
    assert_eq!(schema.clone().insert(), StorageRequest::InsertAttributeType(schema));
    assert_eq!(link.insert(), StorageRequest::InsertEntityAttributeJunction(link));
}

#[test]
fn inserted_rows_get_new_ids() {
    let mut tables = Tables::new();
    let (_, _, rows) = object("tower-1", kind("Region A", "region-a")).into_db();
    for (value, schema) in rows {
        tables.serve(schema.insert());
        tables.serve(value.insert());
    }
    let link = db_types::EntityAttributeJunction { id: 77, entity_id: 1, attribute_id: 2 };
    let reply = tables.serve(link.insert());
    assert_eq!(
        reply,
        StorageReply::EntityAttributeJunctionInserted(db_types::EntityAttributeJunction {
            id: 1,
            entity_id: 1,
            attribute_id: 2,
        })
    );
    assert_eq!(tables.attributes.iter().map(|r| r.id).collect::<Vec<_>>(), vec![1, 2]);
    assert_eq!(tables.attribute_types.iter().map(|r| r.id).collect::<Vec<_>>(), vec![1, 2]);
}

#[test]
fn done_stays_done() {
    let mut tables = Tables::new();
    let done = tables.submit(object("tower-1", kind("Region A", "region-a")));
    assert!(matches!(done, WriteState::Done { .. }));
    let (state, request) = done.clone().advance(StorageReply::Failed);
    assert_eq!((state, request), (done, None));
}

#[test]
fn same_key_twice_stores_one_kind_and_two_objects() {
    let mut tables = Tables::new();
    let first = tables.submit(object("tower-1", kind("Region A", "region-a")));
    let second = tables.submit(object("tower-2", kind("Region A, again", "region-a")));
    assert!(matches!(first, WriteState::Done { .. }));
    assert!(matches!(second, WriteState::Done { .. }));
    assert_eq!(tables.object_types.len(), 1);
    assert_eq!(tables.object_types[0].ky, "region-a");
    assert_eq!(tables.object_types[0].name, "Region A");
    assert_eq!(tables.entities.len(), 2);
    assert_eq!(tables.entities[0].ky, "tower-1");
    assert_eq!(tables.entities[1].ky, "tower-2");
    assert_ne!(tables.entities[0].id, tables.entities[1].id);
    assert_eq!(tables.entities[0].ty, 0);
    assert_eq!(tables.entities[1].ty, 0);
    assert_eq!(tables.served, 5);
}

#[test]
fn different_keys_store_two_kinds() {
    let mut tables = Tables::new();
    tables.submit(object("tower-1", kind("Region A", "region-a")));
    tables.submit(object("tower-2", kind("Region B", "region-b")));
    let keys: Vec<&str> = tables.object_types.iter().map(|row| row.ky.as_str()).collect();
    assert_eq!(keys, vec!["region-a", "region-b"]);
    assert_eq!(tables.entities.len(), 2);
    assert_eq!(tables.served, 6);
}

#[test]
fn failed_kind_leaves_the_entity_stored() {
    let mut tables = Tables::new();
    tables.failing = vec![3];
    let state = tables.submit(object("tower-1", kind("Region A", "region-a")));
    assert_eq!(state, WriteState::Failed);
    assert_eq!(tables.entities.len(), 1);
    assert_eq!(tables.entities[0].ky, "tower-1");
    assert_eq!(tables.entities[0].id, 1);
    assert!(tables.object_types.is_empty());
    assert!(tables.list().is_empty());
    assert_eq!(tables.served, 3);
}

#[test]
fn failed_entity_stores_nothing_and_asks_nothing_more() {
    let mut tables = Tables::new();
    tables.failing = vec![1];
    let state = tables.submit(object("tower-1", kind("Region A", "region-a")));
    assert_eq!(state, WriteState::Failed);
    assert!(tables.entities.is_empty());
    assert!(tables.object_types.is_empty());
    assert_eq!(tables.served, 1);
}

#[test]
fn failed_lookup_leaves_the_entity_stored() {
    let mut tables = Tables::new();
    tables.failing = vec![2];
    let state = tables.submit(object("tower-1", kind("Region A", "region-a")));
    assert_eq!(state, WriteState::Failed);
    assert_eq!(tables.entities.len(), 1);
    assert!(tables.object_types.is_empty());
    assert_eq!(tables.served, 2);
}

#[test]
fn raw_insert_stores_the_same_key_twice() {
    let mut tables = Tables::new();
    let first = tables.serve(attribute_types::post(kind("Region A", "region-a")));
    let second = tables.serve(attribute_types::post(kind("Region A", "region-a")));
    assert!(matches!(first, StorageReply::ObjectTypeInserted(_)));
    assert!(matches!(second, StorageReply::ObjectTypeInserted(_)));
    assert_eq!(tables.object_types.len(), 2);
    assert_eq!(tables.object_types[0].ky, "region-a");
    assert_eq!(tables.object_types[1].ky, "region-a");
    assert_ne!(tables.object_types[0].id, tables.object_types[1].id);
}

#[test]
fn raw_insert_asks_for_the_row_as_it_came() {
    let mut given = kind("Region A", "region-a");
    given.id = 41;
    given.deleted = true;
    assert_eq!(
        attribute_types::post(given.clone()),
        StorageRequest::InsertObjectType(db_types::ObjectType {
            id: 41,
            name: "Region A".to_string(),
            ky: "region-a".to_string(),
            description: "all of Region A".to_string(),
            locale_key: "kind.region-a".to_string(),
            deleted: true,
        })
    );
}

#[test]
fn posted_kind_is_listed_once_with_its_new_id() {
    let mut tables = Tables::new();
    tables.serve(attribute_types::post(kind("Region B", "region-b")));
    let mut given = kind("Region A", "region-a");
    given.id = 0;
    tables.serve(attribute_types::post(given));
    let listed = tables.list();
    let found: Vec<&api_types::ObjectType> =
        listed.iter().filter(|k| k.key == "region-a").collect();
    assert_eq!(found.len(), 1);
    assert!(found[0].id > 0);
    assert_eq!(found[0].id, 2);
    assert_eq!(found[0].name, "Region A");
    assert_eq!(found[0].description, "all of Region A");
    assert_eq!(found[0].locale_key, "kind.region-a");
    assert!(!found[0].deleted);
}

#[test]
fn get_lists_every_row_in_order() {
    let rows = vec![
        db_types::ObjectType {
            id: 2,
            name: "b".to_string(),
            ky: "kb".to_string(),
            description: "db".to_string(),
            locale_key: "lb".to_string(),
            deleted: true,
        },
        db_types::ObjectType {
            id: 1,
            name: "a".to_string(),
            ky: "ka".to_string(),
            description: "da".to_string(),
            locale_key: "la".to_string(),
            deleted: false,
        },
    ];
    let list = attribute_types::get(rows);
    assert_eq!(
        list,
        vec![
            api_types::ObjectType {
                id: 2,
                name: "b".to_string(),
                key: "kb".to_string(),
                description: "db".to_string(),
                locale_key: "lb".to_string(),
                deleted: true,
            },
            api_types::ObjectType {
                id: 1,
                name: "a".to_string(),
                key: "ka".to_string(),
                description: "da".to_string(),
                locale_key: "la".to_string(),
                deleted: false,
            },
        ]
    );
    assert!(attribute_types::get(Vec::new()).is_empty());
}

#[test]
fn lookups_before_either_insert_store_the_key_twice() {
    let mut tables = Tables::new();
    let (a, ask_a) = object_entities::post(object("tower-1", kind("Region A", "region-a")));
    let (b, ask_b) = object_entities::post(object("tower-2", kind("Region A", "region-a")));
    let (a, ask_a) = a.advance(tables.serve(ask_a));
    let (b, ask_b) = b.advance(tables.serve(ask_b));
    let (a, ask_a) = a.advance(tables.serve(ask_a.unwrap()));
    let (b, ask_b) = b.advance(tables.serve(ask_b.unwrap()));
    let (a, ask_a) = a.advance(tables.serve(ask_a.unwrap()));
    let (b, ask_b) = b.advance(tables.serve(ask_b.unwrap()));
    assert_eq!(ask_a, None);
    assert_eq!(ask_b, None);
    assert_eq!(a.outcome(), Some(Ok(())));
    assert_eq!(b.outcome(), Some(Ok(())));
    assert_eq!(tables.entities.len(), 2);
    let keys: Vec<&str> = tables.object_types.iter().map(|row| row.ky.as_str()).collect();
    assert_eq!(keys, vec!["region-a", "region-a"]);
}

#[test]
fn object_path_and_raw_path_differ_on_a_stored_key() {
    let mut tables = Tables::new();
    tables.serve(attribute_types::post(kind("Region A", "region-a")));
    tables.submit(object("tower-1", kind("Region A", "region-a")));
    assert_eq!(tables.object_types.len(), 1);
    tables.serve(attribute_types::post(kind("Region A", "region-a")));
    assert_eq!(tables.object_types.len(), 2);
}
