//! Objects and their attributes as they come over the wire, and how they
//! are taken apart into rows.

use crate::db_types;
use crate::json_text::{
    decimal_text, integer_from_json, integer_to_json, is_digit, is_json_number, json_integer,
    json_quoted, json_string, lemma_json_integer_is, lemma_json_integer_of_decimal_text,
    lemma_json_integer_shape, lemma_json_string_of_quoted, same_text, string_from_json,
    string_to_json, trimmed,
};
use crate::number::JsonNumber;
use crate::timestamp::{is_timestamp, Timestamp};
use vstd::prelude::*;

verus! {

/// A value of an attribute: one of five kinds.
#[derive(Debug, Clone, PartialEq, Eq)]
pub enum DataType {
    /// A point in time, to the second.
    DateType { attribute_value: Timestamp },
    /// A 64-bit integer.
    IntegerType { attribute_value: i64 },
    /// A number with a fraction, as JSON writes it.
    FloatType { attribute_value: JsonNumber },
    /// A short text.
    StringType { attribute_value: String },
    /// A long text.
    TextType { attribute_value: String },
}

/// What a [`DataType`] holds: the seconds of a date, the integer, the text
/// of a number, the characters of a string.
pub enum DataTypeView {
    Date(int),
    Integer(int),
    Float(Seq<char>),
    String(Seq<char>),
    Text(Seq<char>),
}

impl View for DataType {
    type V = DataTypeView;

    open spec fn view(&self) -> DataTypeView {
        match self {
            DataType::DateType { attribute_value } => DataTypeView::Date(attribute_value@),
            DataType::IntegerType { attribute_value } => DataTypeView::Integer(
                *attribute_value as int,
            ),
            DataType::FloatType { attribute_value } => DataTypeView::Float(attribute_value@),
            DataType::StringType { attribute_value } => DataTypeView::String(attribute_value@),
            DataType::TextType { attribute_value } => DataTypeView::Text(attribute_value@),
        }
    }
}

impl DataTypeView {
    /// The tag under which a value of this kind is stored.
    pub open spec fn kind_tag(self) -> Seq<char> {
        match self {
            DataTypeView::Date(_) => "DATE_TYPE"@,
            DataTypeView::Integer(_) => "INTEGER_TYPE"@,
            DataTypeView::Float(_) => "FLOAT_TYPE"@,
            DataTypeView::String(_) => "STRING_TYPE"@,
            DataTypeView::Text(_) => "TEXT_TYPE"@,
        }
    }

    /// The text as which the value is stored: the seconds of a date and an
    /// integer in decimal, a number as its own text, a string as its JSON
    /// text.
    pub open spec fn data(self) -> Seq<char> {
        match self {
            DataTypeView::Date(seconds) => decimal_text(seconds),
            DataTypeView::Integer(n) => decimal_text(n),
            DataTypeView::Float(text) => text,
            DataTypeView::String(s) => json_quoted(s),
            DataTypeView::Text(s) => json_quoted(s),
        }
    }

    /// Whether this is what a [`DataType`] can hold: a date that `chrono`
    /// can hold, an integer of 64 bits, a text that is a number.
    pub open spec fn is_value(self) -> bool {
        match self {
            DataTypeView::Date(seconds) => is_timestamp(seconds),
            DataTypeView::Integer(n) => i64::MIN <= n <= i64::MAX,
            DataTypeView::Float(text) => is_json_number(text),
            DataTypeView::String(_) => true,
            DataTypeView::Text(_) => true,
        }
    }
}

/// Why a stored pair of tag and text is no value.
#[derive(Debug, Clone, Copy, PartialEq, Eq, Structural)]
pub enum CodecError {
    /// The tag is none of the five.
    UnknownKind,
    /// The text is not of the shape that the tag asks for.
    MalformedPayload,
}

/// The value that a stored pair of tag and text stands for. The tag alone
/// says of which kind the value is; a tag that is none of the five gives
/// `UnknownKind`, whatever the text, and a text that the kind of the tag
/// cannot be read from gives `MalformedPayload`.
pub open spec fn decoded(ty: Seq<char>, data: Seq<char>) -> Result<
    DataTypeView,
    CodecError,
> {
    if ty == "DATE_TYPE"@ {
        match json_integer(data) {
            Some(seconds) => if is_timestamp(seconds as int) {
                Ok(DataTypeView::Date(seconds as int))
            } else {
                Err(CodecError::MalformedPayload)
            },
            None => Err(CodecError::MalformedPayload),
        }
    } else if ty == "INTEGER_TYPE"@ {
        match json_integer(data) {
            Some(n) => Ok(DataTypeView::Integer(n as int)),
            None => Err(CodecError::MalformedPayload),
        }
    } else if ty == "FLOAT_TYPE"@ {
        if is_json_number(data) {
            Ok(DataTypeView::Float(data))
        } else {
            Err(CodecError::MalformedPayload)
        }
    } else if ty == "STRING_TYPE"@ {
        match json_string(data) {
            Some(s) => Ok(DataTypeView::String(s)),
            None => Err(CodecError::MalformedPayload),
        }
    } else if ty == "TEXT_TYPE"@ {
        match json_string(data) {
            Some(s) => Ok(DataTypeView::Text(s)),
            None => Err(CodecError::MalformedPayload),
        }
    } else {
        Err(CodecError::UnknownKind)
    }
}

/// No two of the five tags are the same text.
pub proof fn lemma_kind_tags_differ()
    ensures
        "DATE_TYPE"@ != "INTEGER_TYPE"@,
        "DATE_TYPE"@ != "FLOAT_TYPE"@,
        "DATE_TYPE"@ != "STRING_TYPE"@,
        "DATE_TYPE"@ != "TEXT_TYPE"@,
        "INTEGER_TYPE"@ != "FLOAT_TYPE"@,
        "INTEGER_TYPE"@ != "STRING_TYPE"@,
        "INTEGER_TYPE"@ != "TEXT_TYPE"@,
        "FLOAT_TYPE"@ != "STRING_TYPE"@,
        "FLOAT_TYPE"@ != "TEXT_TYPE"@,
        "STRING_TYPE"@ != "TEXT_TYPE"@,
{
    reveal_strlit("DATE_TYPE");
    reveal_strlit("INTEGER_TYPE");
    reveal_strlit("FLOAT_TYPE");
    reveal_strlit("STRING_TYPE");
    reveal_strlit("TEXT_TYPE");
    assert("DATE_TYPE"@.len() == 9);
    assert("INTEGER_TYPE"@.len() == 12);
    assert("FLOAT_TYPE"@.len() == 10);
    assert("STRING_TYPE"@.len() == 11);
    assert("TEXT_TYPE"@.len() == 9);
    assert("DATE_TYPE"@[0] != "TEXT_TYPE"@[0]);
}

/// A value that is stored and read back is the value that was stored:
/// for each of the five kinds, the pair of tag and text of a value stands
/// for that value.
pub proof fn lemma_decoded_of_encoded(v: DataTypeView)
    requires
        v.is_value(),
    ensures
        decoded(v.kind_tag(), v.data()) == Ok::<DataTypeView, CodecError>(v),
{
    lemma_kind_tags_differ();
    match v {
        DataTypeView::Date(seconds) => {
            lemma_json_integer_of_decimal_text(seconds as i64);
        },
        DataTypeView::Integer(n) => {
            lemma_json_integer_of_decimal_text(n as i64);
        },
        DataTypeView::Float(_) => {},
        DataTypeView::String(s) => {
            lemma_json_string_of_quoted(s);
        },
        DataTypeView::Text(s) => {
            lemma_json_string_of_quoted(s);
        },
    }
}

/// A pair whose tag is none of the five stands for no value, whatever its
/// text: it is refused as `UnknownKind`, and only such a pair is.
pub proof fn lemma_unknown_kind(ty: Seq<char>, data: Seq<char>)
    ensures
        decoded(ty, data) == Err::<DataTypeView, CodecError>(
            CodecError::UnknownKind,
        ) <==> (ty != "DATE_TYPE"@ && ty != "INTEGER_TYPE"@ && ty != "FLOAT_TYPE"@ && ty
            != "STRING_TYPE"@ && ty != "TEXT_TYPE"@),
{
}

/// An integer and a date are read from digits only. A text that, between
/// its whitespace, is empty or starts with anything but a digit or a minus
/// sign, or has anything but digits after its first character, is refused
/// under both tags as `MalformedPayload`.
pub proof fn lemma_integer_kinds_refuse_other_text(data: Seq<char>)
    requires
        trimmed(data).len() == 0 || !(is_digit(trimmed(data)[0]) || trimmed(data)[0] == '-')
            || exists|i: int| 1 <= i < trimmed(data).len() && !is_digit(#[trigger] trimmed(data)[i]),
    ensures
        decoded("INTEGER_TYPE"@, data) == Err::<DataTypeView, CodecError>(
            CodecError::MalformedPayload,
        ),
        decoded("DATE_TYPE"@, data) == Err::<DataTypeView, CodecError>(
            CodecError::MalformedPayload,
        ),
{
    lemma_kind_tags_differ();
    if json_integer(data) is Some {
        lemma_json_integer_shape(data);
    }
}

impl DataType {
    /// The tag and the text under which the value is stored.
    pub fn into_type_and_data(self) -> (stored: (&'static str, String))
        ensures
            stored.0@ == self@.kind_tag(),
            stored.1@ == self@.data(),
            decoded(stored.0@, stored.1@) == Ok::<DataTypeView, CodecError>(self@),
    {
        let ghost v = self@;
        let stored = match self {
            DataType::DateType { attribute_value } => (
                "DATE_TYPE",
                integer_to_json(attribute_value.seconds()),
            ),
            DataType::IntegerType { attribute_value } => (
                "INTEGER_TYPE",
                integer_to_json(attribute_value),
            ),
            DataType::FloatType { attribute_value } => (
                "FLOAT_TYPE",
                attribute_value.as_str().to_owned(),
            ),
            DataType::StringType { attribute_value } => (
                "STRING_TYPE",
                string_to_json(attribute_value.as_str()),
            ),
            DataType::TextType { attribute_value } => (
                "TEXT_TYPE",
                string_to_json(attribute_value.as_str()),
            ),
        };
        proof {
            lemma_decoded_of_encoded(v);
        }
        stored
    }

    /// The value that a stored pair of tag and text stands for.
    pub fn from_type_and_data(ty: &str, data: &str) -> (r: Result<Self, CodecError>)
        ensures
            r matches Ok(value) ==> decoded(ty@, data@) == Ok::<
                DataTypeView,
                CodecError,
            >(value@) && value@.is_value(),
            r matches Err(e) ==> decoded(ty@, data@) == Err::<
                DataTypeView,
                CodecError,
            >(e),
    {
        if same_text(ty, "DATE_TYPE") {
            match integer_from_json(data) {
                Ok(seconds) => {
                    proof {
                        lemma_json_integer_is(data@, seconds);
                    }
                    match Timestamp::from_seconds(seconds) {
                        Some(attribute_value) => Ok(DataType::DateType { attribute_value }),
                        None => Err(CodecError::MalformedPayload),
                    }
                },
                Err(_) => Err(CodecError::MalformedPayload),
            }
        } else if same_text(ty, "INTEGER_TYPE") {
            match integer_from_json(data) {
                Ok(attribute_value) => {
                    proof {
                        lemma_json_integer_is(data@, attribute_value);
                    }
                    Ok(DataType::IntegerType { attribute_value })
                },
                Err(_) => Err(CodecError::MalformedPayload),
            }
        } else if same_text(ty, "FLOAT_TYPE") {
            match JsonNumber::parse(data) {
                Some(attribute_value) => Ok(DataType::FloatType { attribute_value }),
                None => Err(CodecError::MalformedPayload),
            }
        } else if same_text(ty, "STRING_TYPE") {
            match string_from_json(data) {
                Ok(attribute_value) => Ok(DataType::StringType { attribute_value }),
                Err(_) => Err(CodecError::MalformedPayload),
            }
        } else if same_text(ty, "TEXT_TYPE") {
            match string_from_json(data) {
                Ok(attribute_value) => Ok(DataType::TextType { attribute_value }),
                Err(_) => Err(CodecError::MalformedPayload),
            }
        } else {
            Err(CodecError::UnknownKind)
        }
    }
}

/// The schema of an attribute, as it comes over the wire.
#[derive(Debug, Clone, PartialEq, Eq)]
pub struct AttributeType {
    pub id: i32,
    pub name: String,
    pub key: String,
    pub locale_key: String,
    pub data_type: String,
}

/// What an [`AttributeType`] holds.
pub struct AttributeTypeView {
    pub id: int,
    pub name: Seq<char>,
    pub key: Seq<char>,
    pub locale_key: Seq<char>,
    pub data_type: Seq<char>,
}

impl View for AttributeType {
    type V = AttributeTypeView;

    open spec fn view(&self) -> AttributeTypeView {
        AttributeTypeView {
            id: self.id as int,
            name: self.name@,
            key: self.key@,
            locale_key: self.locale_key@,
            data_type: self.data_type@,
        }
    }
}

/// One attribute of an object, as it comes over the wire: the name and keys
/// of its schema, and its value.
#[derive(Debug, Clone, PartialEq, Eq)]
pub struct Attribute {
    pub id: i32,
    pub name: String,
    pub key: String,
    pub locale_key: String,
    pub data: DataType,
}

/// What an [`Attribute`] holds.
pub struct AttributeView {
    pub id: int,
    pub name: Seq<char>,
    pub key: Seq<char>,
    pub locale_key: Seq<char>,
    pub data: DataTypeView,
}

impl View for Attribute {
    type V = AttributeView;

    open spec fn view(&self) -> AttributeView {
        AttributeView {
            id: self.id as int,
            name: self.name@,
            key: self.key@,
            locale_key: self.locale_key@,
            data: self.data@,
        }
    }
}

impl AttributeView {
    /// The row of the value: not yet stored, under the name of the
    /// attribute, with the text of the value.
    pub open spec fn row(self) -> db_types::AttributeView {
        db_types::AttributeView { id: 0, ty: self.name, json_data: self.data.data() }
    }

    /// The row of the schema: not yet stored, with the name and keys of the
    /// attribute and the tag of the kind of its value.
    pub open spec fn type_row(self) -> db_types::AttributeTypeView {
        db_types::AttributeTypeView {
            id: 0,
            name: self.name,
            ky: self.key,
            locale_key: self.locale_key,
            datatype: self.data.kind_tag(),
        }
    }
}

impl Attribute {
    /// The two rows that an attribute is stored as: its value and its
    /// schema. The `id` that came over the wire is dropped.
    pub fn into_db(self) -> (rows: (db_types::Attribute, db_types::AttributeType))
        ensures
            rows.0@ == self@.row(),
            rows.1@ == self@.type_row(),
    {
        let Attribute { id: _, name, key, locale_key, data } = self;
        let (tag, json_data) = data.into_type_and_data();
        (
            db_types::Attribute { id: 0, ty: name.clone(), json_data },
            db_types::AttributeType { id: 0, name, ky: key, locale_key, datatype: tag.to_owned() },
        )
    }
}

/// The shape of an object on the map. Nothing is held of it yet.
#[derive(Debug, Clone, Copy, PartialEq, Eq)]
pub struct GeoJson {}

impl Default for GeoJson {
    fn default() -> (empty: Self)
        ensures
            empty == (GeoJson {  }),
    {
        GeoJson {  }
    }
}

/// The free properties of an object. Nothing is held of them yet.
#[derive(Debug, Clone, Copy, PartialEq, Eq)]
pub struct PropJson {}

impl Default for PropJson {
    fn default() -> (empty: Self)
        ensures
            empty == (PropJson {  }),
    {
        PropJson {  }
    }
}

/// One object with its kind and its attributes, as it comes over the wire.
/// The two positions are the 32 bits of a binary floating-point number each.
#[derive(Debug, Clone, PartialEq, Eq)]
pub struct ObjectEntity {
    pub parent_id: i32,
    pub latitude_position: u32,
    pub longitude_position: u32,
    pub created_by: String,
    pub edited_by: String,
    pub created_at: Timestamp,
    pub edited_at: Timestamp,
    pub geo_json: GeoJson,
    pub search_string: String,
    pub prop_json: PropJson,
    pub key: String,
    pub ty: ObjectType,
    pub attributes: Vec<Attribute>,
}

/// What an [`ObjectEntity`] holds.
pub struct ObjectEntityView {
    pub parent_id: int,
    pub latitude_position: u32,
    pub longitude_position: u32,
    pub created_by: Seq<char>,
    pub edited_by: Seq<char>,
    pub created_at: int,
    pub edited_at: int,
    pub search_string: Seq<char>,
    pub key: Seq<char>,
    pub ty: ObjectTypeView,
    pub attributes: Seq<AttributeView>,
}

impl View for ObjectEntity {
    type V = ObjectEntityView;

    open spec fn view(&self) -> ObjectEntityView {
        ObjectEntityView {
            parent_id: self.parent_id as int,
            latitude_position: self.latitude_position,
            longitude_position: self.longitude_position,
            created_by: self.created_by@,
            edited_by: self.edited_by@,
            created_at: self.created_at@,
            edited_at: self.edited_at@,
            search_string: self.search_string@,
            key: self.key@,
            ty: self.ty@,
            attributes: self.attributes@.map_values(|a: Attribute| a@),
        }
    }
}

impl Default for ObjectEntity {
    /// An object with nothing filled in: made at the start of 1970, of a
    /// kind with nothing filled in, without attributes.
    fn default() -> (empty: Self)
        ensures
            empty@ == (ObjectEntityView {
                parent_id: 0,
                latitude_position: 0,
                longitude_position: 0,
                created_by: Seq::empty(),
                edited_by: Seq::empty(),
                created_at: 0,
                edited_at: 0,
                search_string: Seq::empty(),
                key: Seq::empty(),
                ty: ObjectTypeView::empty(),
                attributes: Seq::empty(),
            }),
    {
        let empty = ObjectEntity {
            parent_id: 0,
            latitude_position: 0,
            longitude_position: 0,
            created_by: String::new(),
            edited_by: String::new(),
            created_at: Timestamp::default(),
            edited_at: Timestamp::default(),
            geo_json: GeoJson {  },
            search_string: String::new(),
            prop_json: PropJson {  },
            key: String::new(),
            ty: ObjectType::default(),
            attributes: Vec::new(),
        };
        assert(empty@.attributes =~= Seq::empty());
        empty
    }
}

impl ObjectEntityView {
    /// The row of the object: not yet stored, of no kind yet, not deleted,
    /// with an empty text for its shape and for its properties.
    pub open spec fn entity(self) -> db_types::EntityView {
        db_types::EntityView {
            id: 0,
            latitude_position: self.latitude_position,
            longitude_position: self.longitude_position,
            created_by: self.created_by,
            edited_by: self.edited_by,
            created_at: self.created_at,
            edited_at: self.edited_at,
            geo_json: Seq::empty(),
            prop_json: Seq::empty(),
            ky: self.key,
            ty: 0,
            deleted: false,
        }
    }

    /// The row of the kind of the object, as the object describes it.
    pub open spec fn object_type(self) -> db_types::ObjectTypeView {
        self.ty.row()
    }

    /// The two rows of each attribute, in the order of the attributes.
    pub open spec fn attribute_rows(self) -> Seq<
        (db_types::AttributeView, db_types::AttributeTypeView),
    > {
        self.attributes.map_values(|a: AttributeView| (a.row(), a.type_row()))
    }
}

/// What a list of pairs of rows holds.
pub open spec fn attribute_rows_view(
    rows: Seq<(db_types::Attribute, db_types::AttributeType)>,
) -> Seq<(db_types::AttributeView, db_types::AttributeTypeView)> {
    rows.map_values(|p: (db_types::Attribute, db_types::AttributeType)| (p.0@, p.1@))
}

impl ObjectEntity {
    /// Takes an object apart into the rows that it is stored as: the row of
    /// the object, the row of its kind, and the two rows of each attribute.
    /// The kind is written as the object describes it, not looked up.
    pub fn into_db(self) -> (rows: (
        db_types::Entity,
        db_types::ObjectType,
        Vec<(db_types::Attribute, db_types::AttributeType)>,
    ))
        ensures
            rows.0@ == self@.entity(),
            rows.1@ == self@.object_type(),
            attribute_rows_view(rows.2@) == self@.attribute_rows(),
    {
        let ghost whole = self@;
        let ObjectEntity {
            parent_id: _,
            latitude_position,
            longitude_position,
            created_by,
            edited_by,
            created_at,
            edited_at,
            geo_json: _,
            search_string: _,
            prop_json: _,
            key,
            ty,
            attributes,
        } = self;
        let entity = db_types::Entity {
            id: 0,
            latitude_position,
            longitude_position,
            created_by,
            edited_by,
            created_at,
            edited_at,
            geo_json: String::new(),
            prop_json: String::new(),
            ky: key,
            ty: 0,
            deleted: false,
        };
        let object_type = db_types::ObjectType::from(ty);
        let ghost given = attributes@;
        let mut pairs: Vec<(db_types::Attribute, db_types::AttributeType)> = Vec::new();
        for attribute in iter: attributes
            invariant
                iter.seq() == given,
                pairs.len() == iter.index(),
                forall|j: int|
                    0 <= j < pairs.len() ==> (#[trigger] pairs[j]).0@ == given[j]@.row()
                        && pairs[j].1@ == given[j]@.type_row(),
        {
            pairs.push(attribute.into_db());
        }
        assert(attribute_rows_view(pairs@) =~= whole.attribute_rows());
        (entity, object_type, pairs)
    }
}

/// A kind of object, as it comes over the wire.
#[derive(Debug, Clone, PartialEq, Eq)]
pub struct ObjectType {
    pub id: i32,
    pub name: String,
    pub key: String,
    pub description: String,
    pub locale_key: String,
    pub deleted: bool,
}

/// What an [`ObjectType`] holds.
pub struct ObjectTypeView {
    pub id: int,
    pub name: Seq<char>,
    pub key: Seq<char>,
    pub description: Seq<char>,
    pub locale_key: Seq<char>,
    pub deleted: bool,
}

impl View for ObjectType {
    type V = ObjectTypeView;

    open spec fn view(&self) -> ObjectTypeView {
        ObjectTypeView {
            id: self.id as int,
            name: self.name@,
            key: self.key@,
            description: self.description@,
            locale_key: self.locale_key@,
            deleted: self.deleted,
        }
    }
}

impl Default for ObjectType {
    /// A kind of object with nothing filled in.
    fn default() -> (empty: Self)
        ensures
            empty@ == ObjectTypeView::empty(),
    {
        ObjectType {
            id: 0,
            name: String::new(),
            key: String::new(),
            description: String::new(),
            locale_key: String::new(),
            deleted: false,
        }
    }
}

impl ObjectTypeView {
    /// A kind of object with nothing filled in: no text in any field, the
    /// `id` 0, not deleted.
    pub open spec fn empty() -> ObjectTypeView {
        ObjectTypeView {
            id: 0,
            name: Seq::empty(),
            key: Seq::empty(),
            description: Seq::empty(),
            locale_key: Seq::empty(),
            deleted: false,
        }
    }

    /// The row of this kind of object: every field as it is, `key` under the
    /// name `ky`.
    pub open spec fn row(self) -> db_types::ObjectTypeView {
        db_types::ObjectTypeView {
            id: self.id,
            name: self.name,
            ky: self.key,
            description: self.description,
            locale_key: self.locale_key,
            deleted: self.deleted,
        }
    }
}

/// Nothing is lost between the wire and the storage: a kind of object that
/// is turned into a row and back is the same, and so is a row that is turned
/// into a kind of object and back.
pub proof fn lemma_object_type_rename_is_lossless(
    wire: ObjectTypeView,
    row: db_types::ObjectTypeView,
)
    ensures
        wire.row().wire() == wire,
        row.wire().row() == row,
{
}

impl vstd::std_specs::convert::FromSpecImpl<db_types::ObjectType> for ObjectType {
    open spec fn obeys_from_spec() -> bool {
        true
    }

    open spec fn from_spec(v: db_types::ObjectType) -> Self {
        ObjectType {
            id: v.id,
            name: v.name,
            key: v.ky,
            description: v.description,
            locale_key: v.locale_key,
            deleted: v.deleted,
        }
    }
}

impl From<db_types::ObjectType> for ObjectType {
    /// The kind of object that a stored row holds: every field as it is,
    /// `ky` under the name `key`.
    fn from(v: db_types::ObjectType) -> (wire: Self) {
        ObjectType {
            id: v.id,
            name: v.name,
            key: v.ky,
            description: v.description,
            locale_key: v.locale_key,
            deleted: v.deleted,
        }
    }
}

} // verus!
