//! A catalog of typed objects whose attributes are not fixed by the schema.
//!
//! Every attribute value is one of five kinds and is stored as a pair of a
//! kind tag and a JSON text. An object that comes in over the wire is taken
//! apart into the rows of five tables, and a small state machine decides in
//! which order those rows are handed to the storage.
//!
//! - [`json_text`], [`number`] and [`timestamp`]: the texts and the points in
//!   time that values are made of, and what `serde_json` and `chrono` are
//!   trusted to do with them.
//! - [`api_types`]: values, attributes and objects as they come over the
//!   wire; how a value is stored and read back; how an object is taken apart.
//! - [`db_types`]: the rows of the five tables.
//! - [`storage`]: the requests to the storage, its answers, and a model of
//!   the tables.
//! - [`service`]: what each request to the service decides.

pub mod api_types;
pub mod db_types;
pub mod json_text;
pub mod number;
pub mod service;
pub mod storage;
pub mod timestamp;
