//! What each request to the service decides, apart from the storage's own
//! work.

pub mod attribute_types;
pub mod object_entities;
