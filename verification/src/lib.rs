//! A corpus of authorization policies, with the schema and the entity data
//! that the policies reason about.
//!
//! Policy text, schema text and entity documents are parsed by the Cedar
//! language crate. This library keeps what was parsed as plain values, holds
//! the policies of a set under pairwise distinct identifiers, and renames
//! policies after one of their annotations without ever handing out a set in
//! which two policies share an identifier.

pub mod entities;
pub mod entity_uid;
pub mod error;
pub mod json;
pub mod laws;
pub mod once;
pub mod policy;
pub mod policy_set;
pub mod schema;
