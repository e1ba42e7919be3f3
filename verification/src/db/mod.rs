//! Database schema and entity types.

pub mod migrations;
pub mod schema;
