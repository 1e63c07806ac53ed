//! Synthesis of single-table CRUD statements and of the configuration they
//! are derived from, with every result stated over sequences of characters.

pub mod config;
pub mod dialect;
pub mod laws;
pub mod naming;
pub mod schema;
pub mod statements;
pub mod text;
