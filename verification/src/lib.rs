//! Core of a declarative, zero-downtime schema migration engine.
//!
//! Migrations are ordered sequences of typed actions. Each action exposes a
//! five-operation lifecycle (describe, run, complete, update_schema, abort);
//! the statements an action emits are assembled and checked here, while the
//! surrounding program sends them to the database and reports each outcome.

pub mod actions;
pub mod create_table;
pub mod error;
pub mod orchestrate;
pub mod schema;
pub mod sql;
