//! Keeps the objects of a PostgreSQL schema owned by one role.
//!
//! The convention is set up by a provisioning sequence that can be run any
//! number of times ([`commands::init`]), kept up on the server by an event
//! trigger that hands new objects to the configured role ([`reconcile`]),
//! and recorded in a mapping table ([`mapping_store`]) that the mapping
//! commands write and the listing reads ([`commands`]).
//!
//! The library decides and renders; it performs no I/O. A caller opens the
//! connections, runs the statements that the library hands out, and hands
//! back what the server answered.

pub mod catalog;
pub mod cli;
pub mod commands;
pub mod db;
pub mod mapping_store;
pub mod name_order;
pub mod reconcile;
pub mod report;
pub mod sql_templates;
pub mod text;
pub mod timestamp;
