//! Accessor generation for record types: a validated configuration store,
//! the accessor-style resolver, and the drivers that turn a described record
//! into the list of accessor methods to emit.

pub mod config;
pub mod getter;
pub mod text;
pub mod derive;
pub mod laws;
