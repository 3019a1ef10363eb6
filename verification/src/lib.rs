//! A bridge between a loosely typed value model and the typed columns of a
//! relational store.
//!
//! `value` holds the dynamic value model, `codec` the two conversions between
//! dynamic values and column values, and `executor` the decisions of one
//! statement execution, from locating the database to assembling result rows.

pub mod value;
pub mod codec;
pub mod executor;
