//! Compile-time table model for a relational INSERT generator.
//!
//! The crate builds a validated table model out of parsed field and
//! struct level attributes, and turns that model into the text of a
//! parameterized INSERT statement together with a description of the
//! accessor function that should execute it.

pub mod attrs;
pub mod field;
pub mod insert;
pub mod laws;
pub mod reserved;
pub mod strfmt;
pub mod table;
