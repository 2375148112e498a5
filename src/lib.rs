//! Derivation of builder companions for record types.
//!
//! The engine takes a plain description of a type, checks that it is a record
//! with named fields, and emits the source text of a builder type: its
//! declaration, a factory on the record, one setter per field and a validated
//! `build`. The `command` module holds a builder written out in full for one
//! record, whose behaviour follows the model in `fill`.
pub mod shape;
pub mod emit;
pub mod fill;
pub mod command;
