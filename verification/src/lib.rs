//! Verified code generation for the `BinRead`/`BinWrite` derives: which
//! generator handles a type, and the exact tokens of the reader and writer
//! bodies that this library writes.
//!
//! - [`tokens`]: the model of generated code and its bracketing.
//! - [`input`]: what the generators read of a parsed derive input.
//! - [`magic`]: magic values, their types and their checks.
//! - [`grouping`]: grouping unit enum variants by the type of their magic.
//! - [`read_options`]: the reader body, its prelude and the read dispatch.
//! - [`read_enum`]: readers of unit-only enums and data enums.
//! - [`write_options`]: the writer body, the write dispatch and mapped writers.
//! - [`spelling`]: how generated code is spelled, and the bracket check.
//! - [`brackets`]: the generated code is well bracketed.
//! - [`laws`]: properties across generators.
pub mod tokens;
pub mod input;
pub mod magic;
pub mod grouping;
pub mod read_options;
pub mod read_enum;
pub mod write_options;
pub mod spelling;
pub mod brackets;
pub mod laws;
