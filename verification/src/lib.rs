//! Generation of Go client bindings from a resolved module schema.
//!
//! The schema is a read-only snapshot: a typespace of named algebraic type
//! definitions addressed by stable indices, plus tables, reducers and
//! procedures. Each generation pass is a pure function of that snapshot and
//! yields named text outputs.

use vstd::prelude::*;

pub mod generate;
pub mod ident;
pub mod imports;
pub mod render;
pub mod schema;
pub mod tasks;

verus! {

/// A generated file: its name and its full text contents.
pub struct OutputFile {
    pub filename: String,
    pub code: String,
}

} // verus!
