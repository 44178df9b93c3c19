use vstd::prelude::*;

pub mod code_ir;
pub mod expr;
pub mod ir;
pub mod laws;
pub mod stmt;

verus! {

/// Marks the start of a structured payload embedded in surrounding text.
pub const START_DISCRIMINATOR: &'static str = "<ZKCIR_JSON_START>";

/// Marks the end of a structured payload embedded in surrounding text.
pub const END_DISCRIMINATOR: &'static str = "<ZKCIR_JSON_END>";

} // verus!
