//! A bytecode-compiled interpreter front end for a small dynamically-typed
//! scripting language: a verified scanner, bytecode chunk, and stack
//! machine, with a tagged scalar value model.
use vstd::prelude::*;

pub mod chunk;
pub mod compiler;
pub mod errors;
pub mod interpreter;
pub mod numeric;
pub mod opcodes;
pub mod text;
pub mod values;
pub mod vm;

pub use chunk::Chunk;
pub use errors::LoxError;
pub use interpreter::interpret;
pub use values::Value;
pub use vm::VM;

verus! {

} // verus!
