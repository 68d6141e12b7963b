//! The one-call entry point: source text in, value or diagnosed error out.
use vstd::prelude::*;
use crate::chunk::Chunk;
use crate::compiler::compile;
use crate::compiler::scanner::scan_clean;
use crate::errors::LoxError;
use crate::values::value::Value;
use crate::vm::VM;

verus! {

/// Compiles `source` and evaluates the resulting chunk on a fresh machine.
///
/// The grammar-driven code generator is an external collaborator, so a
/// clean scan leaves the chunk empty and evaluation reports exactly that;
/// a source with lexical errors fails to compile.
pub fn interpret(source: &str) -> (r: Result<Value, LoxError>)
    requires
        source@.len() < usize::MAX,
    ensures
        !scan_clean(source@, 0, 1) ==> (r matches Err(e) && (e matches LoxError::CompileError(
            m,
            _l,
        ) && m@ == "failed to compile!"@)),
        scan_clean(source@, 0, 1) ==> (r matches Err(e) && (e matches LoxError::InterpetError(
            m,
            l,
        ) && m@ == "Chunk is empty"@ && l == 0)),
{
    let mut chunk = Chunk::init();

    match compile(source, &mut chunk) {
        Ok(()) => {},
        Err(e) => {
            return Err(e);
        },
    }

    let mut vm = VM::init(&chunk);
    vm.evaluate()
}

} // verus!
