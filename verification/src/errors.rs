use vstd::prelude::*;
use vstd::string::StringExecFns;
use crate::text::dec_digits;
use crate::text::dec_u64;

verus! {

/// The error taxonomy of the interpreter.
///
/// Each evaluation-level variant carries a human-readable message and the
/// source line it is tagged with.
/// - `InterpetError`: an environment-level failure, such as asking the
///   machine to evaluate an empty chunk.
/// - `CompileError`: malformed or inconsistent bytecode (an unknown opcode,
///   or too few operands on the stack for a binary instruction).
/// - `RuntimeError`: an operator applied to operand variants for which it is
///   undefined.
/// - `ReplError`: a failure of the interactive front end.
#[derive(Debug)]
pub enum LoxError {
    InterpetError(String, usize),
    CompileError(String, usize),
    RuntimeError(String, usize),
    ReplError(String),
    NotImplemented,
}

impl LoxError {
    /// A short label for the error's class.
    pub fn description(&self) -> (r: &'static str)
        ensures
            r@ == self.description_spec(),
    {
        match self {
            LoxError::InterpetError(_, _) => "Interpret error",
            LoxError::CompileError(_, _) => "Compile error",
            LoxError::RuntimeError(_, _) => "Runtime error",
            LoxError::ReplError(_) => "Repl error",
            LoxError::NotImplemented => "Not implemented error",
        }
    }

    pub open spec fn description_spec(&self) -> Seq<char> {
        match self {
            LoxError::InterpetError(_, _) => "Interpret error"@,
            LoxError::CompileError(_, _) => "Compile error"@,
            LoxError::RuntimeError(_, _) => "Runtime error"@,
            LoxError::ReplError(_) => "Repl error"@,
            LoxError::NotImplemented => "Not implemented error"@,
        }
    }

    /// The full diagnostic line: the class, the message, and, for the
    /// evaluation-level classes, the source line.
    pub open spec fn message_spec(&self) -> Seq<char> {
        match self {
            LoxError::InterpetError(d, l) => "Interpret error: "@ + d@ + " on line "@
                + dec_digits(*l as int),
            LoxError::CompileError(d, l) => "Compile error: "@ + d@ + " on line "@
                + dec_digits(*l as int),
            LoxError::RuntimeError(d, l) => "Runtime error: "@ + d@ + " on line "@
                + dec_digits(*l as int),
            LoxError::ReplError(d) => "Repl error: "@ + d@,
            LoxError::NotImplemented => "Not implemented!"@,
        }
    }

    /// Renders the full diagnostic line.
    pub fn message(&self) -> (s: String)
        ensures
            s@ == self.message_spec(),
    {
        match self {
            LoxError::InterpetError(d, l) => {
                let mut s = String::from_str("Interpret error: ");
                s.append(d.as_str());
                s.append(" on line ");
                let n = dec_u64(*l as u64);
                s.append(n.as_str());
                s
            },
            LoxError::CompileError(d, l) => {
                let mut s = String::from_str("Compile error: ");
                s.append(d.as_str());
                s.append(" on line ");
                let n = dec_u64(*l as u64);
                s.append(n.as_str());
                s
            },
            LoxError::RuntimeError(d, l) => {
                let mut s = String::from_str("Runtime error: ");
                s.append(d.as_str());
                s.append(" on line ");
                let n = dec_u64(*l as u64);
                s.append(n.as_str());
                s
            },
            LoxError::ReplError(d) => {
                let mut s = String::from_str("Repl error: ");
                s.append(d.as_str());
                s
            },
            LoxError::NotImplemented => String::from_str("Not implemented!"),
        }
    }
}

} // verus!
