//! The stack machine: a fetch-decode-execute loop over a chunk's bytecode.
//!
//! The whole execution is modelled by the recursive spec function
//! [`run_from`]; `evaluate` is proved to return exactly the outcome that
//! model gives. Executions on which the model gets stuck (reads past the
//! buffers, or exact-integer overflow, where the machine could not proceed)
//! are excluded by `evaluate`'s precondition.
use vstd::prelude::*;
use core::cmp::Ordering;
use crate::chunk::Chunk;
use crate::errors::LoxError;
use crate::opcodes::OP_RETURN;
use crate::opcodes::OP_CONSTANT;
use crate::opcodes::OP_NEGATE;
use crate::opcodes::OP_ADD;
use crate::opcodes::OP_SUBTRACT;
use crate::opcodes::OP_MULTIPLY;
use crate::opcodes::OP_DIVIDE;
use crate::opcodes::OP_EQUAL;
use crate::opcodes::OP_NOTEQUAL;
use crate::opcodes::OP_GREATER;
use crate::opcodes::OP_GREATEREQUAL;
use crate::opcodes::OP_LESSER;
use crate::opcodes::OP_LESSEREQUAL;
use crate::opcodes::OP_NOT;
use crate::values::value::Value;
use crate::values::value::val_eq;
use crate::values::value::val_cmp;
use crate::text::dec_pad4;
use vstd::string::StringExecFns;

verus! {

/// The error classes the machine can stop with, short of a full result.
pub ghost enum FaultKind {
    Compile,
    Runtime,
}

/// What executing a chunk from a given state comes to.
pub ghost enum RunOutcome {
    /// A `return` instruction yielded this value.
    Done(Value),
    /// The machine stopped with an error of this class, message and line.
    Fault(FaultKind, Seq<char>, int),
    /// The model could not proceed: a fetch past the buffers, a constant
    /// index outside the pool, or exact-integer overflow.
    Stuck,
}

/// Whether the two top-of-stack operands would make the exact-integer
/// operation overflow or divide by zero, which the machine cannot execute.
pub open spec fn natural_op_stuck(op: u8, a: Value, b: Value) -> bool {
    match (a, b) {
        (Value::_Natural(x), Value::_Natural(y)) => {
            if op == OP_ADD {
                !(i64::MIN <= x + y <= i64::MAX)
            } else if op == OP_SUBTRACT {
                !(i64::MIN <= x - y <= i64::MAX)
            } else if op == OP_MULTIPLY {
                !(i64::MIN <= x * y <= i64::MAX)
            } else {
                y == 0 || (x == i64::MIN && y == -1)
            }
        },
        _ => false,
    }
}

/// The result a defined binary arithmetic opcode gives on two operands.
pub open spec fn arith_spec(op: u8, a: Value, b: Value) -> Option<Value> {
    if op == OP_ADD {
        a.add_spec(b)
    } else if op == OP_SUBTRACT {
        a.sub_spec(b)
    } else if op == OP_MULTIPLY {
        a.mul_spec(b)
    } else {
        a.div_spec(b)
    }
}

/// The error message of a failed binary arithmetic opcode.
pub open spec fn arith_fail_msg(op: u8) -> Seq<char> {
    if op == OP_ADD {
        "can't add values of differing types"@
    } else if op == OP_SUBTRACT {
        "can't subtract values of differing types"@
    } else if op == OP_MULTIPLY {
        "can't multiply values of differing types"@
    } else {
        "can't divide values of differing types"@
    }
}

/// The boolean a comparison opcode pushes for an ordering between its
/// operands: `greater-or-equal` is true unless the order is strictly less,
/// and `less-or-equal` is true unless it is strictly greater.
pub open spec fn compare_result(op: u8, o: Ordering) -> bool {
    if op == OP_GREATER {
        o == Ordering::Greater
    } else if op == OP_GREATEREQUAL {
        o != Ordering::Less
    } else if op == OP_LESSER {
        o == Ordering::Less
    } else {
        o != Ordering::Greater
    }
}

/// One fetch-decode-execute run to completion: the outcome of executing
/// `code` (with its parallel `lines` buffer and constant pool `consts`)
/// from instruction pointer `ip` with the given operand stack.
pub open spec fn run_from(
    code: Seq<u8>,
    lines: Seq<usize>,
    consts: Seq<Value>,
    ip: int,
    stack: Seq<Value>,
) -> RunOutcome
    decreases code.len() + 2 - ip,
{
    if ip < 0 || ip >= code.len() {
        RunOutcome::Stuck
    } else {
        let op = code[ip];
        let line = lines[ip] as int;
        if op == OP_RETURN {
            RunOutcome::Done(
                if stack.len() > 0 {
                    stack.last()
                } else {
                    Value::Nil
                },
            )
        } else if op == OP_CONSTANT {
            if ip + 1 >= code.len() {
                RunOutcome::Stuck
            } else if code[ip + 1] >= consts.len() {
                RunOutcome::Stuck
            } else {
                run_from(code, lines, consts, ip + 2, stack.push(consts[code[ip + 1] as int]))
            }
        } else if op == OP_NEGATE {
            if stack.len() == 0 {
                RunOutcome::Fault(FaultKind::Compile, "stack underflow"@, line)
            } else if stack.last() matches Value::_Natural(n) && n == i64::MIN {
                RunOutcome::Stuck
            } else {
                match stack.last().neg_spec() {
                    Some(v) => run_from(code, lines, consts, ip + 1, stack.drop_last().push(v)),
                    None => RunOutcome::Fault(
                        FaultKind::Runtime,
                        "can't negate a non-numeric value"@,
                        line,
                    ),
                }
            }
        } else if op == OP_ADD || op == OP_SUBTRACT || op == OP_MULTIPLY || op == OP_DIVIDE {
            if stack.len() < 2 {
                RunOutcome::Fault(FaultKind::Compile, "stack underflow"@, line)
            } else {
                let b = stack.last();
                let a = stack[stack.len() - 2];
                if natural_op_stuck(op, a, b) {
                    RunOutcome::Stuck
                } else {
                    match arith_spec(op, a, b) {
                        Some(v) => run_from(
                            code,
                            lines,
                            consts,
                            ip + 1,
                            stack.drop_last().drop_last().push(v),
                        ),
                        None => RunOutcome::Fault(FaultKind::Runtime, arith_fail_msg(op), line),
                    }
                }
            }
        } else if op == OP_NOT {
            if stack.len() == 0 {
                RunOutcome::Fault(FaultKind::Compile, "stack underflow"@, line)
            } else {
                match stack.last().not_spec() {
                    Some(v) => run_from(code, lines, consts, ip + 1, stack.drop_last().push(v)),
                    None => RunOutcome::Fault(
                        FaultKind::Runtime,
                        "can't ! a non-boolean value"@,
                        line,
                    ),
                }
            }
        } else if op == OP_EQUAL || op == OP_NOTEQUAL {
            if stack.len() < 2 {
                RunOutcome::Fault(FaultKind::Compile, "stack underflow"@, line)
            } else {
                let b = stack.last();
                let a = stack[stack.len() - 2];
                let r = if op == OP_EQUAL {
                    val_eq(a, b)
                } else {
                    !val_eq(a, b)
                };
                run_from(
                    code,
                    lines,
                    consts,
                    ip + 1,
                    stack.drop_last().drop_last().push(Value::Boolean(r)),
                )
            }
        } else if op == OP_GREATER || op == OP_GREATEREQUAL || op == OP_LESSER || op
            == OP_LESSEREQUAL {
            if stack.len() < 2 {
                RunOutcome::Fault(FaultKind::Compile, "stack underflow"@, line)
            } else {
                let b = stack.last();
                let a = stack[stack.len() - 2];
                match val_cmp(a, b) {
                    Some(o) => run_from(
                        code,
                        lines,
                        consts,
                        ip + 1,
                        stack.drop_last().drop_last().push(Value::Boolean(compare_result(op, o))),
                    ),
                    None => RunOutcome::Fault(
                        FaultKind::Runtime,
                        "can't compare values of differing types"@,
                        line,
                    ),
                }
            }
        } else {
            RunOutcome::Fault(FaultKind::Compile, "unknown opcode "@ + dec_pad4(op as int), line)
        }
    }
}

/// An opcode with too few operands on the stack stops the machine with a
/// compile-class stack underflow tagged with that opcode's line — never
/// with a runtime-class type error. In particular, a chunk whose first
/// instruction is an arithmetic opcode fails this way on an empty stack.
pub proof fn binary_underflow_is_compile_fault(
    code: Seq<u8>,
    lines: Seq<usize>,
    consts: Seq<Value>,
    ip: int,
    stack: Seq<Value>,
)
    requires
        0 <= ip < code.len(),
        code[ip] == OP_ADD || code[ip] == OP_SUBTRACT || code[ip] == OP_MULTIPLY || code[ip]
            == OP_DIVIDE || code[ip] == OP_EQUAL || code[ip] == OP_NOTEQUAL || code[ip]
            == OP_GREATER || code[ip] == OP_GREATEREQUAL || code[ip] == OP_LESSER || code[ip]
            == OP_LESSEREQUAL,
        stack.len() < 2,
    ensures
        run_from(code, lines, consts, ip, stack) == RunOutcome::Fault(
            FaultKind::Compile,
            "stack underflow"@,
            lines[ip] as int,
        ),
{
}

/// The unary opcodes fail the same way on an empty stack.
pub proof fn unary_underflow_is_compile_fault(
    code: Seq<u8>,
    lines: Seq<usize>,
    consts: Seq<Value>,
    ip: int,
    stack: Seq<Value>,
)
    requires
        0 <= ip < code.len(),
        code[ip] == OP_NEGATE || code[ip] == OP_NOT,
        stack.len() == 0,
    ensures
        run_from(code, lines, consts, ip, stack) == RunOutcome::Fault(
            FaultKind::Compile,
            "stack underflow"@,
            lines[ip] as int,
        ),
{
}

/// Ordering opcodes on operands of differing variants always stop the
/// machine with a runtime-class type error, while the equality opcodes
/// never fail: on differing variants they push `false` for equal and
/// `true` for not-equal.
pub proof fn mismatched_variants_comparison_law(
    code: Seq<u8>,
    lines: Seq<usize>,
    consts: Seq<Value>,
    ip: int,
    stack: Seq<Value>,
)
    requires
        0 <= ip < code.len(),
        stack.len() >= 2,
        ({
            let a = stack[stack.len() - 2];
            let b = stack.last();
            &&& !(a is Nil && b is Nil)
            &&& !(a is Real && b is Real)
            &&& !(a is _Natural && b is _Natural)
            &&& !(a is Boolean && b is Boolean)
        }),
    ensures
        (code[ip] == OP_GREATER || code[ip] == OP_GREATEREQUAL || code[ip] == OP_LESSER || code[ip]
            == OP_LESSEREQUAL) ==> run_from(code, lines, consts, ip, stack) == RunOutcome::Fault(
            FaultKind::Runtime,
            "can't compare values of differing types"@,
            lines[ip] as int,
        ),
        code[ip] == OP_EQUAL ==> run_from(code, lines, consts, ip, stack) == run_from(
            code,
            lines,
            consts,
            ip + 1,
            stack.drop_last().drop_last().push(Value::Boolean(false)),
        ),
        code[ip] == OP_NOTEQUAL ==> run_from(code, lines, consts, ip, stack) == run_from(
            code,
            lines,
            consts,
            ip + 1,
            stack.drop_last().drop_last().push(Value::Boolean(true)),
        ),
{
    crate::values::value::mismatched_variants_law(stack[stack.len() - 2], stack.last());
}

/// Whether an error value carries the given fault: the right variant,
/// message and line.
pub open spec fn matches_fault(e: LoxError, k: FaultKind, msg: Seq<char>, line: int) -> bool {
    match k {
        FaultKind::Compile => e matches LoxError::CompileError(m, l) && m@ == msg && l == line,
        FaultKind::Runtime => e matches LoxError::RuntimeError(m, l) && m@ == msg && l == line,
    }
}

/// The stack machine. It borrows the chunk it executes for the duration of
/// one evaluation; each instance is built, run once, and discarded.
pub struct VM<'a> {
    pub chunk: &'a Chunk,
    pub ip: usize,
    pub stack: Vec<Value>,
}

impl<'a> VM<'a> {
    /// The outcome the model assigns to this machine state.
    pub open spec fn run_spec(&self) -> RunOutcome {
        run_from(
            self.chunk.code@,
            self.chunk.lines@,
            self.chunk.constants.values@,
            self.ip as int,
            self.stack@,
        )
    }

    /// A fresh machine over `chunk`: instruction pointer at zero, empty
    /// stack.
    pub fn init(chunk: &'a Chunk) -> (r: VM<'a>)
        ensures
            r.chunk == chunk,
            r.ip == 0,
            r.stack@ == Seq::<Value>::empty(),
    {
        VM { chunk, ip: 0, stack: Vec::new() }
    }

    /// Fetches the byte at the instruction pointer and advances past it.
    fn read_byte(&mut self) -> (r: u8)
        requires
            old(self).ip < old(self).chunk.code@.len(),
        ensures
            final(self).chunk == old(self).chunk,
            final(self).stack == old(self).stack,
            final(self).ip == old(self).ip + 1,
            r == old(self).chunk.code@[old(self).ip as int],
    {
        let n = self.chunk.code.len();
        self.ip = self.ip + 1;
        self.chunk.code[self.ip - 1]
    }

    /// Fetches the operand byte and copies the constant it addresses.
    fn read_constant(&mut self) -> (r: Value)
        requires
            old(self).ip < old(self).chunk.code@.len(),
            old(self).chunk.code@[old(self).ip as int] < old(self).chunk.constants.values@.len(),
        ensures
            final(self).chunk == old(self).chunk,
            final(self).stack == old(self).stack,
            final(self).ip == old(self).ip + 1,
            r == old(self).chunk.constants.values@[old(self).chunk.code@[old(self).ip as int] as int],
    {
        let loc = self.read_byte();
        self.chunk.constants.values[loc as usize]
    }

    /// Pops the two operands of a binary opcode: the first popped is the
    /// right-hand operand. Too few operands is a compile-class stack
    /// underflow tagged with the failing opcode's line.
    fn binary_op(&mut self) -> (r: Result<(Value, Value), LoxError>)
        requires
            old(self).chunk.wf(),
            1 <= old(self).ip <= old(self).chunk.code@.len(),
        ensures
            final(self).chunk == old(self).chunk,
            final(self).ip == old(self).ip,
            old(self).stack@.len() >= 2 ==> {
                &&& r matches Ok(p) && p.0 == old(self).stack@[old(self).stack@.len() - 2] && p.1
                    == old(self).stack@.last()
                &&& final(self).stack@ == old(self).stack@.drop_last().drop_last()
            },
            old(self).stack@.len() < 2 ==> (r matches Err(e) && (e matches LoxError::CompileError(
                m,
                l,
            ) && m@ == "stack underflow"@ && l == old(self).chunk.lines@[old(self).ip - 1])),
            old(self).stack@.len() < 2 ==> final(self).stack@.len() == 0,
    {
        let line = self.chunk.lines[self.ip - 1];
        let b = match self.stack.pop() {
            Some(v) => v,
            None => {
                return Err(LoxError::CompileError(String::from_str("stack underflow"), line));
            },
        };
        let a = match self.stack.pop() {
            Some(v) => v,
            None => {
                return Err(LoxError::CompileError(String::from_str("stack underflow"), line));
            },
        };
        Ok((a, b))
    }

    /// Runs the chunk to completion, returning the yielded value or the
    /// error the model assigns. An empty chunk is an interpret-level error;
    /// otherwise the result is exactly what [`run_from`] says, and states on
    /// which the model gets stuck are excluded up front.
    pub fn evaluate(&mut self) -> (r: Result<Value, LoxError>)
        requires
            old(self).chunk.wf(),
            old(self).chunk.count == 0 || !(old(self).run_spec() is Stuck),
        ensures
            old(self).chunk.count == 0 ==> (r matches Err(e) && (e matches LoxError::InterpetError(
                m,
                l,
            ) && m@ == "Chunk is empty"@ && l == 0)),
            old(self).chunk.count != 0 ==> match old(self).run_spec() {
                RunOutcome::Done(v) => r matches Ok(rv) && rv == v,
                RunOutcome::Fault(k, msg, line) => r matches Err(e) && matches_fault(
                    e,
                    k,
                    msg,
                    line,
                ),
                RunOutcome::Stuck => false,
            },
    {
        if self.chunk.count == 0 {
            return Err(LoxError::InterpetError(String::from_str("Chunk is empty"), 0));
        }

        loop
            invariant
                self.chunk == old(self).chunk,
                self.chunk.wf(),
                old(self).chunk.count != 0,
                self.ip <= self.chunk.code@.len(),
                self.run_spec() == old(self).run_spec(),
                !(self.run_spec() is Stuck),
            decreases self.chunk.code@.len() - self.ip,
        {
            let ghost pre = *self;

            let instruction = self.read_byte();
            let line = self.chunk.lines[self.ip - 1];

            if instruction == OP_RETURN {
                let top = match self.stack.pop() {
                    Some(v) => v,
                    None => Value::Nil,
                };
                return Ok(top);
            } else if instruction == OP_CONSTANT {
                proof {
                    if pre.ip + 1 >= pre.chunk.code@.len() {
                        assert(pre.run_spec() is Stuck);
                    }
                    if pre.chunk.code@[pre.ip + 1] >= pre.chunk.constants.values@.len() {
                        assert(pre.run_spec() is Stuck);
                    }
                }
                let new_constant = self.read_constant();
                self.stack.push(new_constant);
            } else if instruction == OP_NEGATE {
                let top = match self.stack.pop() {
                    Some(v) => v,
                    None => {
                        return Err(
                            LoxError::CompileError(String::from_str("stack underflow"), line),
                        );
                    },
                };
                proof {
                    if top matches Value::_Natural(n) && n == i64::MIN {
                        assert(pre.run_spec() is Stuck);
                    }
                }
                match top.neg() {
                    Some(v) => {
                        self.stack.push(v);
                        proof {
                            assert(self.stack@ =~= pre.stack@.drop_last().push(v));
                        }
                    },
                    None => {
                        return Err(
                            LoxError::RuntimeError(
                                String::from_str("can't negate a non-numeric value"),
                                line,
                            ),
                        );
                    },
                }
            } else if instruction == OP_ADD {
                let (a, b) = match self.binary_op() {
                    Ok(p) => p,
                    Err(e) => {
                        return Err(e);
                    },
                };
                proof {
                    if natural_op_stuck(OP_ADD, a, b) {
                        assert(pre.run_spec() is Stuck);
                    }
                }
                match a.add(b) {
                    Some(v) => {
                        self.stack.push(v);
                    },
                    None => {
                        return Err(
                            LoxError::RuntimeError(
                                String::from_str("can't add values of differing types"),
                                line,
                            ),
                        );
                    },
                }
            } else if instruction == OP_SUBTRACT {
                let (a, b) = match self.binary_op() {
                    Ok(p) => p,
                    Err(e) => {
                        return Err(e);
                    },
                };
                proof {
                    if natural_op_stuck(OP_SUBTRACT, a, b) {
                        assert(pre.run_spec() is Stuck);
                    }
                }
                match a.sub(b) {
                    Some(v) => {
                        self.stack.push(v);
                    },
                    None => {
                        return Err(
                            LoxError::RuntimeError(
                                String::from_str("can't subtract values of differing types"),
                                line,
                            ),
                        );
                    },
                }
            } else if instruction == OP_MULTIPLY {
                let (a, b) = match self.binary_op() {
                    Ok(p) => p,
                    Err(e) => {
                        return Err(e);
                    },
                };
                proof {
                    if natural_op_stuck(OP_MULTIPLY, a, b) {
                        assert(pre.run_spec() is Stuck);
                    }
                }
                match a.mul(b) {
                    Some(v) => {
                        self.stack.push(v);
                    },
                    None => {
                        return Err(
                            LoxError::RuntimeError(
                                String::from_str("can't multiply values of differing types"),
                                line,
                            ),
                        );
                    },
                }
            } else if instruction == OP_DIVIDE {
                let (a, b) = match self.binary_op() {
                    Ok(p) => p,
                    Err(e) => {
                        return Err(e);
                    },
                };
                proof {
                    if natural_op_stuck(OP_DIVIDE, a, b) {
                        assert(pre.run_spec() is Stuck);
                    }
                }
                match a.div(b) {
                    Some(v) => {
                        self.stack.push(v);
                    },
                    None => {
                        return Err(
                            LoxError::RuntimeError(
                                String::from_str("can't divide values of differing types"),
                                line,
                            ),
                        );
                    },
                }
            } else if instruction == OP_NOT {
                let top = match self.stack.pop() {
                    Some(v) => v,
                    None => {
                        return Err(
                            LoxError::CompileError(String::from_str("stack underflow"), line),
                        );
                    },
                };
                match top.not() {
                    Some(v) => {
                        self.stack.push(v);
                        proof {
                            assert(self.stack@ =~= pre.stack@.drop_last().push(v));
                        }
                    },
                    None => {
                        return Err(
                            LoxError::RuntimeError(
                                String::from_str("can't ! a non-boolean value"),
                                line,
                            ),
                        );
                    },
                }
            } else if instruction == OP_EQUAL {
                let (a, b) = match self.binary_op() {
                    Ok(p) => p,
                    Err(e) => {
                        return Err(e);
                    },
                };
                self.stack.push(Value::Boolean(a == b));
            } else if instruction == OP_NOTEQUAL {
                let (a, b) = match self.binary_op() {
                    Ok(p) => p,
                    Err(e) => {
                        return Err(e);
                    },
                };
                self.stack.push(Value::Boolean(a != b));
            } else if instruction == OP_GREATER || instruction == OP_GREATEREQUAL || instruction
                == OP_LESSER || instruction == OP_LESSEREQUAL {
                let (a, b) = match self.binary_op() {
                    Ok(p) => p,
                    Err(e) => {
                        return Err(e);
                    },
                };
                let ordering = match a.partial_cmp(&b) {
                    Some(o) => o,
                    None => {
                        return Err(
                            LoxError::RuntimeError(
                                String::from_str("can't compare values of differing types"),
                                line,
                            ),
                        );
                    },
                };
                let outcome: bool = if instruction == OP_GREATER {
                    match ordering {
                        Ordering::Greater => true,
                        _ => false,
                    }
                } else if instruction == OP_GREATEREQUAL {
                    match ordering {
                        Ordering::Less => false,
                        _ => true,
                    }
                } else if instruction == OP_LESSER {
                    match ordering {
                        Ordering::Less => true,
                        _ => false,
                    }
                } else {
                    match ordering {
                        Ordering::Greater => false,
                        _ => true,
                    }
                };
                self.stack.push(Value::Boolean(outcome));
            } else {
                let mut msg = String::from_str("unknown opcode ");
                let num = crate::text::pad4_u64(instruction as u64);
                msg.append(num.as_str());
                proof {
                    assert(msg@ =~= "unknown opcode "@ + dec_pad4(instruction as int));
                }
                return Err(LoxError::CompileError(msg, line));
            }
        }
    }
}

} // verus!
