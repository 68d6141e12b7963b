//! The bytecode chunk: instruction bytes, a parallel line map, a constant
//! pool, and a textual disassembler over all three.
use vstd::prelude::*;
use crate::errors::LoxError;
use crate::opcodes::OP_RETURN;
use crate::opcodes::OP_CONSTANT;
use crate::opcodes::OP_NEGATE;
use crate::opcodes::OP_ADD;
use crate::opcodes::OP_SUBTRACT;
use crate::opcodes::OP_MULTIPLY;
use crate::opcodes::OP_DIVIDE;
use crate::opcodes::OP_EQUAL;
use crate::opcodes::OP_NOTEQUAL;
use crate::opcodes::OP_GREATER;
use crate::opcodes::OP_GREATEREQUAL;
use crate::opcodes::OP_LESSER;
use crate::opcodes::OP_LESSEREQUAL;
use crate::opcodes::OP_NOT;
use crate::values::value::Value;
use crate::values::valuearray::ValueArray;
use crate::values::valuearray::grow_capacity;
use crate::text::dec_pad4;
use crate::text::dec_digits;
use crate::text::pad4_u64;
use crate::text::dec_u64;
use vstd::string::StringExecFns;

verus! {

/// The compiled-bytecode container.
///
/// `code` holds the instruction stream and `lines` one source line per code
/// byte; both always have the same length (the allocated `capacity`), with
/// the written prefix of `count` bytes in use and zero filler beyond it.
/// `constants` is the chunk's pool of literal values, addressed by a single
/// operand byte.
pub struct Chunk {
    pub code: Vec<u8>,
    pub count: usize,
    pub capacity: usize,
    pub constants: ValueArray,
    pub lines: Vec<usize>,
}

/// One decodable position inside a borrowed chunk.
pub struct Instruction<'a> {
    pub chunk: &'a Chunk,
    pub offset: usize,
}

impl Chunk {
    /// Well-formedness: the two parallel buffers are the capacity, the
    /// written prefix fits, the filler is zero, and the pool is sound.
    pub open spec fn wf(&self) -> bool {
        &&& self.code@.len() == self.capacity
        &&& self.lines@.len() == self.capacity
        &&& self.count <= self.capacity
        &&& forall|i: int| self.count <= i < self.capacity ==> self.code@[i] == 0
        &&& forall|i: int| self.count <= i < self.capacity ==> self.lines@[i] == 0
        &&& self.constants.wf()
    }

    /// The written instruction bytes.
    pub open spec fn code_seq(&self) -> Seq<u8> {
        self.code@.take(self.count as int)
    }

    /// The written line numbers, one per instruction byte.
    pub open spec fn lines_seq(&self) -> Seq<usize> {
        self.lines@.take(self.count as int)
    }

    /// An empty, zero-capacity chunk ready for incremental writes.
    pub fn init() -> (r: Chunk)
        ensures
            r.wf(),
            r.count == 0,
            r.capacity == 0,
            r.constants.count == 0,
            r.constants.values@ == Seq::<Value>::empty(),
            r.code@ == Seq::<u8>::empty(),
            r.lines@ == Seq::<usize>::empty(),
    {
        Chunk {
            count: 0,
            capacity: 0,
            code: Vec::new(),
            constants: ValueArray::init(),
            lines: Vec::new(),
        }
    }

    /// A fully pre-populated chunk; the caller guarantees that the code and
    /// line buffers have equal length.
    pub fn build(constants: ValueArray, code: Vec<u8>, lines: Vec<usize>) -> (r: Chunk)
        requires
            code@.len() == lines@.len(),
            constants.wf(),
        ensures
            r.wf(),
            r.count == code@.len(),
            r.capacity == code@.len(),
            r.code@ == code@,
            r.lines@ == lines@,
            r.constants == constants,
            r.code_seq() == code@,
            r.lines_seq() == lines@,
    {
        let n = code.len();
        let r = Chunk { count: n, capacity: n, code, constants, lines };
        proof {
            assert(r.code_seq() =~= r.code@);
            assert(r.lines_seq() =~= r.lines@);
        }
        r
    }

    /// Appends one instruction byte and its source line, growing both
    /// buffers together so their lengths stay equal.
    pub fn write(&mut self, byte: u8, line: usize)
        requires
            old(self).wf(),
            old(self).count < usize::MAX / 2,
        ensures
            final(self).wf(),
            final(self).count == old(self).count + 1,
            final(self).code_seq() == old(self).code_seq().push(byte),
            final(self).lines_seq() == old(self).lines_seq().push(line),
            final(self).constants == old(self).constants,
            final(self).code@.len() == final(self).lines@.len(),
            final(self).capacity as int == (if old(self).count + 1 <= old(self).capacity {
                old(self).capacity as int
            } else {
                grow_capacity(old(self).capacity as int)
            }),
    {
        if self.capacity < self.count + 1 {
            let old_capacity = self.capacity;
            self.capacity = if old_capacity < 8 {
                8
            } else {
                old_capacity * 2
            };
            proof {
                assert(self.capacity == grow_capacity(old_capacity as int));
            }
            while self.code.len() < self.capacity
                invariant
                    old(self).code@.len() <= self.code@.len() <= self.capacity,
                    self.code@.subrange(0, old(self).code@.len() as int) == old(self).code@,
                    forall|i: int|
                        old(self).code@.len() <= i < self.code@.len() ==> self.code@[i] == 0,
                    self.lines == old(self).lines,
                    self.count == old(self).count,
                    self.constants == old(self).constants,
                    self.capacity == grow_capacity(old(self).capacity as int),
                decreases self.capacity - self.code.len(),
            {
                self.code.push(0);
            }
            while self.lines.len() < self.capacity
                invariant
                    old(self).lines@.len() <= self.lines@.len() <= self.capacity,
                    self.lines@.subrange(0, old(self).lines@.len() as int) == old(self).lines@,
                    forall|i: int|
                        old(self).lines@.len() <= i < self.lines@.len() ==> self.lines@[i] == 0,
                    self.code@.len() == self.capacity,
                    self.code@.subrange(0, old(self).code@.len() as int) == old(self).code@,
                    forall|i: int|
                        old(self).code@.len() <= i < self.code@.len() ==> self.code@[i] == 0,
                    self.count == old(self).count,
                    self.constants == old(self).constants,
                    self.capacity == grow_capacity(old(self).capacity as int),
                decreases self.capacity - self.lines.len(),
            {
                self.lines.push(0);
            }
        }
        let i = self.count;
        self.code[i] = byte;
        self.lines[i] = line;
        self.count = self.count + 1;
        proof {
            assert(final(self).code_seq() =~= old(self).code_seq().push(byte));
            assert(final(self).lines_seq() =~= old(self).lines_seq().push(line));
        }
    }

    /// Appends a value to the constant pool and returns the operand byte
    /// that addresses it. The pool holds at most 256 entries; one more is a
    /// construction-time error and leaves the chunk unchanged.
    pub fn add_constant(&mut self, value: Value) -> (r: Result<u8, LoxError>)
        requires
            old(self).wf(),
        ensures
            final(self).wf(),
            final(self).code@ == old(self).code@,
            final(self).lines@ == old(self).lines@,
            final(self).count == old(self).count,
            old(self).constants.count < 256 ==> {
                &&& r matches Ok(idx) && idx as int == old(self).constants.count as int
                &&& final(self).constants.count == old(self).constants.count + 1
                &&& final(self).constants.contents() == old(self).constants.contents().push(value)
            },
            old(self).constants.count >= 256 ==> {
                &&& (r matches Err(e) && e matches LoxError::CompileError(m, l) && m@
                    == "too many constants in one chunk"@ && l == 0)
                &&& *final(self) == *old(self)
            },
    {
        if self.constants.count >= 256 {
            return Err(
                LoxError::CompileError(String::from_str("too many constants in one chunk"), 0),
            );
        }
        let idx = self.constants.count as u8;
        self.constants.write(value);
        Ok(idx)
    }
}

/// The mnemonic of an opcode, right-aligned in a sixteen-character field.
pub open spec fn mnemonic16(op: u8) -> Seq<char> {
    if op == OP_RETURN { "       OP_RETURN"@ }
    else if op == OP_CONSTANT { "     OP_CONSTANT"@ }
    else if op == OP_NEGATE { "       OP_NEGATE"@ }
    else if op == OP_ADD { "          OP_ADD"@ }
    else if op == OP_SUBTRACT { "     OP_SUBTRACT"@ }
    else if op == OP_MULTIPLY { "     OP_MULTIPLY"@ }
    else if op == OP_DIVIDE { "       OP_DIVIDE"@ }
    else if op == OP_NOT { "          OP_NOT"@ }
    else if op == OP_EQUAL { "        OP_EQUAL"@ }
    else if op == OP_NOTEQUAL { "     OP_NOTEQUAL"@ }
    else if op == OP_GREATER { "      OP_GREATER"@ }
    else if op == OP_GREATEREQUAL { " OP_GREATEREQUAL"@ }
    else if op == OP_LESSER { "       OP_LESSER"@ }
    else if op == OP_LESSEREQUAL { "  OP_LESSEREQUAL"@ }
    else { Seq::<char>::empty() }
}

/// Whether an opcode byte is one the disassembler and machine know.
pub open spec fn known_opcode(op: u8) -> bool {
    op <= 13
}

impl Chunk {
    /// The offset/line prefix of a disassembled instruction: the four-digit
    /// offset, then the four-digit line, or `   | ` when the line repeats
    /// the previous byte's line.
    pub open spec fn line_prefix(&self, offset: int) -> Seq<char> {
        dec_pad4(offset) + " "@ + (if offset > 0 && self.lines@[offset] == self.lines@[offset - 1] {
            "   | "@
        } else {
            dec_pad4(self.lines@[offset] as int) + " "@
        })
    }

    /// The text of the instruction decoded at `offset`, and the offset of
    /// the next instruction. Decoding is best effort and never gets stuck:
    /// an unknown byte prints a diagnostic and advances by one, and a
    /// load-constant whose operand byte is missing or outside the pool
    /// prints a diagnostic in the operand's place.
    pub open spec fn instruction_spec(&self, offset: int) -> (Seq<char>, int) {
        let op = self.code@[offset];
        if op == OP_CONSTANT {
            if offset + 1 >= self.code@.len() {
                (self.line_prefix(offset) + mnemonic16(op) + " <missing operand>\n"@, offset + 1)
            } else {
                let operand = self.code@[offset + 1];
                if operand < self.constants.values@.len() {
                    (
                        self.line_prefix(offset) + mnemonic16(op) + " "@ + dec_pad4(operand as int)
                            + " '"@ + self.constants.values@[operand as int].render_spec() + "'\n"@,
                        offset + 2,
                    )
                } else {
                    (
                        self.line_prefix(offset) + mnemonic16(op) + " "@ + dec_pad4(operand as int)
                            + " <no such constant>\n"@,
                        offset + 2,
                    )
                }
            }
        } else if known_opcode(op) {
            (self.line_prefix(offset) + mnemonic16(op) + "\n"@, offset + 1)
        } else {
            (self.line_prefix(offset) + "Unknown opcode "@ + dec_digits(op as int) + "\n"@, offset + 1)
        }
    }

    /// Decodes one instruction for display, returning its text and the next
    /// offset.
    pub fn disassemble_instruction(&self, offset: usize) -> (r: (String, usize))
        requires
            self.wf(),
            offset < self.count,
        ensures
            r.0@ == self.instruction_spec(offset as int).0,
            r.1 == self.instruction_spec(offset as int).1,
            offset < r.1 <= offset + 2,
    {
        let mut s = pad4_u64(offset as u64);
        s.append(" ");
        if offset > 0 && self.lines[offset] == self.lines[offset - 1] {
            s.append("   | ");
        } else {
            let ln = pad4_u64(self.lines[offset] as u64);
            s.append(ln.as_str());
            s.append(" ");
        }
        proof {
            reveal_strlit(" ");
            reveal_strlit("   | ");
            assert(s@ =~= self.line_prefix(offset as int));
        }
        let op = self.code[offset];
        let (name, known): (&'static str, bool) = if op == OP_RETURN {
            ("       OP_RETURN", true)
        } else if op == OP_CONSTANT {
            ("     OP_CONSTANT", true)
        } else if op == OP_NEGATE {
            ("       OP_NEGATE", true)
        } else if op == OP_ADD {
            ("          OP_ADD", true)
        } else if op == OP_SUBTRACT {
            ("     OP_SUBTRACT", true)
        } else if op == OP_MULTIPLY {
            ("     OP_MULTIPLY", true)
        } else if op == OP_DIVIDE {
            ("       OP_DIVIDE", true)
        } else if op == OP_NOT {
            ("          OP_NOT", true)
        } else if op == OP_EQUAL {
            ("        OP_EQUAL", true)
        } else if op == OP_NOTEQUAL {
            ("     OP_NOTEQUAL", true)
        } else if op == OP_GREATER {
            ("      OP_GREATER", true)
        } else if op == OP_GREATEREQUAL {
            (" OP_GREATEREQUAL", true)
        } else if op == OP_LESSER {
            ("       OP_LESSER", true)
        } else if op == OP_LESSEREQUAL {
            ("  OP_LESSEREQUAL", true)
        } else {
            ("", false)
        };
        if op == OP_CONSTANT {
            s.append(name);
            if offset + 1 >= self.code.len() {
                s.append(" <missing operand>\n");
                proof {
                    reveal_strlit(" <missing operand>\n");
                    assert(s@ =~= self.instruction_spec(offset as int).0);
                }
                return (s, offset + 1);
            }
            s.append(" ");
            let operand = self.code[offset + 1];
            let opnd = pad4_u64(operand as u64);
            s.append(opnd.as_str());
            if (operand as usize) >= self.constants.values.len() {
                s.append(" <no such constant>\n");
                proof {
                    reveal_strlit(" ");
                    reveal_strlit(" <no such constant>\n");
                    assert(s@ =~= self.instruction_spec(offset as int).0);
                }
                return (s, offset + 2);
            }
            s.append(" '");
            let val = &self.constants.values[operand as usize];
            let vt = val.render();
            s.append(vt.as_str());
            s.append("'\n");
            proof {
                reveal_strlit(" ");
                reveal_strlit(" '");
                reveal_strlit("'\n");
                assert(s@ =~= self.instruction_spec(offset as int).0);
            }
            (s, offset + 2)
        } else if known {
            s.append(name);
            s.append("\n");
            proof {
                reveal_strlit("\n");
                assert(s@ =~= self.instruction_spec(offset as int).0);
            }
            (s, offset + 1)
        } else {
            s.append("Unknown opcode ");
            let d = dec_u64(op as u64);
            s.append(d.as_str());
            s.append("\n");
            proof {
                reveal_strlit("Unknown opcode ");
                reveal_strlit("\n");
                assert(s@ =~= self.instruction_spec(offset as int).0);
            }
            (s, offset + 1)
        }
    }

    /// A decodable handle on the instruction at `offset`.
    pub fn get_instruction(&self, offset: usize) -> (r: Instruction<'_>)
        ensures
            r.chunk == self,
            r.offset == offset,
    {
        Instruction { chunk: self, offset }
    }

    /// The disassembly of everything from offset `i` on: one line per
    /// instruction.
    pub open spec fn disassembly_from(&self, i: int) -> Seq<char>
        decreases self.count + 2 - i,
    {
        if i >= self.count {
            Seq::<char>::empty()
        } else {
            let step = self.instruction_spec(i);
            step.0 + self.disassembly_from(step.1)
        }
    }

    /// Renders the whole chunk, one line per decoded instruction.
    pub fn disassemble(&self) -> (r: String)
        requires
            self.wf(),
        ensures
            r@ == self.disassembly_from(0),
    {
        let mut s = String::new();
        let mut i: usize = 0;
        proof {
            assert(s@ + self.disassembly_from(0) =~= self.disassembly_from(0));
        }
        while i < self.count
            invariant
                self.wf(),
                s@ + self.disassembly_from(i as int) == self.disassembly_from(0),
            decreases self.count + 2 - i,
        {
            let (line, next) = self.disassemble_instruction(i);
            s.append(line.as_str());
            proof {
                assert(s@ + self.disassembly_from(next as int) =~= self.disassembly_from(0));
            }
            i = next;
        }
        proof {
            assert(s@ =~= self.disassembly_from(0));
        }
        s
    }
}

impl<'a> Instruction<'a> {
    /// The disassembled text of this instruction.
    pub fn text(&self) -> (r: String)
        requires
            self.chunk.wf(),
            self.offset < self.chunk.count,
        ensures
            r@ == self.chunk.instruction_spec(self.offset as int).0,
    {
        let (s, _next) = self.chunk.disassemble_instruction(self.offset);
        s
    }
}

} // verus!
