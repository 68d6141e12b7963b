//! The token-driven parser shell: it owns the scanner, tracks the current
//! and previous tokens, reports diagnostics, and emits bytes into a chunk.
//! The grammar-driven expression compiler that would call these operations
//! in precedence order is an external collaborator; here `expression` emits
//! nothing.
use vstd::prelude::*;
use crate::chunk::Chunk;
use crate::compiler::scanner::Scanner;
use crate::compiler::scanner::advance_spec;
use crate::compiler::scanner::scan_spec;
use crate::compiler::scanner::lemma_scan_progress;
use crate::compiler::scanner::lemma_advance_spec_bounds;
use crate::compiler::token::Token;
use crate::compiler::token::TokenType;
use crate::opcodes::OP_RETURN;
use crate::opcodes::OP_CONSTANT;
use crate::values::value::Value;
use crate::text::dec_u64;
use vstd::string::StringExecFns;

verus! {

/// The parser's cursor pair over the token stream, with error bookkeeping.
///
/// Diagnostics are collected rather than printed; the front end decides
/// what to do with them. `panic_mode` suppresses the cascade of reports
/// after a first error; it never holds without `had_error`.
pub struct Parser<'a> {
    pub current: Option<Token<'a>>,
    pub previous: Option<Token<'a>>,
    pub scanner: Scanner<'a>,
    pub had_error: bool,
    pub panic_mode: bool,
    pub diagnostics: Vec<String>,
}

impl<'a> Parser<'a> {
    pub open spec fn wf(&self) -> bool {
        &&& self.scanner.wf()
        &&& (self.panic_mode ==> self.had_error)
    }

    /// A parser at the start of `source`, with no tokens read yet.
    pub fn init(source: &'a str) -> (r: Parser<'a>)
        requires
            source@.len() < usize::MAX,
        ensures
            r.wf(),
            r.scanner.source == source,
            r.scanner.current == 0,
            r.scanner.line == 1,
            r.current is None,
            r.previous is None,
            !r.had_error,
            !r.panic_mode,
    {
        Parser {
            current: None,
            previous: None,
            scanner: Scanner::init(source),
            had_error: false,
            panic_mode: false,
            diagnostics: Vec::new(),
        }
    }

    /// Records a diagnostic for `token`, unless a previous error already
    /// put the parser into panic mode.
    fn error_at(&mut self, token: &Token<'a>, msg: &str)
        requires
            old(self).wf(),
        ensures
            final(self).wf(),
            final(self).scanner == old(self).scanner,
            final(self).current == old(self).current,
            final(self).previous == old(self).previous,
            final(self).panic_mode,
            final(self).had_error == (old(self).had_error || !old(self).panic_mode),
            old(self).panic_mode ==> final(self).diagnostics == old(self).diagnostics,
            !old(self).panic_mode ==> (final(self).diagnostics@.len() == old(
                self,
            ).diagnostics@.len() + 1 && final(self).diagnostics@.take(
                old(self).diagnostics@.len() as int,
            ) == old(self).diagnostics@),
    {
        if self.panic_mode {
            return;
        }
        self.panic_mode = true;

        let mut diag = String::from_str("[line ");
        let ln = dec_u64(token.line as u64);
        diag.append(ln.as_str());
        diag.append("] Error");
        match token.token_type {
            TokenType::Eof => {
                diag.append(" at end");
            },
            TokenType::Error(_) => {},
            _ => {
                diag.append(" at pos '");
                let pos = dec_u64(token.start as u64);
                diag.append(pos.as_str());
                diag.append("'");
            },
        }
        diag.append(": ");
        diag.append(msg);
        self.diagnostics.push(diag);
        self.had_error = true;
    }

    fn error_at_current(&mut self, msg: &str)
        requires
            old(self).wf(),
            old(self).current is Some,
        ensures
            final(self).wf(),
            final(self).scanner == old(self).scanner,
            final(self).current == old(self).current,
            final(self).previous == old(self).previous,
            final(self).panic_mode,
            final(self).had_error == (old(self).had_error || !old(self).panic_mode),
            old(self).panic_mode ==> final(self).diagnostics == old(self).diagnostics,
            !old(self).panic_mode ==> (final(self).diagnostics@.len() == old(
                self,
            ).diagnostics@.len() + 1 && final(self).diagnostics@.take(
                old(self).diagnostics@.len() as int,
            ) == old(self).diagnostics@),
    {
        let token = self.current.unwrap();
        self.error_at(&token, msg);
    }

    /// Shifts the token pair: the previous token becomes the one just
    /// consumed, and the current token becomes the next non-error token,
    /// with every error token on the way reported as a diagnostic.
    pub fn advance(&mut self)
        requires
            old(self).wf(),
        ensures
            final(self).wf(),
            final(self).scanner.source == old(self).scanner.source,
            final(self).previous == old(self).current,
            old(self).scanner.current <= final(self).scanner.current,
            ({
                let a = advance_spec(
                    old(self).scanner.source@,
                    old(self).scanner.current as int,
                    old(self).scanner.line as int,
                );
                &&& final(self).scanner.current as int == a.0.next
                &&& final(self).scanner.line as int == a.0.next_line
                &&& final(self).current matches Some(t) && t.token_type.kind() == a.0.kind
                &&& !(a.0.kind is Error)
                &&& final(self).had_error == (old(self).had_error || a.1)
                &&& final(self).panic_mode == (old(self).panic_mode || a.1)
                &&& (!(a.0.kind is Eof) ==> final(self).scanner.current > old(
                    self,
                ).scanner.current)
            }),
    {
        let ghost src = self.scanner.source@;
        let ghost cur0 = self.scanner.current as int;
        let ghost line0 = self.scanner.line as int;
        let ghost had0 = self.had_error;
        let ghost panic0 = self.panic_mode;
        let ghost taken = self.current;
        self.previous = self.current;
        let ghost mut skipped: bool = false;

        loop
            invariant_except_break
                advance_spec(src, cur0, line0).0 == advance_spec(
                    src,
                    self.scanner.current as int,
                    self.scanner.line as int,
                ).0,
                advance_spec(src, cur0, line0).1 == (skipped || advance_spec(
                    src,
                    self.scanner.current as int,
                    self.scanner.line as int,
                ).1),
            invariant
                self.wf(),
                self.scanner.source@ == src,
                self.scanner.source == old(self).scanner.source,
                0 <= cur0 <= src.len(),
                self.previous == taken,
                self.had_error == (had0 || skipped),
                self.panic_mode == (panic0 || skipped),
                cur0 <= self.scanner.current,
            ensures
                self.wf(),
                self.scanner.source == old(self).scanner.source,
                self.previous == taken,
                cur0 <= self.scanner.current,
                self.scanner.current as int == advance_spec(src, cur0, line0).0.next,
                self.scanner.line as int == advance_spec(src, cur0, line0).0.next_line,
                self.current matches Some(t) && t.token_type.kind() == advance_spec(
                    src,
                    cur0,
                    line0,
                ).0.kind,
                self.had_error == (had0 || advance_spec(src, cur0, line0).1),
                self.panic_mode == (panic0 || advance_spec(src, cur0, line0).1),
                !(advance_spec(src, cur0, line0).0.kind is Eof) ==> self.scanner.current > cur0,
            decreases src.len() - self.scanner.current,
        {
            let ghost cur_i = self.scanner.current as int;
            let ghost line_i = self.scanner.line as int;
            proof {
                lemma_scan_progress(src, cur_i, line_i);
            }
            let token = self.scanner.scan_token();
            self.current = Some(token);
            match token.token_type {
                TokenType::Error(e) => {
                    let mut m = String::from_str("error: ");
                    let em = e.message();
                    m.append(em.as_str());
                    self.error_at_current(m.as_str());
                    proof {
                        skipped = true;
                    }
                },
                _ => {
                    proof {
                        assert(advance_spec(src, cur_i, line_i) == (
                            scan_spec(src, cur_i, line_i),
                            false,
                        ));
                    }
                    break;
                },
            }
        }
        proof {
            lemma_advance_spec_bounds(src, cur0, line0);
        }
    }

    /// Consumes the current token when it has the expected kind; otherwise
    /// reports `msg` at the current token.
    pub fn consume(&mut self, token_type: TokenType<'a>, msg: &str)
        requires
            old(self).wf(),
            old(self).current is Some,
        ensures
            final(self).wf(),
            final(self).scanner.source == old(self).scanner.source,
            old(self).scanner.current <= final(self).scanner.current,
            (old(self).current matches Some(t) && t.token_type.tag() == token_type.tag()) ==> ({
                let a = advance_spec(
                    old(self).scanner.source@,
                    old(self).scanner.current as int,
                    old(self).scanner.line as int,
                );
                &&& final(self).previous == old(self).current
                &&& final(self).scanner.current as int == a.0.next
                &&& final(self).current matches Some(t2) && t2.token_type.kind() == a.0.kind
                &&& final(self).had_error == (old(self).had_error || a.1)
            }),
            (old(self).current matches Some(t) && t.token_type.tag() != token_type.tag()) ==> ({
                &&& final(self).scanner == old(self).scanner
                &&& final(self).current == old(self).current
                &&& final(self).previous == old(self).previous
                &&& final(self).had_error == (old(self).had_error || !old(self).panic_mode)
                &&& final(self).panic_mode
            }),
    {
        let cur = self.current.unwrap();
        if cur.token_type.same_kind(&token_type) {
            self.advance();
            return;
        }
        self.error_at_current(msg);
    }

    /// The grammar-driven expression compiler is an external collaborator;
    /// this shell emits nothing for an expression.
    pub fn expression(&self) {
    }

    /// Appends one byte to the chunk, tagged with the previous token's line.
    pub fn emit_byte(&self, chunk: &mut Chunk, byte: u8)
        requires
            self.previous is Some,
            old(chunk).wf(),
            old(chunk).count < usize::MAX / 2,
        ensures
            final(chunk).wf(),
            final(chunk).count == old(chunk).count + 1,
            final(chunk).code_seq() == old(chunk).code_seq().push(byte),
            final(chunk).constants == old(chunk).constants,
    {
        let prev = self.previous.unwrap();
        chunk.write(byte, prev.line);
    }

    /// Appends two bytes, most often an opcode and its operand.
    pub fn emit_bytes(&self, chunk: &mut Chunk, byte1: u8, byte2: u8)
        requires
            self.previous is Some,
            old(chunk).wf(),
            old(chunk).count + 1 < usize::MAX / 2,
        ensures
            final(chunk).wf(),
            final(chunk).count == old(chunk).count + 2,
            final(chunk).code_seq() == old(chunk).code_seq().push(byte1).push(byte2),
            final(chunk).constants == old(chunk).constants,
    {
        self.emit_byte(chunk, byte1);
        self.emit_byte(chunk, byte2);
    }

    /// Emits the return opcode.
    pub fn emit_return(&self, chunk: &mut Chunk)
        requires
            self.previous is Some,
            old(chunk).wf(),
            old(chunk).count < usize::MAX / 2,
        ensures
            final(chunk).wf(),
            final(chunk).count == old(chunk).count + 1,
            final(chunk).code_seq() == old(chunk).code_seq().push(OP_RETURN),
            final(chunk).constants == old(chunk).constants,
    {
        self.emit_byte(chunk, OP_RETURN);
    }

    /// Adds a constant to the pool, reporting a full pool as an error at
    /// the current token and falling back to index zero.
    fn make_constant(&mut self, chunk: &mut Chunk, value: Value) -> (r: u8)
        requires
            old(self).wf(),
            old(self).current is Some,
            old(chunk).wf(),
        ensures
            final(self).wf(),
            final(self).scanner == old(self).scanner,
            final(self).current == old(self).current,
            final(self).previous == old(self).previous,
            final(chunk).wf(),
            final(chunk).code@ == old(chunk).code@,
            final(chunk).lines@ == old(chunk).lines@,
            final(chunk).count == old(chunk).count,
            old(chunk).constants.count < 256 ==> {
                &&& r as int == old(chunk).constants.count as int
                &&& final(chunk).constants.contents() == old(chunk).constants.contents().push(
                    value,
                )
                &&& final(self).had_error == old(self).had_error
            },
            old(chunk).constants.count >= 256 ==> {
                &&& r == 0
                &&& final(chunk).constants == old(chunk).constants
                &&& final(self).had_error == (old(self).had_error || !old(self).panic_mode)
            },
    {
        match chunk.add_constant(value) {
            Ok(c) => c,
            Err(e) => {
                match e {
                    crate::errors::LoxError::CompileError(m, _) => {
                        self.error_at_current(m.as_str());
                    },
                    _ => {},
                }
                0
            },
        }
    }

    /// Emits a load-constant instruction for `value`: the value goes into
    /// the pool and its index becomes the operand byte.
    pub fn emit_constant(&mut self, chunk: &mut Chunk, value: Value)
        requires
            old(self).wf(),
            old(self).current is Some,
            old(self).previous is Some,
            old(chunk).wf(),
            old(chunk).count + 1 < usize::MAX / 2,
        ensures
            final(self).wf(),
            final(chunk).wf(),
            final(chunk).count == old(chunk).count + 2,
            old(chunk).constants.count < 256 ==> {
                &&& final(chunk).code_seq() == old(chunk).code_seq().push(OP_CONSTANT).push(
                    old(chunk).constants.count as u8,
                )
                &&& final(chunk).constants.contents() == old(chunk).constants.contents().push(
                    value,
                )
            },
    {
        let constant = self.make_constant(chunk, value);
        let prev = self.previous.unwrap();
        chunk.write(OP_CONSTANT, prev.line);
        chunk.write(constant, prev.line);
    }
}

} // verus!
