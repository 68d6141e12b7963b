//! The compilation front end: tokens, the scanner, and the token-driven
//! parser shell that feeds a chunk.
pub mod error_token;
pub mod parser;
pub mod precedence;
pub mod scanner;
pub mod token;

use vstd::prelude::*;
use crate::chunk::Chunk;
use crate::errors::LoxError;
use crate::compiler::parser::Parser;
use crate::compiler::scanner::scan_clean;
use crate::compiler::scanner::lemma_scan_clean_advance;
use crate::compiler::scanner::lemma_advance_spec_bounds;
use crate::compiler::scanner::advance_spec;
use crate::compiler::token::TokenType;
use vstd::string::StringExecFns;

verus! {

/// Drives the scanner over the whole source through the parser shell,
/// reporting every lexical error, and succeeds exactly when the source
/// tokenizes to end-of-input with no error token. No bytecode is emitted:
/// the grammar-driven code generator is an external collaborator, and the
/// chunk passes through unchanged.
pub fn compile(source: &str, chunk: &mut Chunk) -> (r: Result<(), LoxError>)
    requires
        source@.len() < usize::MAX,
    ensures
        *final(chunk) == *old(chunk),
        r is Ok <==> scan_clean(source@, 0, 1),
        r matches Err(e) ==> (e matches LoxError::CompileError(m, _l) && m@
            == "failed to compile!"@),
{
    let mut parser = Parser::init(source);
    proof {
        lemma_scan_clean_advance(source@, 0, 1);
        lemma_advance_spec_bounds(source@, 0, 1);
    }
    parser.advance();

    loop
        invariant
            parser.wf(),
            parser.scanner.source == source,
            parser.current matches Some(t) && !(t.token_type.kind() is Error),
            (parser.current matches Some(t) && t.token_type.kind() is Eof)
                ==> parser.scanner.current == source@.len(),
            scan_clean(source@, 0, 1) <==> (!parser.had_error && ((
            parser.current matches Some(t) && t.token_type.kind() is Eof) || scan_clean(
                source@,
                parser.scanner.current as int,
                parser.scanner.line as int,
            ))),
        ensures
            parser.wf(),
            parser.scanner.source == source,
            parser.current matches Some(t) && t.token_type.kind() is Eof,
            parser.scanner.current == source@.len(),
            scan_clean(source@, 0, 1) <==> !parser.had_error,
        decreases
            source@.len() - parser.scanner.current,
            (if parser.current matches Some(t) && t.token_type.kind() is Eof {
                0int
            } else {
                1int
            }),
    {
        let at_end = match &parser.current {
            Some(t) => match t.token_type {
                TokenType::Eof => true,
                _ => false,
            },
            None => false,
        };
        if at_end {
            break;
        }
        proof {
            lemma_scan_clean_advance(
                source@,
                parser.scanner.current as int,
                parser.scanner.line as int,
            );
            lemma_advance_spec_bounds(
                source@,
                parser.scanner.current as int,
                parser.scanner.line as int,
            );
        }
        parser.advance();
    }

    proof {
        assert(advance_spec(
            source@,
            parser.scanner.current as int,
            parser.scanner.line as int,
        ).1 == false);
    }
    parser.consume(TokenType::Eof, "expected end of expression");

    if parser.had_error {
        return Err(
            LoxError::CompileError(String::from_str("failed to compile!"), parser.scanner.line),
        );
    }
    Ok(())
}

} // verus!
