use rustilox::chunk::Chunk;
use rustilox::compiler::parser::Parser;
use rustilox::compiler::precedence::Precedence;
use rustilox::compiler::token::TokenType;
use rustilox::opcodes::OP_CONSTANT;
use rustilox::opcodes::OP_RETURN;
use rustilox::Value;

#[test]
fn advance_shifts_the_token_pair() {
    let mut parser = Parser::init("1 2");
    parser.advance();
    assert!(matches!(
        parser.current,
        Some(t) if matches!(t.token_type, TokenType::Number("1"))
    ));
    assert!(parser.previous.is_none());
    parser.advance();
    assert!(matches!(
        parser.previous,
        Some(t) if matches!(t.token_type, TokenType::Number("1"))
    ));
    assert!(matches!(
        parser.current,
        Some(t) if matches!(t.token_type, TokenType::Number("2"))
    ));
    parser.advance();
    assert!(matches!(
        parser.current,
        Some(t) if matches!(t.token_type, TokenType::Eof)
    ));
    assert!(!parser.had_error);
}

#[test]
fn advance_skips_error_tokens_and_reports_them() {
    let mut parser = Parser::init("@ nil");
    parser.advance();
    assert!(matches!(
        parser.current,
        Some(t) if matches!(t.token_type, TokenType::Nil)
    ));
    assert!(parser.had_error);
    assert!(parser.panic_mode);
    assert_eq!(parser.diagnostics.len(), 1);
    assert_eq!(
        parser.diagnostics[0],
        "[line 1] Error: error: unexpected character: '@'"
    );
}

#[test]
fn consume_of_the_wrong_kind_reports_at_the_current_token() {
    let mut parser = Parser::init("nil");
    parser.advance();
    parser.consume(TokenType::Semicolon, "expected a semicolon");
    assert!(parser.had_error);
    assert_eq!(parser.diagnostics.len(), 1);
    assert_eq!(
        parser.diagnostics[0],
        "[line 1] Error at pos '0': expected a semicolon"
    );
}

#[test]
fn emitting_bytes_tags_them_with_the_previous_line() {
    let mut parser = Parser::init("nil\nnil");
    parser.advance();
    parser.advance();
    parser.advance();
    let mut chunk = Chunk::init();
    parser.emit_return(&mut chunk);
    assert_eq!(chunk.count, 1);
    assert_eq!(chunk.code[0], OP_RETURN);
    assert_eq!(chunk.lines[0], 2);
}

#[test]
fn emit_constant_writes_the_pool_index_as_operand() {
    let mut parser = Parser::init("7");
    parser.advance();
    parser.advance();
    let mut chunk = Chunk::init();
    parser.emit_constant(&mut chunk, Value::Real(7.0f64.to_bits()));
    assert_eq!(chunk.count, 2);
    assert_eq!(chunk.code[0], OP_CONSTANT);
    assert_eq!(chunk.code[1], 0);
    assert_eq!(chunk.constants.count, 1);
    assert_eq!(chunk.constants.values[0], Value::Real(7.0f64.to_bits()));
}

#[test]
fn precedence_levels_are_distinct() {
    assert_eq!(Precedence::Term, Precedence::Term);
    assert_ne!(Precedence::Term, Precedence::Factor);
    assert_ne!(Precedence::Lowest, Precedence::Primary);
}
