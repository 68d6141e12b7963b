use rustilox::compiler::error_token::ErrorToken;
use rustilox::compiler::token::TokenType;

#[test]
fn token_kinds_render_to_their_text() {
    assert_eq!(TokenType::LeftParen.render(), "(");
    assert_eq!(TokenType::BangEqual.render(), "!=");
    assert_eq!(TokenType::While.render(), "while");
    assert_eq!(TokenType::Identifier("spam").render(), "identifier: spam");
    assert_eq!(TokenType::String("hi").render(), "string: hi");
    assert_eq!(TokenType::Number("4.2").render(), "number: 4.2");
    assert_eq!(TokenType::Comment(" note").render(), "comment:  note");
    assert_eq!(
        TokenType::Error(ErrorToken::UnterminatedString).render(),
        "error: unterminated string"
    );
    assert_eq!(TokenType::Eof.render(), "eof");
}

#[test]
fn same_kind_disregards_payloads() {
    assert!(TokenType::Number("1").same_kind(&TokenType::Number("2")));
    assert!(!TokenType::Number("1").same_kind(&TokenType::Identifier("1")));
    assert!(TokenType::Eof.same_kind(&TokenType::Eof));
    assert!(!TokenType::Less.same_kind(&TokenType::LessEqual));
}

#[test]
fn error_token_messages() {
    assert_eq!(ErrorToken::StringUnderflow.message(), "string underflow");
    assert_eq!(ErrorToken::NumberOverflow.message(), "number overflow");
    assert_eq!(ErrorToken::CommentUnderflow.message(), "comment underflow");
    assert_eq!(ErrorToken::IdentifierOverflow.message(), "identifier overflow");
    let e = ErrorToken::UnexpectedCharacter('?');
    assert_eq!(e.clone().message(), "unexpected character: '?'");
}
