use rustilox::compiler::error_token::ErrorToken;
use rustilox::compiler::scanner::Scanner;
use rustilox::compiler::token::Token;
use rustilox::compiler::token::TokenType;

fn kinds_of(source: &str) -> Vec<Token<'_>> {
    let mut scanner = Scanner::init(source);
    let mut out = Vec::new();
    loop {
        let token = scanner.scan_token();
        let done = matches!(token.token_type, TokenType::Eof);
        out.push(token);
        if done {
            return out;
        }
    }
}

#[test]
fn numeric_literal_scans_to_one_number_token() {
    for src in ["42", "3.14", "0.5", "1000", "12.0"] {
        let tokens = kinds_of(src);
        assert_eq!(tokens.len(), 2);
        match tokens[0].token_type {
            TokenType::Number(slice) => {
                assert_eq!(slice, src);
                let parsed: f64 = slice.parse().unwrap();
                let original: f64 = src.parse().unwrap();
                assert_eq!(parsed.to_bits(), original.to_bits());
            },
            _ => panic!("expected a number token for {:?}", src),
        }
        assert!(matches!(tokens[1].token_type, TokenType::Eof));
    }
}

#[test]
fn trailing_dot_is_not_part_of_the_number() {
    let tokens = kinds_of("7.");
    assert_eq!(tokens.len(), 3);
    assert!(matches!(tokens[0].token_type, TokenType::Number("7")));
    assert!(matches!(tokens[1].token_type, TokenType::Dot));
}

#[test]
fn reserved_words_scan_to_keywords_not_identifiers() {
    let words = [
        "and", "class", "else", "false", "for", "fun", "if", "nil", "or", "print", "return",
        "super", "this", "true", "var", "while",
    ];
    for word in words {
        let tokens = kinds_of(word);
        assert_eq!(tokens.len(), 2, "{}", word);
        assert!(
            !matches!(tokens[0].token_type, TokenType::Identifier(_)),
            "{} scanned as an identifier",
            word
        );
        let with_suffix = format!("{}x", word);
        let suffixed = kinds_of(&with_suffix);
        assert_eq!(suffixed.len(), 2, "{}", with_suffix);
        match suffixed[0].token_type {
            TokenType::Identifier(slice) => assert_eq!(slice, with_suffix),
            _ => panic!("{} did not scan as an identifier", with_suffix),
        }
    }
    let tokens = kinds_of("and");
    assert!(matches!(tokens[0].token_type, TokenType::And));
    let tokens = kinds_of("while");
    assert!(matches!(tokens[0].token_type, TokenType::While));
}

#[test]
fn unterminated_string_yields_an_error_token() {
    for src in ["\"abc", "\"abc\ndef", "\"", "\"a\n\n\nb"] {
        let mut scanner = Scanner::init(src);
        let token = scanner.scan_token();
        match token.token_type {
            TokenType::Error(e) => {
                assert_eq!(e, ErrorToken::UnterminatedString);
                assert_eq!(e.message(), "unterminated string");
            },
            _ => panic!("expected an error token for {:?}", src),
        }
    }
}

#[test]
fn string_token_carries_contents_and_counts_lines() {
    let mut scanner = Scanner::init("\"one\ntwo\" nil");
    let token = scanner.scan_token();
    match token.token_type {
        TokenType::String(slice) => assert_eq!(slice, "one\ntwo"),
        _ => panic!("expected a string token"),
    }
    assert_eq!(token.line, 2);
    let next = scanner.scan_token();
    assert!(matches!(next.token_type, TokenType::Nil));
    assert_eq!(next.line, 2);
}

#[test]
fn punctuation_and_two_character_operators() {
    let tokens = kinds_of("(){};,.-+*/ ! != = == < <= > >=");
    let expected_count = 19 + 1;
    assert_eq!(tokens.len(), expected_count);
    assert!(matches!(tokens[0].token_type, TokenType::LeftParen));
    assert!(matches!(tokens[1].token_type, TokenType::RightParen));
    assert!(matches!(tokens[2].token_type, TokenType::LeftBrace));
    assert!(matches!(tokens[3].token_type, TokenType::RightBrace));
    assert!(matches!(tokens[4].token_type, TokenType::Semicolon));
    assert!(matches!(tokens[5].token_type, TokenType::Comma));
    assert!(matches!(tokens[6].token_type, TokenType::Dot));
    assert!(matches!(tokens[7].token_type, TokenType::Minus));
    assert!(matches!(tokens[8].token_type, TokenType::Plus));
    assert!(matches!(tokens[9].token_type, TokenType::Star));
    assert!(matches!(tokens[10].token_type, TokenType::Slash));
    assert!(matches!(tokens[11].token_type, TokenType::Bang));
    assert!(matches!(tokens[12].token_type, TokenType::BangEqual));
    assert!(matches!(tokens[13].token_type, TokenType::Equal));
    assert!(matches!(tokens[14].token_type, TokenType::EqualEqual));
    assert!(matches!(tokens[15].token_type, TokenType::Less));
    assert!(matches!(tokens[16].token_type, TokenType::LessEqual));
    assert!(matches!(tokens[17].token_type, TokenType::Greater));
    assert!(matches!(tokens[18].token_type, TokenType::GreaterEqual));
}

#[test]
fn comment_token_carries_text_after_the_slashes() {
    let tokens = kinds_of("// a note\nvar");
    match tokens[0].token_type {
        TokenType::Comment(slice) => assert_eq!(slice, " a note"),
        _ => panic!("expected a comment token"),
    }
    assert_eq!(tokens[0].line, 1);
    assert!(matches!(tokens[1].token_type, TokenType::Var));
    assert_eq!(tokens[1].line, 2);
}

#[test]
fn unexpected_character_yields_an_error_token() {
    let mut scanner = Scanner::init("@");
    let token = scanner.scan_token();
    match token.token_type {
        TokenType::Error(e) => {
            assert_eq!(e, ErrorToken::UnexpectedCharacter('@'));
            assert_eq!(e.message(), "unexpected character: '@'");
        },
        _ => panic!("expected an error token"),
    }
}

#[test]
fn positions_are_counted_in_scalar_values_not_bytes() {
    let mut scanner = Scanner::init("\u{e9}\u{e9} var");
    let first = scanner.scan_token();
    assert!(matches!(first.token_type, TokenType::Error(_)));
    let second = scanner.scan_token();
    assert!(matches!(second.token_type, TokenType::Error(_)));
    let third = scanner.scan_token();
    assert!(matches!(third.token_type, TokenType::Var));
    assert_eq!(third.start, 3);
    assert_eq!(third.length, 3);
}

#[test]
fn scanning_past_the_end_keeps_returning_eof() {
    let mut scanner = Scanner::init("nil");
    assert!(matches!(scanner.scan_token().token_type, TokenType::Nil));
    assert!(matches!(scanner.scan_token().token_type, TokenType::Eof));
    assert!(matches!(scanner.scan_token().token_type, TokenType::Eof));
}
