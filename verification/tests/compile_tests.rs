use rustilox::chunk::Chunk;
use rustilox::compiler::compile;
use rustilox::interpret;
use rustilox::LoxError;

#[test]
fn test_arithmetic() {
    let src = "-5 + 5 * 2 / (1.05 + 1)";
    let mut chunk = Chunk::init();
    compile(&src.to_owned(), &mut chunk).unwrap();
}

#[test]
fn compile_rejects_a_lexical_error() {
    let mut chunk = Chunk::init();
    match compile("var x = @;", &mut chunk) {
        Err(LoxError::CompileError(m, _)) => {
            assert_eq!(m, "failed to compile!");
        },
        other => panic!("expected a compile error, got {:?}", other),
    }
}

#[test]
fn compile_accepts_keywords_strings_and_comments() {
    let mut chunk = Chunk::init();
    compile("// greeting\nprint \"hello\"; while (true) nil;", &mut chunk).unwrap();
}

#[test]
fn interpret_without_a_code_generator_reports_the_empty_chunk() {
    match interpret("1 + 2") {
        Err(LoxError::InterpetError(m, l)) => {
            assert_eq!(m, "Chunk is empty");
            assert_eq!(l, 0);
        },
        other => panic!("expected an interpret error, got {:?}", other),
    }
}

#[test]
fn interpret_reports_lexical_errors_as_compile_errors() {
    match interpret("\"unterminated") {
        Err(LoxError::CompileError(m, _)) => {
            assert_eq!(m, "failed to compile!");
        },
        other => panic!("expected a compile error, got {:?}", other),
    }
}

#[test]
fn error_messages_carry_class_text_and_line() {
    assert_eq!(
        LoxError::RuntimeError("stack underflow".to_string(), 12).message(),
        "Runtime error: stack underflow on line 12"
    );
    assert_eq!(
        LoxError::InterpetError("Chunk is empty".to_string(), 0).message(),
        "Interpret error: Chunk is empty on line 0"
    );
    assert_eq!(
        LoxError::ReplError("closed".to_string()).message(),
        "Repl error: closed"
    );
    assert_eq!(LoxError::NotImplemented.message(), "Not implemented!");
}

#[test]
fn error_descriptions_name_the_class() {
    assert_eq!(
        LoxError::InterpetError(String::new(), 0).description(),
        "Interpret error"
    );
    assert_eq!(
        LoxError::CompileError(String::new(), 0).description(),
        "Compile error"
    );
    assert_eq!(
        LoxError::RuntimeError(String::new(), 0).description(),
        "Runtime error"
    );
    assert_eq!(LoxError::ReplError(String::new()).description(), "Repl error");
    assert_eq!(LoxError::NotImplemented.description(), "Not implemented error");
}
