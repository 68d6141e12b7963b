use rustilox::chunk::Chunk;
use rustilox::opcodes::OP_CONSTANT;
use rustilox::opcodes::OP_ADD;
use rustilox::opcodes::OP_SUBTRACT;
use rustilox::opcodes::OP_MULTIPLY;
use rustilox::opcodes::OP_DIVIDE;
use rustilox::opcodes::OP_NEGATE;
use rustilox::opcodes::OP_NOT;
use rustilox::opcodes::OP_EQUAL;
use rustilox::opcodes::OP_NOTEQUAL;
use rustilox::opcodes::OP_LESSER;
use rustilox::opcodes::OP_GREATER;
use rustilox::opcodes::OP_GREATEREQUAL;
use rustilox::opcodes::OP_LESSEREQUAL;
use rustilox::opcodes::OP_RETURN;
use rustilox::values::ValueArray;
use rustilox::LoxError;
use rustilox::Value;
use rustilox::VM;

#[test]
fn test_instruction_at_a_time() {
    let mut chunk: Chunk = Chunk::init();
    let a = chunk.add_constant(Value::Real(1.2f64.to_bits())).unwrap();
    chunk.write(OP_CONSTANT, 123);
    chunk.write(a, 123);
    let b = chunk.add_constant(Value::Real(3.4f64.to_bits())).unwrap();
    chunk.write(OP_CONSTANT, 123);
    chunk.write(b, 123);
    chunk.write(OP_ADD, 123);
    let c = chunk.add_constant(Value::Real(5.6f64.to_bits())).unwrap();
    chunk.write(OP_CONSTANT, 123);
    chunk.write(c, 123);
    chunk.write(OP_DIVIDE, 123);
    chunk.write(OP_NEGATE, 123);
    let d = chunk.add_constant(Value::Real(0.0f64.to_bits())).unwrap();
    chunk.write(OP_CONSTANT, 124);
    chunk.write(d, 124);
    chunk.write(OP_LESSER, 124);
    chunk.write(OP_NOT, 124);
    chunk.write(OP_RETURN, 124);

    let mut vm: VM = VM::init(&chunk);
    let result = vm.evaluate().expect("evaluate");
    assert_eq!(result, Value::Boolean(false));
}

#[test]
fn test_instruction_at_a_block() {
    let chunk: Chunk = Chunk::build(
        ValueArray::build(vec![
            Value::Real(1.2f64.to_bits()),
            Value::Real(3.4f64.to_bits()),
            Value::Real(5.6f64.to_bits()),
            Value::Real(0.0f64.to_bits()),
        ]),
        vec![
            OP_CONSTANT, 0, OP_CONSTANT, 1, OP_ADD, OP_CONSTANT, 2, OP_DIVIDE, OP_NEGATE,
            OP_CONSTANT, 3, OP_LESSER, OP_NOT, OP_RETURN,
        ],
        vec![123, 123, 123, 123, 123, 123, 123, 123, 124, 124, 124, 124, 125, 125],
    );

    let mut vm: VM = VM::init(&chunk);
    let result = vm.evaluate().expect("evaluate");
    assert_eq!(result, Value::Boolean(false));
}

#[test]
fn empty_chunk_is_interpret_error() {
    let chunk = Chunk::init();
    let mut vm = VM::init(&chunk);
    match vm.evaluate() {
        Err(LoxError::InterpetError(m, l)) => {
            assert_eq!(m, "Chunk is empty");
            assert_eq!(l, 0);
        },
        other => panic!("expected an interpret error, got {:?}", other),
    }
}

#[test]
fn add_on_empty_stack_is_compile_class_underflow() {
    let mut chunk = Chunk::init();
    chunk.write(OP_ADD, 0);
    let mut vm = VM::init(&chunk);
    match vm.evaluate() {
        Err(LoxError::CompileError(m, l)) => {
            assert_eq!(m, "stack underflow");
            assert_eq!(l, 0);
        },
        other => panic!("expected a compile-class error, got {:?}", other),
    }
}

#[test]
fn comparing_mismatched_variants_is_a_type_error() {
    let chunk = Chunk::build(
        ValueArray::build(vec![Value::Real(1.0f64.to_bits()), Value::Boolean(true)]),
        vec![OP_CONSTANT, 0, OP_CONSTANT, 1, OP_GREATER, OP_RETURN],
        vec![3, 3, 3, 3, 3, 3],
    );
    let mut vm = VM::init(&chunk);
    match vm.evaluate() {
        Err(LoxError::RuntimeError(m, l)) => {
            assert_eq!(m, "can't compare values of differing types");
            assert_eq!(l, 3);
        },
        other => panic!("expected a runtime error, got {:?}", other),
    }
}

#[test]
fn equality_on_mismatched_variants_is_false_not_an_error() {
    let chunk = Chunk::build(
        ValueArray::build(vec![Value::Real(1.0f64.to_bits()), Value::Boolean(true)]),
        vec![OP_CONSTANT, 0, OP_CONSTANT, 1, OP_EQUAL, OP_RETURN],
        vec![1, 1, 1, 1, 1, 1],
    );
    let mut vm = VM::init(&chunk);
    assert_eq!(vm.evaluate().unwrap(), Value::Boolean(false));

    let chunk2 = Chunk::build(
        ValueArray::build(vec![Value::Real(1.0f64.to_bits()), Value::Boolean(true)]),
        vec![OP_CONSTANT, 0, OP_CONSTANT, 1, OP_NOTEQUAL, OP_RETURN],
        vec![1, 1, 1, 1, 1, 1],
    );
    let mut vm2 = VM::init(&chunk2);
    assert_eq!(vm2.evaluate().unwrap(), Value::Boolean(true));
}

#[test]
fn negating_a_boolean_is_a_type_error() {
    let chunk = Chunk::build(
        ValueArray::build(vec![Value::Boolean(true)]),
        vec![OP_CONSTANT, 0, OP_NEGATE, OP_RETURN],
        vec![9, 9, 9, 9],
    );
    let mut vm = VM::init(&chunk);
    match vm.evaluate() {
        Err(LoxError::RuntimeError(m, l)) => {
            assert_eq!(m, "can't negate a non-numeric value");
            assert_eq!(l, 9);
        },
        other => panic!("expected a runtime error, got {:?}", other),
    }
}

#[test]
fn logical_not_of_a_number_is_a_type_error() {
    let chunk = Chunk::build(
        ValueArray::build(vec![Value::Real(2.0f64.to_bits())]),
        vec![OP_CONSTANT, 0, OP_NOT, OP_RETURN],
        vec![4, 4, 4, 4],
    );
    let mut vm = VM::init(&chunk);
    match vm.evaluate() {
        Err(LoxError::RuntimeError(m, _)) => {
            assert_eq!(m, "can't ! a non-boolean value");
        },
        other => panic!("expected a runtime error, got {:?}", other),
    }
}

#[test]
fn adding_mismatched_variants_is_a_type_error() {
    let chunk = Chunk::build(
        ValueArray::build(vec![Value::Real(1.0f64.to_bits()), Value::Nil]),
        vec![OP_CONSTANT, 0, OP_CONSTANT, 1, OP_ADD, OP_RETURN],
        vec![2, 2, 2, 2, 2, 2],
    );
    let mut vm = VM::init(&chunk);
    match vm.evaluate() {
        Err(LoxError::RuntimeError(m, l)) => {
            assert_eq!(m, "can't add values of differing types");
            assert_eq!(l, 2);
        },
        other => panic!("expected a runtime error, got {:?}", other),
    }
}

#[test]
fn unknown_opcode_is_a_compile_class_error() {
    let chunk = Chunk::build(ValueArray::build(vec![]), vec![99], vec![6]);
    let mut vm = VM::init(&chunk);
    match vm.evaluate() {
        Err(LoxError::CompileError(m, l)) => {
            assert_eq!(m, "unknown opcode 0099");
            assert_eq!(l, 6);
        },
        other => panic!("expected a compile-class error, got {:?}", other),
    }
}

#[test]
fn division_by_zero_yields_infinity() {
    let chunk = Chunk::build(
        ValueArray::build(vec![Value::Real(1.0f64.to_bits()), Value::Real(0.0f64.to_bits())]),
        vec![OP_CONSTANT, 0, OP_CONSTANT, 1, OP_DIVIDE, OP_RETURN],
        vec![1, 1, 1, 1, 1, 1],
    );
    let mut vm = VM::init(&chunk);
    assert_eq!(vm.evaluate().unwrap(), Value::Real(f64::INFINITY.to_bits()));
}

#[test]
fn return_on_empty_stack_yields_nil() {
    let chunk = Chunk::build(ValueArray::build(vec![]), vec![OP_RETURN], vec![1]);
    let mut vm = VM::init(&chunk);
    assert_eq!(vm.evaluate().unwrap(), Value::Nil);
}

#[test]
fn or_equal_comparisons_follow_the_tie_break() {
    let two = Value::Real(2.0f64.to_bits());
    let run = |op: u8, lhs: Value, rhs: Value| -> Value {
        let chunk = Chunk::build(
            ValueArray::build(vec![lhs, rhs]),
            vec![OP_CONSTANT, 0, OP_CONSTANT, 1, op, OP_RETURN],
            vec![1, 1, 1, 1, 1, 1],
        );
        let mut vm = VM::init(&chunk);
        vm.evaluate().unwrap()
    };
    assert_eq!(run(OP_GREATEREQUAL, two, two), Value::Boolean(true));
    assert_eq!(run(OP_LESSEREQUAL, two, two), Value::Boolean(true));
    assert_eq!(run(OP_GREATER, two, two), Value::Boolean(false));
    assert_eq!(run(OP_LESSER, two, two), Value::Boolean(false));
    let three = Value::Real(3.0f64.to_bits());
    assert_eq!(run(OP_GREATEREQUAL, two, three), Value::Boolean(false));
    assert_eq!(run(OP_LESSEREQUAL, three, two), Value::Boolean(false));
    assert_eq!(run(OP_SUBTRACT, three, two), Value::Real(1.0f64.to_bits()));
    assert_eq!(run(OP_MULTIPLY, three, two), Value::Real(6.0f64.to_bits()));
}

#[test]
fn unary_opcodes_on_empty_stack_are_compile_class_underflow() {
    for op in [OP_NEGATE, OP_NOT] {
        let chunk = Chunk::build(ValueArray::build(vec![]), vec![op], vec![5]);
        let mut vm = VM::init(&chunk);
        match vm.evaluate() {
            Err(LoxError::CompileError(m, l)) => {
                assert_eq!(m, "stack underflow");
                assert_eq!(l, 5);
            },
            other => panic!("expected a compile-class error, got {:?}", other),
        }
    }
}
