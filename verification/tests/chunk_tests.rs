use rustilox::chunk::Chunk;
use rustilox::opcodes::OP_CONSTANT;
use rustilox::opcodes::OP_GREATEREQUAL;
use rustilox::opcodes::OP_LESSEREQUAL;
use rustilox::opcodes::OP_RETURN;
use rustilox::values::ValueArray;
use rustilox::LoxError;
use rustilox::Value;

#[test]
fn write_keeps_code_and_lines_in_step() {
    let mut chunk = Chunk::init();
    for i in 0..100u8 {
        chunk.write(i, i as usize + 1);
        assert_eq!(chunk.code.len(), chunk.lines.len());
        assert_eq!(chunk.count, i as usize + 1);
    }
    for i in 0..100usize {
        assert_eq!(chunk.code[i], i as u8);
        assert_eq!(chunk.lines[i], i + 1);
    }
}

#[test]
fn constant_indices_increase_from_zero() {
    let mut chunk = Chunk::init();
    for i in 0..256usize {
        let idx = chunk.add_constant(Value::_Natural(i as i64)).unwrap();
        assert_eq!(idx as usize, i);
    }
    match chunk.add_constant(Value::Nil) {
        Err(LoxError::CompileError(m, _)) => {
            assert_eq!(m, "too many constants in one chunk");
        },
        other => panic!("expected the pool to be full, got {:?}", other),
    }
    assert_eq!(chunk.constants.count, 256);
}

#[test]
fn capacity_doubles_from_eight() {
    let mut chunk = Chunk::init();
    chunk.write(0, 1);
    assert_eq!(chunk.capacity, 8);
    for _ in 0..8 {
        chunk.write(0, 1);
    }
    assert_eq!(chunk.capacity, 16);
}

#[test]
fn disassembly_lists_offsets_lines_and_mnemonics() {
    let mut chunk = Chunk::init();
    let idx = chunk.add_constant(Value::Real(1.2f64.to_bits())).unwrap();
    chunk.write(OP_CONSTANT, 123);
    chunk.write(idx, 123);
    chunk.write(OP_RETURN, 123);
    let text = chunk.disassemble();
    let expected = format!(
        "0000 0123      OP_CONSTANT 0000 '0x{:016X}'\n0002    |        OP_RETURN\n",
        1.2f64.to_bits()
    );
    assert_eq!(text, expected);
}

#[test]
fn unknown_opcode_disassembles_and_advances() {
    let chunk = Chunk::build(ValueArray::build(vec![]), vec![77, OP_RETURN], vec![4, 5]);
    let (line0, next0) = chunk.disassemble_instruction(0);
    assert_eq!(line0, "0000 0004 Unknown opcode 77\n");
    assert_eq!(next0, 1);
    let (line1, next1) = chunk.disassemble_instruction(1);
    assert_eq!(line1, "0001 0005        OP_RETURN\n");
    assert_eq!(next1, 2);
}

#[test]
fn get_instruction_renders_one_line() {
    let chunk = Chunk::build(ValueArray::build(vec![]), vec![OP_RETURN], vec![7]);
    let instruction = chunk.get_instruction(0);
    assert_eq!(instruction.text(), "0000 0007        OP_RETURN\n");
}

#[test]
fn value_array_write_and_free() {
    let mut pool = ValueArray::init();
    assert_eq!(pool.count, 0);
    pool.write(Value::_Natural(1));
    pool.write(Value::_Natural(2));
    assert_eq!(pool.count, 2);
    assert_eq!(pool.capacity, 8);
    assert_eq!(pool.values[0], Value::_Natural(1));
    assert_eq!(pool.values[1], Value::_Natural(2));
    pool.free();
    assert_eq!(pool.count, 0);
    assert_eq!(pool.capacity, 0);
}

#[test]
fn mnemonics_sit_in_a_sixteen_character_field() {
    let chunk = Chunk::build(
        ValueArray::build(vec![]),
        vec![OP_GREATEREQUAL, OP_LESSEREQUAL],
        vec![1, 2],
    );
    let text = chunk.disassemble();
    assert_eq!(text, "0000 0001  OP_GREATEREQUAL\n0001 0002   OP_LESSEREQUAL\n");
    for line in text.lines() {
        assert_eq!(line.len(), 10 + 16, "{:?}", line);
    }
}

#[test]
fn malformed_constant_instructions_decode_best_effort() {
    let truncated = Chunk::build(ValueArray::build(vec![]), vec![OP_CONSTANT], vec![1]);
    let (line, next) = truncated.disassemble_instruction(0);
    assert_eq!(line, "0000 0001      OP_CONSTANT <missing operand>\n");
    assert_eq!(next, 1);

    let out_of_pool = Chunk::build(ValueArray::build(vec![]), vec![OP_CONSTANT, 9], vec![1, 1]);
    let (line, next) = out_of_pool.disassemble_instruction(0);
    assert_eq!(line, "0000 0001      OP_CONSTANT 0009 <no such constant>\n");
    assert_eq!(next, 2);
    assert_eq!(out_of_pool.disassemble(), "0000 0001      OP_CONSTANT 0009 <no such constant>\n");
}
