//! The single-byte instruction tags of the virtual machine.
use vstd::prelude::*;

verus! {

pub const OP_RETURN: u8 = 0;

pub const OP_CONSTANT: u8 = 1;

pub const OP_NEGATE: u8 = 2;

pub const OP_ADD: u8 = 3;

pub const OP_SUBTRACT: u8 = 4;

pub const OP_MULTIPLY: u8 = 5;

pub const OP_DIVIDE: u8 = 6;

pub const OP_EQUAL: u8 = 7;

pub const OP_NOTEQUAL: u8 = 8;

pub const OP_GREATER: u8 = 9;

pub const OP_GREATEREQUAL: u8 = 10;

pub const OP_LESSER: u8 = 11;

pub const OP_LESSEREQUAL: u8 = 12;

pub const OP_NOT: u8 = 13;

} // verus!
