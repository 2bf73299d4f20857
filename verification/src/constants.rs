//! The fixed numbers of the platform: opcodes, operand encodings, register
//! ids and flag bits.

pub mod mem;
pub mod op_params;
pub mod ops;
pub mod registers;
