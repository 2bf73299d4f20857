//! The instruction set: what each family of opcodes does to the machine.

pub mod alu;
pub mod block;
pub mod data;
pub mod flags;
pub mod forms;
pub mod jump;
pub mod misc;
pub mod operand;
pub mod ppid;
pub mod shift;
pub mod stack;
