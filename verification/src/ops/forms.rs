//! The instructions by the names of their opcodes. Each form is one call of
//! its family with the width and the operand forms fixed.

pub mod control;
pub mod data;
pub mod shift;
