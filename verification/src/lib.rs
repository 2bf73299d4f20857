//! A software CPU for a small 8/16-bit game console: a strict
//! one-instruction-at-a-time interpreter over a flat 64KB address space with
//! bank-switched memory windows, a call stack and interrupts.
//!
//! Every executable function carries a contract over the mathematical model
//! of the machine in [`model`], and Verus proves each body against it.

pub mod access;
pub mod constants;
pub mod error;
pub mod execute;
pub mod flags;
pub mod host;
pub mod laws;
pub mod mem;
pub mod model;
pub mod ops;
pub mod platform;
pub mod register;
pub mod text;
pub mod types;
pub mod vm;

pub use crate::error::VmError;
pub use crate::register::Register;
pub use crate::vm::VM;
