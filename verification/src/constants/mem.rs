//! Region sizes of the two-atlas memory layout.

pub mod sizes;
