//! Structural decoder for Z80 machine code.
//!
//! A byte stream is split into instruction records: which prefix is in
//! force, which opcode byte is classified, and which displacement and
//! immediate operand bytes follow it. Every function carries a contract
//! over the mathematical model of the byte stream, and the contracts are
//! machine-checked.

pub mod bits;
pub mod opcode;
pub mod prefix;
pub mod operands;
pub mod instruction;
