//! STACK85: a small stack-oriented virtual machine with an 8-bit data path
//! over a 16-bit address space.
//!
//! The machine consists of a byte-addressed linear memory with a latched
//! address register, a pure combinational ALU that drives five architectural
//! flags, and a control unit that fetches, decodes and executes the
//! instruction set, keeping an evaluation stack in memory.

pub mod alu;
pub mod control;
pub mod memory;
