//! An interpreter core for a small 16-bit instruction set: byte registers,
//! a flat byte memory, a call stack and two countdown timers.

pub mod machine;
pub mod opcode;
pub mod laws;
