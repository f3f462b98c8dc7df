//! A cycle-stepped core of an 8-bit processor: register file, operand
//! resolution, instruction handlers and opcode dispatch.

pub mod bus;
pub mod cpu;
pub mod cycles;
pub mod hram;
pub mod instructions;
pub mod operand;
pub mod registers;
