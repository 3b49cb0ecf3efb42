//! A small 8-bit virtual machine: a register file, 4096 bytes of memory,
//! a call stack, a monochrome framebuffer, and a fixed instruction set
//! executed one instruction per externally driven cycle.

pub mod computer;
pub mod cpu;
pub mod display;
pub mod opcode;
mod rng;
mod util;
