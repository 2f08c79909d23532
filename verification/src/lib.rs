//! The processing core of an 8-bit handheld game console: a register file,
//! a memory bus, an instruction table with its stepper, and a picture unit
//! that turns elapsed clock cycles into frames.

pub mod alu;
pub mod bits;
pub mod cpu;
pub mod emulator;
pub mod execute;
pub mod gpu;
pub mod isa;
pub mod memory;
pub mod noise;
pub mod registers;
pub mod tables;
pub mod tiles;
