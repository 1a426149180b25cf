//! A CHIP-8 interpreter core: memory, register file, display, key latch, the
//! instruction decoder and the fetch-decode-execute engine, each with a
//! mathematical model and contracts proved against it.

pub mod alu;
pub mod chip8;
pub mod cpu;
pub mod display;
pub mod error;
pub mod keyboard;
pub mod laws;
pub mod machine;
pub mod opcode;
pub mod ram;
pub mod rng;
