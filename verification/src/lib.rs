//! A verified CHIP-8 instruction decoder and execution engine.
//!
//! The crate models the machine state (registers, memory, call stack,
//! timers, program counter), decodes 16-bit instruction words, and
//! executes them against a 64x32 monochrome framebuffer and a 16-key
//! keypad snapshot. The semantics of every opcode is stated once, as a
//! specification-level transition function, and the executable engine
//! is proved to follow it.

pub mod chip;
pub mod display;
pub mod instructions;
pub mod keypad;
pub mod laws;
pub mod semantics;
