//! An interpreter for an 8-bit virtual machine with a 35-instruction set,
//! 4 KB of memory, sixteen byte registers, a bounded call stack, two countdown
//! timers and a 64x32 monochrome display.
//!
//! `machine` states what every instruction does, over mathematical values;
//! `Chip8` carries it out and is proved to follow it step by step.

pub mod chip8;
pub mod display;
pub mod error;
pub mod machine;
pub mod opcode;
pub mod stack;

pub use chip8::Chip8;
pub use error::Chip8Error;
pub use machine::TickOutcome;
pub use opcode::Opcode;
pub use stack::Stack;
