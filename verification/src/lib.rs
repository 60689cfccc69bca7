//! A CHIP-8 virtual machine core: memory, registers, call stack, instruction
//! decoder, one handler per instruction and a cycle driver.
//!
//! The core owns no display, keyboard, clock or random source. Whenever an
//! instruction needs one of them, the cycle reports what it needs and the host
//! answers; nothing is executed half-way.

pub mod error;
pub mod model;
pub mod memory;
pub mod registers;
pub mod decode;
pub mod host;
pub mod semantics;
pub mod opcode;
pub mod interpreter;
pub mod timer;
pub mod laws;
