//! An interpreter core for a small fixed-architecture virtual machine.
//!
//! The machine works on 15-bit words held in 16-bit cells: a cell below
//! 32768 is a literal, a cell in `[32768, 32776)` names one of eight
//! registers, and anything larger is illegal as an operand. The interpreter
//! owns the memory image, the registers, an unbounded stack, an instruction
//! pointer and a queue of pending input characters; it executes one of
//! twenty-two opcodes per step until the program halts or a fatal error is
//! found.
//!
//! Character input and output are the host's business: the engine consumes
//! codes from its input queue and appends codes to an output buffer, and
//! reports when it needs another line of input.

pub mod codec;
pub mod loader;
pub mod state;
pub mod vm;
pub mod laws;
