//! A CHIP-8 interpreter core: a total decoder from 16-bit instruction words
//! to a fixed set of operations, and an executor that applies one decoded
//! operation to the machine state (registers, memory, stack, timers, display,
//! keypad) and reports how the program counter must advance.

pub mod instructions;
pub mod laws;
pub mod program;
