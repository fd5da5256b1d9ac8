//! A verified interpreter for the MOS 6502 instruction set.
//!
//! The interpreter fetches bytes from a flat 64KB address space, decodes them
//! into an operation paired with an addressing mode, and mutates a small
//! register/flag/stack state accordingly.  The semantics of every instruction
//! is written down once as a mathematical transition function over an abstract
//! machine state, and the executable code is proved to implement it exactly,
//! including the hardware's wraparound arithmetic and page-boundary quirks.

pub mod cpu;
pub mod flags;
pub mod machine;
pub mod opcodes;
pub mod props;
