//! An instruction-level model of the earliest code of an AArch64 kernel image:
//! the entry trampoline that lets one core through, sets up the stack,
//! clears the zero-initialised data region and jumps to the kernel, and the
//! fault sink that idles a core forever.
//!
//! [`machine::Machine`] emulates one core executing that code, one instruction
//! per step; [`start::start`] runs the trampoline on it until the core has
//! settled. The module [`laws`] proves what holds of every run.

pub mod layout;
pub mod machine;
pub mod start;
pub mod laws;
