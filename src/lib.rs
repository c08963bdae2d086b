//! Address resolution and memory access for a 6502-family CPU core.

pub mod cpu;
pub mod lemmas;

pub use cpu::{AddressingMode, CPU};
