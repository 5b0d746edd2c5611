//! A verified model of a platform secure-boot simulator: a privilege ladder
//! of boot modes, per-artifact verification flags, a mode-gated instruction
//! table, and the command-processing rules that tie them together.

pub mod dispatch;
pub mod instructions;
pub mod mode;
pub mod shell;
pub mod state;
pub mod strutil;
pub mod verification;
