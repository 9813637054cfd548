//! Per-tick simulation systems.

pub mod paddle;
