//! Scoped bulk mutation operators: drain and splice.

pub mod drain;
pub mod splice;
