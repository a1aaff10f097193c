//! convertx: the exact-arithmetic core of a unit-conversion command-line
//! tool.
//!
//! Every physical quantity is carried as an exact rational number, so the
//! conversion engine, the unit registry and the fixed-point formatting are
//! all specified and proved without any floating-point rounding in the way.

pub mod digits;
pub mod engine;
pub mod fixed;
pub mod human;
pub mod laws;
pub mod parse;
pub mod units;
pub mod rational;
pub mod report;
