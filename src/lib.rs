//! Random value producers, one of which refuses to hand out the same value
//! twice in a row, and the two-variant result type that reports the refusal.

pub mod error;
pub mod my_result;
pub mod rando;

pub use rando::{GetRandoStuff, RandoA, RandoB};
