//! An arithmetic/logic unit over unsigned words of a configurable bit width.
//!
//! Every operation is a pure function from one or two [`DataWord`]s to a new
//! word that carries its own freshly derived condition flags.

pub mod bit_ops;
pub mod laws;
mod word_lemmas;

pub use bit_ops::{ALUFlags, CMPFlags, DataWord};
