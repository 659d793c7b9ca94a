//! Theorems about the language: what follows from the contracts of its
//! functions.

pub mod evaluation;
pub mod limits;
pub mod numbers;
pub mod reading;
pub mod world;
