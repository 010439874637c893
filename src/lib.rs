//! A finite-state recogniser for non-negative decimal numbers written without
//! sign, exponent or redundant leading zeros.

pub mod input;
pub mod state;
pub mod text;
pub mod driver;
pub mod grammar;
