//! Forward-mode automatic differentiation with dual numbers.
//!
//! [`forward::Dual`] carries a value and its derivative through arithmetic
//! and the elementary functions; [`scalar::Real`] is what the value type
//! must provide.

pub mod forward;
pub mod scalar;
