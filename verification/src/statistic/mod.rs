//! Streaming statistics over integer samples.
//!
//! Samples are whole numbers of whatever unit the caller fixes (for prices,
//! the smallest price step). Sums of squares are therefore exact; quotients
//! and square roots are rounded down to a whole number.

pub mod algorithm;
pub mod dispersion;
