//! Core of a trading engine: a phase-checked lifecycle controller, the market
//! feed abstraction it consumes, and the streaming statistics used as
//! indicators.

pub mod cerebrum;
pub mod data;
pub mod event;
pub mod statistic;
