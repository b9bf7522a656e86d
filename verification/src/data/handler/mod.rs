//! Capabilities of a market data source that is pulled one event at a time.

use crate::data::market::MarketEvent;
use vstd::prelude::*;

pub mod live;

verus! {

/// Hint to a driving loop: keep pulling, or stop.
#[derive(Debug, Clone, Copy, PartialEq, Eq, Structural)]
pub enum Continuation {
    Continue,
    Stop,
}

/// Says, cheaply and without blocking, whether pulling should go on.
pub trait Continuer {
    fn can_continue(&mut self) -> Continuation;
}

/// Produces the next [`MarketEvent`], blocking until there is one. `None`
/// means the source is exhausted.
pub trait MarketGenerator {
    fn generate_market(&mut self) -> Option<MarketEvent>;
}

} // verus!
