//! Market data: events, feeds and the errors raised while setting them up.

use crate::data::market::MarketEvent;
use crate::event::Feed;
use vstd::prelude::*;

pub mod error;
pub mod handler;
pub mod live;
pub mod market;

verus! {

/// Produces the next [`Feed`] signal without ever blocking the caller.
pub trait MarketGenerator {
    fn generate(&mut self) -> Feed<MarketEvent>;
}

} // verus!
