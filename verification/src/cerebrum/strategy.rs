use crate::cerebrum::order::{Order, RequestCancel, RequestOpen};
use crate::data::market::MarketEvent;
use vstd::prelude::*;

verus! {

/// Folds one market event into the strategy's indicators.
pub trait IndicatorUpdater {
    fn update_indicators(&mut self, market: &MarketEvent);
}

/// Proposes orders from the strategy's current state. `None` means the
/// strategy has nothing to propose this cycle.
pub trait OrderGenerator {
    fn generate_cancels(&self) -> Option<Vec<Order<RequestCancel>>>;

    fn generate_orders(&self) -> Option<Vec<Order<RequestOpen>>>;
}

} // verus!
