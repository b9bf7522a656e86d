use crate::cerebrum::order::{Order, RequestCancel, RequestOpen};
use crate::cerebrum::strategy::{IndicatorUpdater, OrderGenerator};
use crate::cerebrum::terminate::Terminated;
use crate::cerebrum::{transition, Cerebrum, Engine, Phase};
use crate::data::market::MarketEvent;
use crate::data::MarketGenerator;
use crate::event::Feed;
use vstd::prelude::*;
use vstd::std_specs::convert::FromSpecImpl;

verus! {

/// Steady-state phase: the engine consumes the market feed signal by signal.
/// It can move on to [`Terminated`] only.
#[derive(Debug, Clone, Copy, PartialEq, Eq, Structural)]
pub struct Consumer;

/// What the strategy proposes after one feed signal, for the caller to emit
/// downstream.
#[derive(Debug)]
pub struct Requests {
    pub cancels: Option<Vec<Order<RequestCancel>>>,
    pub orders: Option<Vec<Order<RequestOpen>>>,
}

impl<F, Tx, B, O, P, S: IndicatorUpdater + OrderGenerator> Cerebrum<Consumer, F, Tx, B, O, P, S> {
    /// Handles one signal pulled from the feed. A market event goes to the
    /// strategy's indicator update; the strategy, as that update left it, is
    /// then asked for its cancels and its orders, which are handed back, and
    /// the engine stays in the steady state. The end of the feed terminates
    /// the engine with nothing proposed. Only the strategy may change, and
    /// only on a market event.
    pub fn consume(self, signal: Feed<MarketEvent>) -> (step: (Engine<F, Tx, B, O, P, S>, Requests))
        ensures
            signal is Next <==> step.0 is Consumer,
            signal is Finished <==> step.0 is Terminated,
            step.0.components().feed == self.feed,
            step.0.components().event_tx == self.event_tx,
            step.0.components().balances == self.balances,
            step.0.components().orders == self.orders,
            step.0.components().positions == self.positions,
            signal is Finished ==> {
                &&& step.0.components().strategy == self.strategy
                &&& step.1.cancels is None
                &&& step.1.orders is None
            },
            signal matches Feed::Next(market) ==> exists|strategy: &mut S|
                *strategy == self.strategy && *final(strategy) == step.0.components().strategy
                    && call_ensures(S::update_indicators, (strategy, &market), ()),
            signal is Next ==> call_ensures(
                S::generate_cancels,
                (&step.0.components().strategy,),
                step.1.cancels,
            ),
            signal is Next ==> call_ensures(
                S::generate_orders,
                (&step.0.components().strategy,),
                step.1.orders,
            ),
            step.0.phase() == Phase::Consumer || transition(Phase::Consumer, step.0.phase()),
    {
        match signal {
            Feed::Next(market) => {
                let mut cerebrum = self;
                cerebrum.strategy.update_indicators(&market);
                let requests = Requests {
                    cancels: cerebrum.strategy.generate_cancels(),
                    orders: cerebrum.strategy.generate_orders(),
                };
                (Engine::Consumer(cerebrum), requests)
            },
            Feed::Finished => (
                Engine::Terminated(Cerebrum::from(self)),
                Requests { cancels: None, orders: None },
            ),
        }
    }
}

impl<F: MarketGenerator, Tx, B, O, P, S: IndicatorUpdater + OrderGenerator> Cerebrum<
    Consumer,
    F,
    Tx,
    B,
    O,
    P,
    S,
> {
    /// Pulls one signal from the engine's own feed and handles it as
    /// [`Cerebrum::consume`] does. What the feed yields is for the feed to
    /// say: the engine terminates exactly when the pull says the feed has
    /// finished, and otherwise hands back what the strategy proposes. The
    /// event channel, balances, orders and positions are left as they were.
    pub fn step(self) -> (step: (Engine<F, Tx, B, O, P, S>, Requests))
        ensures
            step.0 is Consumer || step.0 is Terminated,
            step.0.components().event_tx == self.event_tx,
            step.0.components().balances == self.balances,
            step.0.components().orders == self.orders,
            step.0.components().positions == self.positions,
            step.0 is Terminated ==> step.1.cancels is None && step.1.orders is None,
            step.0 is Terminated ==> step.0.components().strategy == self.strategy,
            step.0 is Consumer ==> call_ensures(
                S::generate_cancels,
                (&step.0.components().strategy,),
                step.1.cancels,
            ),
            step.0 is Consumer ==> call_ensures(
                S::generate_orders,
                (&step.0.components().strategy,),
                step.1.orders,
            ),
            exists|feed: &mut F, signal: Feed<MarketEvent>|
                *feed == self.feed && *final(feed) == step.0.components().feed && call_ensures(
                    F::generate,
                    (feed,),
                    signal,
                ) && (signal is Finished <==> step.0 is Terminated),
            step.0.phase() == Phase::Consumer || transition(Phase::Consumer, step.0.phase()),
    {
        let mut cerebrum = self;
        let signal = cerebrum.feed.generate();
        cerebrum.consume(signal)
    }
}

/// Consumer -> Terminated
impl<F, Tx, B, O, P, S> From<Cerebrum<Consumer, F, Tx, B, O, P, S>> for Cerebrum<
    Terminated,
    F,
    Tx,
    B,
    O,
    P,
    S,
> {
    fn from(cerebrum: Cerebrum<Consumer, F, Tx, B, O, P, S>) -> (next: Self) {
        Self {
            state: Terminated,
            feed: cerebrum.feed,
            event_tx: cerebrum.event_tx,
            balances: cerebrum.balances,
            orders: cerebrum.orders,
            positions: cerebrum.positions,
            strategy: cerebrum.strategy,
        }
    }
}

impl<F, Tx, B, O, P, S> FromSpecImpl<Cerebrum<Consumer, F, Tx, B, O, P, S>> for Cerebrum<
    Terminated,
    F,
    Tx,
    B,
    O,
    P,
    S,
> {
    open spec fn obeys_from_spec() -> bool {
        true
    }

    open spec fn from_spec(cerebrum: Cerebrum<Consumer, F, Tx, B, O, P, S>) -> Self {
        Self {
            state: Terminated,
            feed: cerebrum.feed,
            event_tx: cerebrum.event_tx,
            balances: cerebrum.balances,
            orders: cerebrum.orders,
            positions: cerebrum.positions,
            strategy: cerebrum.strategy,
        }
    }
}

} // verus!
