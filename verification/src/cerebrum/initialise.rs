use crate::cerebrum::consume::Consumer;
use crate::cerebrum::terminate::Terminated;
use crate::cerebrum::{transition, Cerebrum, Engine, Phase};
use vstd::prelude::*;
use vstd::std_specs::convert::FromSpecImpl;

verus! {

/// Start-up phase. It can move on to one of:
///  a) [`Consumer`]
///  b) [`Terminated`]
#[derive(Debug, Clone, Copy, PartialEq, Eq, Structural)]
pub struct Initialiser;

/// How the attempt to retrieve the starting balances, orders and positions
/// from the exchange ended.
#[derive(Debug, Clone, Copy, PartialEq, Eq, Structural)]
pub enum Retrieval {
    Retrieved,
    Unrecoverable,
}

impl<F, Tx, B, O, P, S> Cerebrum<Initialiser, F, Tx, B, O, P, S> {
    /// Leaves the start-up phase: into the steady state if the starting
    /// balances, orders and positions were retrieved, into termination if
    /// that failed for good. Either way the engine keeps everything it held.
    pub fn init(self, retrieval: Retrieval) -> (engine: Engine<F, Tx, B, O, P, S>)
        ensures
            retrieval is Retrieved <==> engine is Consumer,
            retrieval is Unrecoverable <==> engine is Terminated,
            engine.components() == self.components(),
            transition(Phase::Initialiser, engine.phase()),
    {
        match retrieval {
            Retrieval::Retrieved => Engine::Consumer(Cerebrum::from(self)),
            Retrieval::Unrecoverable => Engine::Terminated(Cerebrum::from(self)),
        }
    }
}

/// a) Initialiser -> Consumer
impl<F, Tx, B, O, P, S> From<Cerebrum<Initialiser, F, Tx, B, O, P, S>> for Cerebrum<
    Consumer,
    F,
    Tx,
    B,
    O,
    P,
    S,
> {
    fn from(cerebrum: Cerebrum<Initialiser, F, Tx, B, O, P, S>) -> (next: Self) {
        Self {
            state: Consumer,
            feed: cerebrum.feed,
            event_tx: cerebrum.event_tx,
            balances: cerebrum.balances,
            orders: cerebrum.orders,
            positions: cerebrum.positions,
            strategy: cerebrum.strategy,
        }
    }
}

impl<F, Tx, B, O, P, S> FromSpecImpl<Cerebrum<Initialiser, F, Tx, B, O, P, S>> for Cerebrum<
    Consumer,
    F,
    Tx,
    B,
    O,
    P,
    S,
> {
    open spec fn obeys_from_spec() -> bool {
        true
    }

    open spec fn from_spec(cerebrum: Cerebrum<Initialiser, F, Tx, B, O, P, S>) -> Self {
        Self {
            state: Consumer,
            feed: cerebrum.feed,
            event_tx: cerebrum.event_tx,
            balances: cerebrum.balances,
            orders: cerebrum.orders,
            positions: cerebrum.positions,
            strategy: cerebrum.strategy,
        }
    }
}

/// b) Initialiser -> Terminated
impl<F, Tx, B, O, P, S> From<Cerebrum<Initialiser, F, Tx, B, O, P, S>> for Cerebrum<
    Terminated,
    F,
    Tx,
    B,
    O,
    P,
    S,
> {
    fn from(cerebrum: Cerebrum<Initialiser, F, Tx, B, O, P, S>) -> (next: Self) {
        Self {
            state: Terminated,
            feed: cerebrum.feed,
            event_tx: cerebrum.event_tx,
            balances: cerebrum.balances,
            orders: cerebrum.orders,
            positions: cerebrum.positions,
            strategy: cerebrum.strategy,
        }
    }
}

impl<F, Tx, B, O, P, S> FromSpecImpl<Cerebrum<Initialiser, F, Tx, B, O, P, S>> for Cerebrum<
    Terminated,
    F,
    Tx,
    B,
    O,
    P,
    S,
> {
    open spec fn obeys_from_spec() -> bool {
        true
    }

    open spec fn from_spec(cerebrum: Cerebrum<Initialiser, F, Tx, B, O, P, S>) -> Self {
        Self {
            state: Terminated,
            feed: cerebrum.feed,
            event_tx: cerebrum.event_tx,
            balances: cerebrum.balances,
            orders: cerebrum.orders,
            positions: cerebrum.positions,
            strategy: cerebrum.strategy,
        }
    }
}

} // verus!
