//! The engine: one aggregate of trading state that moves through phases,
//! each phase offering only the operations that are legal in it.

use crate::cerebrum::consume::Consumer;
use crate::cerebrum::initialise::Initialiser;
use crate::cerebrum::terminate::Terminated;
use vstd::prelude::*;
use vstd::std_specs::convert::FromSpec;

pub mod consume;
pub mod initialise;
pub mod order;
pub mod strategy;
pub mod terminate;

verus! {

/// Trading state tagged with the phase `State` the engine is in.
///
/// `F` is the feed handle, `Tx` the outbound event channel, `B`, `O` and `P`
/// the balances, orders and positions, `S` the strategy. A transition hands
/// all of them, untouched, to an aggregate tagged with the next phase.
#[derive(Debug)]
pub struct Cerebrum<State, F, Tx, B, O, P, S> {
    pub state: State,
    pub feed: F,
    pub event_tx: Tx,
    pub balances: B,
    pub orders: O,
    pub positions: P,
    pub strategy: S,
}

/// The engine in whichever phase it currently is.
#[derive(Debug)]
pub enum Engine<F, Tx, B, O, P, S> {
    Initialiser(Cerebrum<Initialiser, F, Tx, B, O, P, S>),
    Consumer(Cerebrum<Consumer, F, Tx, B, O, P, S>),
    Terminated(Cerebrum<Terminated, F, Tx, B, O, P, S>),
}

/// Tag of a lifecycle phase.
#[derive(Debug, Clone, Copy, PartialEq, Eq, Structural)]
pub enum Phase {
    Initialiser,
    Consumer,
    Terminated,
}

/// Everything an engine holds apart from its phase tag.
pub struct Components<F, Tx, B, O, P, S> {
    pub feed: F,
    pub event_tx: Tx,
    pub balances: B,
    pub orders: O,
    pub positions: P,
    pub strategy: S,
}

/// The transitions of the lifecycle: start-up either succeeds into the
/// steady state or fails into termination, and the steady state ends in
/// termination.
pub open spec fn transition(from: Phase, to: Phase) -> bool {
    match (from, to) {
        (Phase::Initialiser, Phase::Consumer) => true,
        (Phase::Initialiser, Phase::Terminated) => true,
        (Phase::Consumer, Phase::Terminated) => true,
        _ => false,
    }
}

/// Whether `path` is a run of the lifecycle: each phase follows from the one
/// before it by a transition.
pub open spec fn is_run(path: Seq<Phase>) -> bool {
    forall|i: int| 0 <= i < path.len() - 1 ==> transition(#[trigger] path[i], path[i + 1])
}

impl<State, F, Tx, B, O, P, S> Cerebrum<State, F, Tx, B, O, P, S> {
    /// The aggregate without its phase tag.
    pub open spec fn components(self) -> Components<F, Tx, B, O, P, S> {
        Components {
            feed: self.feed,
            event_tx: self.event_tx,
            balances: self.balances,
            orders: self.orders,
            positions: self.positions,
            strategy: self.strategy,
        }
    }
}

impl<F, Tx, B, O, P, S> Engine<F, Tx, B, O, P, S> {
    /// The aggregate without its phase tag.
    pub open spec fn components(self) -> Components<F, Tx, B, O, P, S> {
        match self {
            Engine::Initialiser(cerebrum) => cerebrum.components(),
            Engine::Consumer(cerebrum) => cerebrum.components(),
            Engine::Terminated(cerebrum) => cerebrum.components(),
        }
    }

    /// The tag of the current phase.
    pub open spec fn spec_phase(&self) -> Phase {
        match *self {
            Engine::Initialiser(_) => Phase::Initialiser,
            Engine::Consumer(_) => Phase::Consumer,
            Engine::Terminated(_) => Phase::Terminated,
        }
    }

    /// The tag of the current phase.
    #[verifier::when_used_as_spec(spec_phase)]
    pub fn phase(&self) -> (phase: Phase)
        ensures
            phase == self.spec_phase(),
    {
        match self {
            Engine::Initialiser(_) => Phase::Initialiser,
            Engine::Consumer(_) => Phase::Consumer,
            Engine::Terminated(_) => Phase::Terminated,
        }
    }
}

/// No transition leaves the terminal phase.
pub proof fn lemma_terminated_is_terminal(to: Phase)
    ensures
        !transition(Phase::Terminated, to),
{
}

/// On a run that starts in the initial phase, every later phase is the
/// steady state or termination, termination is only ever the last phase, and
/// the run has at most three phases.
pub proof fn lemma_reachable_from_initialiser(path: Seq<Phase>, i: int)
    requires
        is_run(path),
        path.len() > 0,
        path[0] == Phase::Initialiser,
        0 < i < path.len(),
    ensures
        path[i] == Phase::Consumer || path[i] == Phase::Terminated,
        path[i] == Phase::Terminated ==> i == path.len() - 1,
        path.len() <= 3,
{
    assert(transition(path[0], path[1]));
    if path.len() > 2 {
        assert(transition(path[1], path[2]));
        if path.len() > 3 {
            assert(transition(path[2], path[3]));
        }
    }
}

/// Each conversion from one phase to the next keeps every component: the
/// feed, the event channel, the balances, orders and positions, and the
/// strategy are the same before and after.
pub proof fn lemma_conversions_keep_components<F, Tx, B, O, P, S>(
    initialiser: Cerebrum<Initialiser, F, Tx, B, O, P, S>,
    consumer: Cerebrum<Consumer, F, Tx, B, O, P, S>,
)
    ensures
        Cerebrum::<Consumer, F, Tx, B, O, P, S>::from_spec(initialiser).components()
            == initialiser.components(),
        Cerebrum::<Terminated, F, Tx, B, O, P, S>::from_spec(initialiser).components()
            == initialiser.components(),
        Cerebrum::<Terminated, F, Tx, B, O, P, S>::from_spec(consumer).components()
            == consumer.components(),
{
}

} // verus!
