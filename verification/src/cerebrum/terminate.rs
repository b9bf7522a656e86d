use vstd::prelude::*;

verus! {

/// Terminal phase. The engine keeps its last balances, orders and positions
/// for inspection and goes nowhere from here.
#[derive(Debug, Clone, Copy, PartialEq, Eq, Structural)]
pub struct Terminated;

} // verus!
