use vstd::prelude::*;

verus! {

/// Marks an order that asks the exchange to open it.
#[derive(Debug, Clone, Copy, PartialEq, Eq, Structural)]
pub struct RequestOpen;

/// Marks an order that asks the exchange to cancel it.
#[derive(Debug, Clone, Copy, PartialEq, Eq, Structural)]
pub struct RequestCancel;

/// Marks an order that the exchange has cancelled.
#[derive(Debug, Clone, Copy, PartialEq, Eq, Structural)]
pub struct Cancelled;

/// An order tagged with the point it has reached in its life.
#[derive(Debug, PartialEq, Eq)]
pub struct Order<State> {
    pub state: State,
}

} // verus!
