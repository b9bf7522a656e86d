use vstd::prelude::*;

verus! {

/// Failures raised while configuring or establishing a market data source.
#[derive(Debug, Clone, Copy, PartialEq, Eq, Structural)]
pub enum DataError {
    /// A required field was never supplied to a builder.
    BuilderIncomplete,
    /// The exchange client could not be constructed.
    ClientConstruction,
    /// The exchange client failed to open the subscription.
    Subscription,
}

} // verus!
