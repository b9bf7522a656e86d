use vstd::prelude::*;

verus! {

/// What one pull on a feed yields: the next item, or the news that the feed
/// has ended and will never yield again.
#[derive(Debug, PartialEq)]
pub enum Feed<T> {
    Next(T),
    Finished,
}

} // verus!
