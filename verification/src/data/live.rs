use crate::data::error::DataError;
use crate::data::market::MarketEvent;
use crate::event::Feed;
use tokio::sync::mpsc::error::TryRecvError;
use tokio::sync::mpsc::UnboundedReceiver;
use vstd::prelude::*;

verus! {

/// Receiving end of tokio's unbounded channel.
#[verifier::external_type_specification]
#[verifier::external_body]
#[verifier::reject_recursive_types(T)]
pub struct ExUnboundedReceiver<T>(UnboundedReceiver<T>);

/// What one non-blocking receive found.
#[derive(Debug, PartialEq)]
pub enum Polled<T> {
    /// An item was waiting.
    Item(T),
    /// Nothing is waiting, but a sender is still alive.
    Empty,
    /// Nothing is waiting and every sender is gone.
    Disconnected,
}

/// Calls `UnboundedReceiver::try_recv` and renames its three outcomes. The
/// call does not wait for an item to be sent; it only lets a send that is
/// already under way complete. Which outcome comes depends on the senders, so
/// nothing is claimed.
#[verifier::external_body]
fn try_receive(market_rx: &mut UnboundedReceiver<MarketEvent>) -> Polled<MarketEvent> {
    match market_rx.try_recv() {
        Ok(market) => Polled::Item(market),
        Err(TryRecvError::Empty) => Polled::Empty,
        Err(TryRecvError::Disconnected) => Polled::Disconnected,
    }
}

/// How far establishing the multiplexed channel got.
#[derive(Debug)]
pub enum Establishment {
    /// An exchange client could not be constructed.
    ClientFailed,
    /// The clients stand, but a subscription could not be opened.
    SubscriptionFailed,
    /// Every subscription is open and feeds this one channel.
    Joined(UnboundedReceiver<MarketEvent>),
}

/// Live feed of [`MarketEvent`]s: any number of subscriptions multiplexed
/// into one channel, in order of arrival.
#[derive(Debug)]
pub struct MarketFeed {
    pub market_rx: UnboundedReceiver<MarketEvent>,
}

/// The feed signal that one non-blocking receive amounts to: an item is the
/// next event, a closed channel ends the feed, and an empty channel is no
/// signal yet.
pub fn signal_of<T>(polled: Polled<T>) -> (signal: Option<Feed<T>>)
    ensures
        signal == match polled {
            Polled::Item(item) => Some(Feed::Next(item)),
            Polled::Empty => None,
            Polled::Disconnected => Some(Feed::Finished),
        },
{
    match polled {
        Polled::Item(item) => Some(Feed::Next(item)),
        Polled::Empty => None,
        Polled::Disconnected => Some(Feed::Finished),
    }
}

impl MarketFeed {
    /// Initialises a feed out of what establishing the subscriptions came
    /// to. A feed exists only if every subscription was opened, and it then
    /// pulls from their one joined channel; each failure has its own error.
    pub fn init(establishment: Establishment) -> (made: Result<Self, DataError>)
        ensures
            match establishment {
                Establishment::ClientFailed => made == Err::<Self, DataError>(
                    DataError::ClientConstruction,
                ),
                Establishment::SubscriptionFailed => made == Err::<Self, DataError>(
                    DataError::Subscription,
                ),
                Establishment::Joined(market_rx) => made == Ok::<Self, DataError>(
                    MarketFeed { market_rx },
                ),
            },
    {
        match establishment {
            Establishment::ClientFailed => Err(DataError::ClientConstruction),
            Establishment::SubscriptionFailed => Err(DataError::Subscription),
            Establishment::Joined(market_rx) => Ok(Self { market_rx }),
        }
    }

    /// Looks once, without waiting for anything to be sent, for the next feed
    /// signal. `None` means
    /// nothing is available yet: a caller that wants a signal asks again.
    /// What is found is decided by the senders; [`signal_of`] says what is
    /// made of it.
    pub fn try_generate(&mut self) -> (signal: Option<Feed<MarketEvent>>) {
        signal_of(try_receive(&mut self.market_rx))
    }
}

} // verus!
