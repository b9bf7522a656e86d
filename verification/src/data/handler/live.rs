use crate::data::error::DataError;
use crate::data::handler::{Continuation, Continuer, MarketGenerator};
use crate::data::market::{fresh_trace_id, utc_now_millis};
use crate::data::market::{ExchangeName, MarketData, MarketEvent};
use barter_data::model::Candle;
use std::sync::mpsc::{Receiver, SyncSender};
use uuid::Uuid;
use vstd::prelude::*;

verus! {

/// Receiving end of a `std::sync::mpsc` channel.
#[verifier::external_type_specification]
#[verifier::external_body]
#[verifier::reject_recursive_types(T)]
pub struct ExReceiver<T>(Receiver<T>);

/// Sending end of a bounded `std::sync::mpsc` channel.
#[verifier::external_type_specification]
#[verifier::external_body]
#[verifier::reject_recursive_types(T)]
pub struct ExSyncSender<T>(SyncSender<T>);

/// Calls `Receiver::recv`, which blocks until a candle arrives or every
/// sender is gone; the error of the second case becomes `None`. Which of the
/// two happens depends on the sending side, so nothing is claimed.
#[verifier::external_body]
fn receive(candle_rx: &Receiver<Candle>) -> Option<Candle> {
    candle_rx.recv().ok()
}

/// Calls `SyncSender::send`, which waits for room in the channel and fails
/// only when the receiver has been dropped; reports whether the candle was
/// accepted. That depends on the receiving side, so nothing is claimed.
#[verifier::external_body]
fn send(candle_tx: &SyncSender<Candle>, candle: Candle) -> bool {
    candle_tx.send(candle).is_ok()
}

/// What is needed to open a live candle subscription.
#[derive(Debug)]
pub struct Config {
    pub rate_limit_per_minute: u64,
    pub exchange: ExchangeName,
    pub symbol: String,
    pub interval: String,
}

/// How far connecting to the exchange got.
#[derive(Debug)]
pub enum Connection {
    /// The exchange client could not be constructed.
    ClientFailed,
    /// The client stands, but the subscription could not be opened.
    SubscriptionFailed,
    /// The subscription is open and its candles arrive on this channel.
    Subscribed(Receiver<Candle>),
}

/// Turns the candles of one live subscription into [`MarketEvent`]s. The
/// candles arrive over a bounded hand-off channel fed by a background task.
#[derive(Debug)]
pub struct LiveCandleHandler {
    pub exchange: ExchangeName,
    pub symbol: String,
    pub interval: String,
    pub candle_rx: Receiver<Candle>,
}

impl Continuer for LiveCandleHandler {
    /// A live subscription never asks its driver to stop.
    fn can_continue(&mut self) -> (hint: Continuation)
        ensures
            hint is Continue,
            *final(self) == *old(self),
    {
        Continuation::Continue
    }
}

impl MarketGenerator for LiveCandleHandler {
    /// Blocks for the next candle and wraps it into an event stamped with a
    /// fresh trace identifier and the current time. Returns `None` once the
    /// hand-off channel is closed. What arrives is decided by the sending
    /// side; [`LiveCandleHandler::event_of`] says what is made of it.
    fn generate_market(&mut self) -> (event: Option<MarketEvent>)
        ensures
            *final(self) == *old(self),
            event matches Some(e) ==> old(self).stamps(e),
    {
        let received = receive(&self.candle_rx);
        self.event_of(received, fresh_trace_id(), utc_now_millis())
    }
}

impl LiveCandleHandler {
    /// Whether `event` carries this handler's exchange and symbol and a
    /// candle payload.
    pub open spec fn stamps(&self, event: MarketEvent) -> bool {
        &&& event.event_type == MarketEvent::EVENT_TYPE
        &&& event.exchange@ == self.exchange.label()
        &&& event.symbol@ == self.symbol@
        &&& event.data is Candle
    }

    /// Makes the handler for the subscription described by `cfg` out of what
    /// connecting to the exchange came to. A handler exists only if the
    /// subscription was opened; each failure has its own error.
    pub fn new(cfg: &Config, connection: Connection) -> (made: Result<Self, DataError>)
        ensures
            match connection {
                Connection::ClientFailed => made == Err::<Self, DataError>(
                    DataError::ClientConstruction,
                ),
                Connection::SubscriptionFailed => made == Err::<Self, DataError>(
                    DataError::Subscription,
                ),
                Connection::Subscribed(candle_rx) => {
                    &&& made matches Ok(handler)
                    &&& handler.exchange == cfg.exchange
                    &&& handler.symbol@ == cfg.symbol@
                    &&& handler.interval@ == cfg.interval@
                    &&& handler.candle_rx == candle_rx
                },
            },
    {
        match connection {
            Connection::ClientFailed => Err(DataError::ClientConstruction),
            Connection::SubscriptionFailed => Err(DataError::Subscription),
            Connection::Subscribed(candle_rx) => Ok(
                Self {
                    exchange: cfg.exchange,
                    symbol: cfg.symbol.clone(),
                    interval: cfg.interval.clone(),
                    candle_rx,
                },
            ),
        }
    }

    /// Returns an empty [`LiveCandleHandlerBuilder`].
    pub fn builder() -> (builder: LiveCandleHandlerBuilder)
        ensures
            builder.exchange is None,
            builder.symbol is None,
            builder.interval is None,
            builder.candle_rx is None,
    {
        LiveCandleHandlerBuilder::new()
    }

    /// The event made of one pull on the hand-off channel: none if the
    /// channel was closed, else the candle stamped with this handler's
    /// exchange and symbol, `trace_id` and `timestamp`.
    pub fn event_of(&self, received: Option<Candle>, trace_id: Uuid, timestamp: i64) -> (event: Option<MarketEvent>)
        ensures
            received is None <==> event is None,
            received matches Some(candle) ==> {
                &&& event matches Some(e)
                &&& self.stamps(e)
                &&& e.trace_id == trace_id
                &&& e.timestamp == timestamp
                &&& e.data == MarketData::Candle(candle)
            },
    {
        match received {
            Some(candle) => Some(
                MarketEvent::candle(trace_id, timestamp, &self.exchange, &self.symbol, candle),
            ),
            None => None,
        }
    }
}

/// Whether the task that bridges a vendor sequence into the hand-off channel
/// goes on after one pull. `sent` is `None` when the vendor sequence has
/// ended, else whether the hand-off channel accepted the item.
pub fn relay_verdict(sent: Option<bool>) -> (verdict: Continuation)
    ensures
        verdict is Continue <==> sent == Some(true),
{
    match sent {
        Some(true) => Continuation::Continue,
        _ => Continuation::Stop,
    }
}

/// One step of the bridging task: forwards the item just pulled from the
/// vendor sequence, if there is one, and hands the sender back for the next
/// step, waiting while the hand-off channel is full. When the vendor sequence
/// has ended or the receiver is gone the sender is dropped instead, which
/// closes the hand-off channel.
pub fn relay(candle_tx: SyncSender<Candle>, next: Option<Candle>) -> (kept: Option<SyncSender<Candle>>)
    ensures
        next is None ==> kept is None,
        kept matches Some(tx) ==> tx == candle_tx,
{
    let sent = match next {
        Some(candle) => Some(send(&candle_tx, candle)),
        None => None,
    };
    match relay_verdict(sent) {
        Continuation::Continue => Some(candle_tx),
        Continuation::Stop => None,
    }
}

/// Collects the parts of a [`LiveCandleHandler`] one by one.
#[derive(Debug)]
pub struct LiveCandleHandlerBuilder {
    pub exchange: Option<ExchangeName>,
    pub symbol: Option<String>,
    pub interval: Option<String>,
    pub candle_rx: Option<Receiver<Candle>>,
}

impl Default for LiveCandleHandlerBuilder {
    fn default() -> (builder: Self)
        ensures
            builder.exchange is None,
            builder.symbol is None,
            builder.interval is None,
            builder.candle_rx is None,
    {
        Self { exchange: None, symbol: None, interval: None, candle_rx: None }
    }
}

impl LiveCandleHandlerBuilder {
    /// Whether every part has been supplied.
    pub open spec fn is_complete(&self) -> bool {
        &&& self.exchange is Some
        &&& self.symbol is Some
        &&& self.interval is Some
        &&& self.candle_rx is Some
    }

    pub fn new() -> (builder: Self)
        ensures
            builder.exchange is None,
            builder.symbol is None,
            builder.interval is None,
            builder.candle_rx is None,
    {
        Self::default()
    }

    pub fn exchange(self, value: ExchangeName) -> (builder: Self)
        ensures
            builder == (Self { exchange: Some(value), ..self }),
    {
        Self { exchange: Some(value), ..self }
    }

    pub fn symbol(self, value: String) -> (builder: Self)
        ensures
            builder == (Self { symbol: Some(value), ..self }),
    {
        Self { symbol: Some(value), ..self }
    }

    pub fn interval(self, value: String) -> (builder: Self)
        ensures
            builder == (Self { interval: Some(value), ..self }),
    {
        Self { interval: Some(value), ..self }
    }

    pub fn candle_rx(self, value: Receiver<Candle>) -> (builder: Self)
        ensures
            builder == (Self { candle_rx: Some(value), ..self }),
    {
        Self { candle_rx: Some(value), ..self }
    }

    /// Builds the handler, or fails with [`DataError::BuilderIncomplete`] if
    /// any part is missing. Nothing but the builder's own fields is touched.
    pub fn build(self) -> (built: Result<LiveCandleHandler, DataError>)
        ensures
            self.is_complete() <==> built is Ok,
            built matches Ok(handler) ==> {
                &&& Some(handler.exchange) == self.exchange
                &&& Some(handler.symbol) == self.symbol
                &&& Some(handler.interval) == self.interval
                &&& Some(handler.candle_rx) == self.candle_rx
            },
            built matches Err(error) ==> error == DataError::BuilderIncomplete,
    {
        let exchange = match self.exchange {
            Some(exchange) => exchange,
            None => return Err(DataError::BuilderIncomplete),
        };
        let symbol = match self.symbol {
            Some(symbol) => symbol,
            None => return Err(DataError::BuilderIncomplete),
        };
        let interval = match self.interval {
            Some(interval) => interval,
            None => return Err(DataError::BuilderIncomplete),
        };
        let candle_rx = match self.candle_rx {
            Some(candle_rx) => candle_rx,
            None => return Err(DataError::BuilderIncomplete),
        };
        Ok(LiveCandleHandler { exchange, symbol, interval, candle_rx })
    }
}

} // verus!
