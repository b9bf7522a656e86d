use barter_data::model::Candle;
use uuid::Uuid;
use vstd::prelude::*;

verus! {

/// An OHLCV record as the exchange client delivers it. The library carries
/// candles through without looking inside them.
#[verifier::external_type_specification]
#[verifier::external_body]
pub struct ExCandle(Candle);

/// A 128-bit identifier; only ever produced by [`fresh_trace_id`] here.
#[verifier::external_type_specification]
#[verifier::external_body]
pub struct ExUuid(Uuid);

/// Payload of a [`MarketEvent`].
#[derive(Debug, PartialEq)]
pub enum MarketData {
    Candle(Candle),
}

/// One observed market occurrence, ready for downstream consumers.
#[derive(Debug, PartialEq)]
pub struct MarketEvent {
    pub event_type: &'static str,
    /// Random identifier used to trace this event through the system.
    pub trace_id: Uuid,
    /// Milliseconds since the Unix epoch (UTC) at which the event was built.
    pub timestamp: i64,
    pub exchange: String,
    pub symbol: String,
    pub data: MarketData,
}

/// The exchanges a live subscription can be opened on.
#[derive(Debug, Clone, Copy, PartialEq, Eq, Structural)]
pub enum ExchangeName {
    Binance,
}

impl ExchangeName {
    /// The name under which the exchange appears in a [`MarketEvent`].
    pub open spec fn label(self) -> Seq<char> {
        match self {
            ExchangeName::Binance => "Binance"@,
        }
    }

    /// The name under which the exchange appears in a [`MarketEvent`].
    pub fn name(&self) -> (name: String)
        ensures
            name@ == self.label(),
    {
        match self {
            ExchangeName::Binance => "Binance".to_owned(),
        }
    }
}

/// Calls `Uuid::new_v4`. The identifier is drawn from the operating system's
/// random source, so nothing is claimed of its value.
#[verifier::external_body]
pub(crate) fn fresh_trace_id() -> Uuid {
    Uuid::new_v4()
}

/// Reads the clock with `chrono::Utc::now` and converts the instant with
/// `DateTime::timestamp_millis`. Nothing is claimed of the reading.
#[verifier::external_body]
pub(crate) fn utc_now_millis() -> i64 {
    chrono::Utc::now().timestamp_millis()
}

impl MarketEvent {
    pub const EVENT_TYPE: &'static str = "MarketEvent";

    /// Wraps a candle received from `exchange` for `symbol` into an event
    /// stamped with a fresh trace identifier and the current time. Of those
    /// two nothing is claimed; the rest of the event is as
    /// [`MarketEvent::candle`] makes it.
    pub fn stamped(exchange: &ExchangeName, symbol: &String, candle: Candle) -> (event: MarketEvent)
        ensures
            event.event_type == MarketEvent::EVENT_TYPE,
            event.exchange@ == exchange.label(),
            event.symbol@ == symbol@,
            event.data == MarketData::Candle(candle),
    {
        MarketEvent::candle(fresh_trace_id(), utc_now_millis(), exchange, symbol, candle)
    }

    /// Wraps a candle received from `exchange` for `symbol` into an event
    /// carrying the given trace identifier and timestamp.
    pub fn candle(
        trace_id: Uuid,
        timestamp: i64,
        exchange: &ExchangeName,
        symbol: &String,
        candle: Candle,
    ) -> (event: MarketEvent)
        ensures
            event.event_type == MarketEvent::EVENT_TYPE,
            event.trace_id == trace_id,
            event.timestamp == timestamp,
            event.exchange@ == exchange.label(),
            event.symbol@ == symbol@,
            event.data == MarketData::Candle(candle),
    {
        MarketEvent {
            event_type: MarketEvent::EVENT_TYPE,
            trace_id,
            timestamp,
            exchange: exchange.name(),
            symbol: symbol.clone(),
            data: MarketData::Candle(candle),
        }
    }
}

} // verus!
