use barter::cerebrum::consume::Consumer;
use barter::cerebrum::initialise::{Initialiser, Retrieval};
use barter::cerebrum::order::{Order, RequestCancel, RequestOpen};
use barter::cerebrum::strategy::{IndicatorUpdater, OrderGenerator};
use barter::cerebrum::terminate::Terminated;
use barter::cerebrum::{Cerebrum, Engine, Phase};
use barter::data::market::{ExchangeName, MarketEvent};
use barter::data::MarketGenerator;
use barter::event::Feed;
use barter_data::model::Candle;
use chrono::DateTime;
use uuid::Uuid;

/// Proposes one order per event seen, and a cancel once it has seen two.
#[derive(Debug, PartialEq)]
struct Counting {
    seen: usize,
}

impl IndicatorUpdater for Counting {
    fn update_indicators(&mut self, _market: &MarketEvent) {
        self.seen += 1;
    }
}

impl OrderGenerator for Counting {
    fn generate_cancels(&self) -> Option<Vec<Order<RequestCancel>>> {
        if self.seen >= 2 {
            Some(vec![Order { state: RequestCancel }])
        } else {
            None
        }
    }

    fn generate_orders(&self) -> Option<Vec<Order<RequestOpen>>> {
        Some((0..self.seen).map(|_| Order { state: RequestOpen }).collect())
    }
}

/// Yields the given number of events and then finishes.
#[derive(Debug, PartialEq)]
struct Scripted {
    left: usize,
}

impl MarketGenerator for Scripted {
    fn generate(&mut self) -> Feed<MarketEvent> {
        if self.left == 0 {
            Feed::Finished
        } else {
            self.left -= 1;
            Feed::Next(event())
        }
    }
}

type Aggregate<State> = Cerebrum<State, &'static str, u8, Vec<i64>, Vec<u32>, Vec<i8>, Counting>;

fn initialiser() -> Aggregate<Initialiser> {
    Cerebrum {
        state: Initialiser,
        feed: "feed",
        event_tx: 9,
        balances: vec![100, 250],
        orders: vec![1, 2, 3],
        positions: vec![-1],
        strategy: Counting { seen: 0 },
    }
}

fn assert_untouched<State>(cerebrum: &Aggregate<State>, seen: usize) {
    assert_eq!(cerebrum.feed, "feed");
    assert_eq!(cerebrum.event_tx, 9);
    assert_eq!(cerebrum.balances, vec![100, 250]);
    assert_eq!(cerebrum.orders, vec![1, 2, 3]);
    assert_eq!(cerebrum.positions, vec![-1]);
    assert_eq!(cerebrum.strategy, Counting { seen });
}

fn event() -> MarketEvent {
    MarketEvent::candle(
        Uuid::from_u128(1),
        0,
        &ExchangeName::Binance,
        &String::from("btcusdt"),
        Candle {
            start_timestamp: DateTime::from_timestamp(1_600_000_000, 0).unwrap(),
            end_timestamp: DateTime::from_timestamp(1_600_000_060, 0).unwrap(),
            open: 1.0,
            high: 2.0,
            low: 0.5,
            close: 1.5,
            volume: 10.0,
            trade_count: 3,
        },
    )
}

#[test]
fn init_moves_to_consumer_when_the_account_was_retrieved() {
    let engine = initialiser().init(Retrieval::Retrieved);
    assert_eq!(engine.phase(), Phase::Consumer);
    match engine {
        Engine::Consumer(cerebrum) => {
            assert_eq!(cerebrum.state, Consumer);
            assert_untouched(&cerebrum, 0);
        }
        other => panic!("expected the steady state, got {:?}", other),
    }
}

#[test]
fn init_terminates_when_retrieval_failed_for_good() {
    let engine = initialiser().init(Retrieval::Unrecoverable);
    assert_eq!(engine.phase(), Phase::Terminated);
    match engine {
        Engine::Terminated(cerebrum) => {
            assert_eq!(cerebrum.state, Terminated);
            assert_untouched(&cerebrum, 0);
        }
        other => panic!("expected termination, got {:?}", other),
    }
}

#[test]
fn conversions_keep_every_field() {
    let consumer: Aggregate<Consumer> = Cerebrum::from(initialiser());
    assert_untouched(&consumer, 0);
    let terminated: Aggregate<Terminated> = Cerebrum::from(consumer);
    assert_untouched(&terminated, 0);
    let terminated: Aggregate<Terminated> = Cerebrum::from(initialiser());
    assert_untouched(&terminated, 0);
}

#[test]
fn consumer_hands_events_to_the_strategy_and_stays() {
    let consumer: Aggregate<Consumer> = Cerebrum::from(initialiser());

    let (engine, requests) = consumer.consume(Feed::Next(event()));
    assert_eq!(engine.phase(), Phase::Consumer);
    assert_eq!(requests.cancels, None);
    assert_eq!(requests.orders, Some(vec![Order { state: RequestOpen }]));
    let consumer = match engine {
        Engine::Consumer(cerebrum) => cerebrum,
        other => panic!("expected the steady state, got {:?}", other),
    };
    assert_untouched(&consumer, 1);

    let (engine, requests) = consumer.consume(Feed::Next(event()));
    assert_eq!(requests.cancels, Some(vec![Order { state: RequestCancel }]));
    assert_eq!(requests.orders.map(|orders| orders.len()), Some(2));
    match engine {
        Engine::Consumer(cerebrum) => assert_untouched(&cerebrum, 2),
        other => panic!("expected the steady state, got {:?}", other),
    }
}

#[test]
fn consumer_terminates_when_the_feed_has_finished() {
    let consumer: Aggregate<Consumer> = Cerebrum::from(initialiser());
    let (engine, requests) = consumer.consume(Feed::Finished);
    assert_eq!(engine.phase(), Phase::Terminated);
    assert!(requests.cancels.is_none());
    assert!(requests.orders.is_none());
    match engine {
        Engine::Terminated(cerebrum) => assert_untouched(&cerebrum, 0),
        other => panic!("expected termination, got {:?}", other),
    }
}

#[test]
fn phase_of_an_engine_still_starting_up() {
    let engine = Engine::Initialiser(initialiser());
    assert_eq!(engine.phase(), Phase::Initialiser);
}

#[test]
fn engine_steps_through_its_feed_and_terminates() {
    let cerebrum = Cerebrum {
        state: Initialiser,
        feed: Scripted { left: 2 },
        event_tx: 9_u8,
        balances: vec![100_i64],
        orders: vec![1_u32],
        positions: vec![-1_i8],
        strategy: Counting { seen: 0 },
    };
    let mut engine = cerebrum.init(Retrieval::Retrieved);
    let mut proposed = Vec::new();
    let mut steps = 0;
    let terminated = loop {
        engine = match engine {
            Engine::Consumer(consumer) => {
                let (next, requests) = consumer.step();
                proposed.push(requests.orders.map(|orders| orders.len()));
                steps += 1;
                next
            }
            Engine::Terminated(terminated) => break terminated,
            Engine::Initialiser(_) => panic!("the engine never returns to start-up"),
        };
    };
    assert_eq!(steps, 3);
    assert_eq!(proposed, vec![Some(1), Some(2), None]);
    assert_eq!(terminated.feed, Scripted { left: 0 });
    assert_eq!(terminated.strategy, Counting { seen: 2 });
    assert_eq!(terminated.event_tx, 9);
    assert_eq!(terminated.balances, vec![100]);
    assert_eq!(terminated.orders, vec![1]);
    assert_eq!(terminated.positions, vec![-1]);
}
