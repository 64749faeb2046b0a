//! Tests of the price feed: round storage, historical reads, and the
//! time-weighted average price.

use margined_engine::error::EngineError;
use margined_engine::pricefeed::{PriceData, PriceFeed};

const OWNER: u64 = 1;
const EXECUTOR: u64 = 2;
const T0: u64 = 1_000_000;

fn feed_with(prices: &[u128], timestamps: &[u64]) -> PriceFeed {
    let mut feed = PriceFeed::new(OWNER, EXECUTOR);
    for i in 0..prices.len() {
        feed.append_price(EXECUTOR, prices[i], timestamps[i]).unwrap();
    }
    feed
}

#[test]
fn test_update_owner() {
    let feed = PriceFeed::new(OWNER, EXECUTOR);
    assert_eq!(feed.query_owner(), OWNER);
    assert_eq!(feed.query_executor(), EXECUTOR);
}

#[test]
fn test_set_and_get_price() {
    let mut feed = PriceFeed::new(OWNER, EXECUTOR);

    // only the executor may append
    let err = feed.append_price(OWNER, 500_000_000, T0).unwrap_err();
    assert!(matches!(err, EngineError::Unauthorized));

    feed.append_price(EXECUTOR, 500_000_000, T0).unwrap();
    assert_eq!(feed.query_get_price().unwrap(), 500_000_000);

    feed.append_price(EXECUTOR, 600_000_000, T0 + 1).unwrap();
    assert_eq!(feed.query_get_price().unwrap(), 600_000_000);

    let detail = feed.read_price_data(2);
    assert_eq!(
        detail,
        PriceData { round_id: 2, price: 600_000_000, timestamp: T0 + 1 }
    );

    // a round that does not advance the clock is rejected
    let err = feed.append_price(EXECUTOR, 700_000_000, T0 + 1).unwrap_err();
    assert!(matches!(err, EngineError::StaleRound));
}

#[test]
fn test_set_multiple_price() {
    let feed = feed_with(
        &[500_000_000, 600_000_000, 700_000_000],
        &[T0, T0 + 1, T0 + 2],
    );
    assert_eq!(feed.query_last_round_id(), 3);
    assert_eq!(feed.query_get_price().unwrap(), 700_000_000);
}

#[test]
fn test_get_previous_price() {
    let feed = feed_with(
        &[
            500_000_000,
            600_000_000,
            700_000_000,
            600_000_000,
            670_000_000,
            710_000_000,
        ],
        &[T0, T0 + 1, T0 + 2, T0 + 3, T0 + 4, T0 + 5],
    );

    assert_eq!(feed.query_get_previous_price(3).unwrap(), 700_000_000);
    let err = feed.query_get_previous_price(7).unwrap_err();
    assert!(matches!(err, EngineError::InsufficientHistory));
    assert_eq!(feed.query_last_round_id(), 6);
}

#[test]
fn test_get_twap_price() {
    let feed = feed_with(
        &[400_000_000, 405_000_000, 410_000_000],
        &[T0, T0 + 15, T0 + 30],
    );
    let now = T0 + 45;

    // the whole window is covered: plain average of three equal spans
    assert_eq!(feed.query_get_twap_price(now, 45).unwrap(), 405_000_000);

    // asking a longer interval than the history has clips at the first
    // round
    assert_eq!(feed.query_get_twap_price(now, 46).unwrap(), 405_000_000);

    // asking a shorter interval weights the earliest round for only the
    // part inside the window
    assert_eq!(feed.query_get_twap_price(now, 44).unwrap(), 405_113_636);

    assert_eq!(feed.query_last_round_id(), 3);
}

#[test]
fn test_get_twap_variant_price_period() {
    let feed = feed_with(
        &[400_000_000, 405_000_000, 410_000_000, 420_000_000],
        &[T0, T0 + 15, T0 + 30, T0 + 75],
    );
    let now = T0 + 95;

    assert_eq!(feed.query_get_twap_price(now, 95).unwrap(), 409_736_842);
    assert_eq!(feed.query_last_round_id(), 4);
}

#[test]
fn test_get_twap_latest_price_update_is_earlier_than_request() {
    let feed = feed_with(
        &[400_000_000, 405_000_000, 410_000_000],
        &[T0, T0 + 15, T0 + 30],
    );
    // the whole window lies after the latest round: its price is the
    // average
    let now = T0 + 100;
    assert_eq!(feed.query_get_twap_price(now, 45).unwrap(), 410_000_000);
}

#[test]
fn test_get_twap_no_rounds() {
    let feed = PriceFeed::new(OWNER, EXECUTOR);
    let err = feed.query_get_twap_price(T0, 45).unwrap_err();
    assert!(matches!(err, EngineError::InsufficientHistory));
}

#[test]
fn test_get_twap_error_zero_interval() {
    let feed = feed_with(&[400_000_000], &[T0]);
    let err = feed.query_get_twap_price(T0 + 10, 0).unwrap_err();
    assert!(matches!(err, EngineError::ZeroInput));
}

#[test]
fn single_round_is_its_own_average() {
    let feed = feed_with(&[400_000_000], &[T0]);
    assert_eq!(feed.query_get_twap_price(T0 + 10, 5).unwrap(), 400_000_000);
}
