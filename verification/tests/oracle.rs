use anchor_lang::__private::bytemuck;
use openfund::oracle::{
    feed_bytes_are_readable, get_price, initialize_oracle_config, read_price_feed, update_price_feed, update_thresholds,
    ErrorCode, FeedReading, OracleConfig, OracleFeedType, PriceData, PythPrice, SwitchboardRound,
};
use openfund::Address;

fn key(b: u8) -> Address {
    Address::new([b; 32])
}

fn put(data: &mut [u8], at: usize, bytes: &[u8]) {
    data[at..at + bytes.len()].copy_from_slice(bytes);
}

fn pyth_account(trading: bool) -> Vec<u8> {
    let mut data = vec![0u8; 3312];
    put(&mut data, 0, &0xa1b2c3d4u32.to_le_bytes());
    put(&mut data, 4, &2u32.to_le_bytes());
    put(&mut data, 8, &3u32.to_le_bytes());
    put(&mut data, 20, &(-8i32).to_le_bytes());
    put(&mut data, 96, &1_000i64.to_le_bytes());
    put(&mut data, 184, &4_000i64.to_le_bytes());
    put(&mut data, 192, &40u64.to_le_bytes());
    put(&mut data, 200, &900i64.to_le_bytes());
    put(&mut data, 208, &5_000i64.to_le_bytes());
    put(&mut data, 216, &25u64.to_le_bytes());
    data[224] = if trading { 1 } else { 2 };
    data
}

fn switchboard_account(mantissa: i128, min_oracle_results: u32) -> Vec<u8> {
    let mut aggregator: switchboard_v2::AggregatorAccountData = bytemuck::Zeroable::zeroed();
    aggregator.min_oracle_results = min_oracle_results;
    aggregator.latest_confirmed_round.num_success = 1;
    aggregator.latest_confirmed_round.round_open_timestamp = 2_000;
    aggregator.latest_confirmed_round.result = switchboard_v2::SwitchboardDecimal::new(mantissa, 6);
    aggregator.latest_confirmed_round.std_deviation = switchboard_v2::SwitchboardDecimal::new(1_500, 6);
    let mut data = vec![217u8, 230, 65, 101, 201, 162, 27, 125];
    data.extend_from_slice(bytemuck::bytes_of(&aggregator));
    data
}

fn config(feed_type: OracleFeedType) -> OracleConfig {
    initialize_oracle_config(key(1), key(2), feed_type, 60, 5, 9)
}

#[test]
fn account_sizes_match_the_sdks() {
    assert_eq!(std::mem::size_of::<pyth_sdk_solana::state::SolanaPriceAccount>(), 3312);
    assert_eq!(std::mem::size_of::<switchboard_v2::AggregatorAccountData>() + 8, 3851);
}

#[test]
fn initialize_and_update_oracle_config() {
    let mut c = config(OracleFeedType::Pyth);
    assert_eq!(c.authority.bytes, [1; 32]);
    assert_eq!(c.price_feed.bytes, [2; 32]);
    assert_eq!(c.price_feed_type, OracleFeedType::Pyth);
    assert_eq!(c.heartbeat_threshold_seconds, 60);
    assert_eq!(c.confidence_threshold_percent, 5);
    assert_eq!(c.bump, 9);
    update_price_feed(&mut c, key(3), OracleFeedType::Switchboard);
    assert_eq!(c.price_feed.bytes, [3; 32]);
    assert_eq!(c.price_feed_type, OracleFeedType::Switchboard);
    assert_eq!(c.heartbeat_threshold_seconds, 60);
    update_thresholds(&mut c, 30, 2);
    assert_eq!(c.heartbeat_threshold_seconds, 30);
    assert_eq!(c.confidence_threshold_percent, 2);
    assert_eq!(c.price_feed.bytes, [3; 32]);
}

#[test]
fn read_pyth_trading_price() {
    let reading = read_price_feed(OracleFeedType::Pyth, &pyth_account(true)).unwrap();
    assert_eq!(
        reading,
        FeedReading::Pyth(PythPrice { price: 5_000, conf: 25, expo: -8, publish_time: 1_000 })
    );
}

#[test]
fn read_pyth_previous_price_when_not_trading() {
    let reading = read_price_feed(OracleFeedType::Pyth, &pyth_account(false)).unwrap();
    assert_eq!(
        reading,
        FeedReading::Pyth(PythPrice { price: 4_000, conf: 40, expo: -8, publish_time: 900 })
    );
}

#[test]
fn read_pyth_refuses_other_accounts() {
    let mut data = pyth_account(true);
    data[0] = 0;
    assert_eq!(read_price_feed(OracleFeedType::Pyth, &data), Err(ErrorCode::PriceUnavailable));
    assert_eq!(read_price_feed(OracleFeedType::Pyth, &[0u8; 10]), Err(ErrorCode::PriceUnavailable));
}

#[test]
fn read_switchboard_round() {
    let reading = read_price_feed(OracleFeedType::Switchboard, &switchboard_account(123_456, 1)).unwrap();
    assert_eq!(
        reading,
        FeedReading::Switchboard(SwitchboardRound {
            result_mantissa: 123_456,
            result_scale: 6,
            std_deviation_mantissa: 1_500,
            std_deviation_scale: 6,
            round_open_timestamp: 2_000,
        })
    );
}

#[test]
fn read_switchboard_refuses_round_without_enough_results() {
    assert_eq!(
        read_price_feed(OracleFeedType::Switchboard, &switchboard_account(1, 2)),
        Err(ErrorCode::PriceUnavailable)
    );
}

#[test]
fn read_switchboard_refuses_other_accounts() {
    let mut data = switchboard_account(1, 0);
    data[0] = 0;
    assert_eq!(read_price_feed(OracleFeedType::Switchboard, &data), Err(ErrorCode::PriceUnavailable));
    assert_eq!(read_price_feed(OracleFeedType::Switchboard, &[1u8; 4]), Err(ErrorCode::PriceUnavailable));
}

#[test]
fn chainlink_is_unsupported() {
    assert_eq!(
        read_price_feed(OracleFeedType::Chainlink, &pyth_account(true)),
        Err(ErrorCode::UnsupportedOracle)
    );
}

#[test]
fn get_price_returns_fresh_pyth_price() {
    let reading = FeedReading::Pyth(PythPrice { price: 5_000, conf: 25, expo: -8, publish_time: 1_000 });
    let c = config(OracleFeedType::Pyth);
    assert_eq!(
        get_price(&c, &reading, 1_060, true),
        Ok(PriceData { price: 5_000, confidence: 25, exponent: -8, last_updated: 1_000 })
    );
}

#[test]
fn get_price_refuses_stale_price() {
    let reading = FeedReading::Pyth(PythPrice { price: 5_000, conf: 25, expo: -8, publish_time: 1_000 });
    let c = config(OracleFeedType::Pyth);
    assert_eq!(get_price(&c, &reading, 1_061, true), Err(ErrorCode::StalePrice));
    // staleness is checked before confidence
    assert_eq!(get_price(&c, &reading, 1_061, false), Err(ErrorCode::StalePrice));
}

#[test]
fn get_price_refuses_low_confidence() {
    let reading = FeedReading::Pyth(PythPrice { price: 5_000, conf: 25, expo: -8, publish_time: 1_000 });
    let c = config(OracleFeedType::Pyth);
    assert_eq!(get_price(&c, &reading, 1_000, false), Err(ErrorCode::LowConfidence));
}

#[test]
fn get_price_from_switchboard_round() {
    let round = SwitchboardRound {
        result_mantissa: 123_456,
        result_scale: 6,
        std_deviation_mantissa: 1_500,
        std_deviation_scale: 6,
        round_open_timestamp: 2_000,
    };
    let c = config(OracleFeedType::Switchboard);
    assert_eq!(
        get_price(&c, &FeedReading::Switchboard(round), 2_010, true),
        Ok(PriceData { price: 123_456, confidence: 1_500, exponent: 6, last_updated: 2_000 })
    );
    let huge = SwitchboardRound { result_mantissa: i128::from(i64::MAX) + 1, ..round };
    assert_eq!(
        get_price(&c, &FeedReading::Switchboard(huge), 2_010, true),
        Err(ErrorCode::PriceUnavailable)
    );
    let negative_spread = SwitchboardRound { std_deviation_mantissa: -1, ..round };
    assert_eq!(
        get_price(&c, &FeedReading::Switchboard(negative_spread), 2_010, true),
        Err(ErrorCode::PriceUnavailable)
    );
}

#[test]
fn read_pyth_from_misaligned_bytes() {
    let mut shifted = vec![0u8];
    shifted.extend_from_slice(&pyth_account(true));
    let reading = read_price_feed(OracleFeedType::Pyth, &shifted[1..]).unwrap();
    assert_eq!(
        reading,
        FeedReading::Pyth(PythPrice { price: 5_000, conf: 25, expo: -8, publish_time: 1_000 })
    );
}

#[test]
fn read_pyth_refuses_short_account() {
    let data = pyth_account(true);
    assert_eq!(read_price_feed(OracleFeedType::Pyth, &data[..3311]), Err(ErrorCode::PriceUnavailable));
}

#[test]
fn aggregator_mode_byte_offset() {
    for i in 8..3851 {
        let mut data = switchboard_account(1, 5);
        data[i] = 1;
        let aggregator = switchboard_v2::AggregatorAccountData::new_from_bytes(&data).unwrap();
        let sliding = aggregator.resolution_mode
            == switchboard_v2::AggregatorResolutionMode::ModeSlidingResolution;
        assert_eq!(sliding, i == 2204);
    }
}

#[test]
fn sliding_aggregator_reads_without_enough_results() {
    let mut data = switchboard_account(77, 5);
    data[2204] = 1;
    assert!(matches!(
        read_price_feed(OracleFeedType::Switchboard, &data),
        Ok(FeedReading::Switchboard(SwitchboardRound { result_mantissa: 77, .. }))
    ));
}

#[test]
fn feed_bytes_readability() {
    let mut pyth = pyth_account(true);
    assert!(feed_bytes_are_readable(OracleFeedType::Pyth, &pyth));
    pyth[224] = 5;
    assert!(!feed_bytes_are_readable(OracleFeedType::Pyth, &pyth));
    assert!(feed_bytes_are_readable(OracleFeedType::Pyth, &pyth[..100]));
    let mut aggregator = switchboard_account(1, 0);
    assert!(feed_bytes_are_readable(OracleFeedType::Switchboard, &aggregator));
    assert!(!feed_bytes_are_readable(OracleFeedType::Switchboard, &aggregator[..100]));
    aggregator[2204] = 2;
    assert!(!feed_bytes_are_readable(OracleFeedType::Switchboard, &aggregator));
    aggregator[0] = 0;
    assert!(feed_bytes_are_readable(OracleFeedType::Switchboard, &aggregator));
    assert!(feed_bytes_are_readable(OracleFeedType::Chainlink, &[]));
}

#[test]
fn looser_thresholds_keep_price() {
    let reading = FeedReading::Pyth(PythPrice { price: 5_000, conf: 25, expo: -8, publish_time: 1_000 });
    let strict = config(OracleFeedType::Pyth);
    let mut loose = strict;
    update_thresholds(&mut loose, 120, 10);
    let accepted = get_price(&strict, &reading, 1_050, true).unwrap();
    assert_eq!(get_price(&loose, &reading, 1_050, true), Ok(accepted));
    assert!(get_price(&strict, &reading, 1_100, true).is_err());
    assert!(get_price(&loose, &reading, 1_100, true).is_ok());
}

#[test]
fn read_pyth_negative_price_and_unknown_status() {
    let mut data = pyth_account(true);
    put(&mut data, 208, &(-5_000i64).to_le_bytes());
    let reading = read_price_feed(OracleFeedType::Pyth, &data).unwrap();
    assert_eq!(
        reading,
        FeedReading::Pyth(PythPrice { price: -5_000, conf: 25, expo: -8, publish_time: 1_000 })
    );
    data[224] = 0;
    let reading = read_price_feed(OracleFeedType::Pyth, &data).unwrap();
    assert_eq!(
        reading,
        FeedReading::Pyth(PythPrice { price: 4_000, conf: 40, expo: -8, publish_time: 900 })
    );
}
