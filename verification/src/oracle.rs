//! Oracle configuration and price reads: a price feed (Pyth or Switchboard)
//! per token pair, and the freshness and confidence checks a price must pass.
use vstd::prelude::*;

use crate::address::Address;

verus! {

/// `pyth_sdk_solana::PythError`, the error of Pyth's account loaders.
#[verifier::external_type_specification]
#[verifier::external_body]
pub struct ExPythError(pyth_sdk_solana::PythError);

/// `anchor_lang::error::Error`, the error of Switchboard's account readers.
#[verifier::external_type_specification]
#[verifier::external_body]
pub struct ExAnchorError(anchor_lang::error::Error);

/// Which oracle a price feed belongs to.
#[derive(Clone, Copy, Debug, PartialEq, Eq, Structural)]
pub enum OracleFeedType {
    Pyth,
    Switchboard,
    /// Not supported yet.
    Chainlink,
}

/// Errors of the oracle instructions.
#[derive(Clone, Copy, Debug, PartialEq, Eq, Structural)]
pub enum ErrorCode {
    /// The feed account could not be read as a price.
    PriceUnavailable,
    /// The price is older than the heartbeat threshold.
    StalePrice,
    /// The price's confidence interval is too wide.
    LowConfidence,
    /// The feed's oracle is not supported.
    UnsupportedOracle,
}

/// A price as the oracle program returns it.
#[derive(Clone, Copy, Debug, PartialEq, Eq, Structural)]
pub struct PriceData {
    pub price: i64,
    pub confidence: u64,
    pub exponent: i32,
    pub last_updated: i64,
}

/// The oracle configuration of a token pair.
#[derive(Clone, Copy, Debug)]
pub struct OracleConfig {
    pub authority: Address,
    pub price_feed: Address,
    pub price_feed_type: OracleFeedType,
    /// Largest age of a price, in seconds.
    pub heartbeat_threshold_seconds: i64,
    /// Largest confidence interval, as a percentage of the price.
    pub confidence_threshold_percent: u64,
    pub bump: u8,
}

/// The current price in a Pyth price account: the aggregate price while the
/// feed is trading, else the previous one.
#[derive(Clone, Copy, Debug, PartialEq, Eq, Structural)]
pub struct PythPrice {
    pub price: i64,
    pub conf: u64,
    pub expo: i32,
    pub publish_time: i64,
}

/// The latest confirmed round of a Switchboard aggregator: its result and
/// standard deviation as decimals (mantissa and scale), and when it opened.
#[derive(Clone, Copy, Debug, PartialEq, Eq, Structural)]
pub struct SwitchboardRound {
    pub result_mantissa: i128,
    pub result_scale: u32,
    pub std_deviation_mantissa: i128,
    pub std_deviation_scale: u32,
    pub round_open_timestamp: i64,
}

/// What a price feed account holds.
#[derive(Clone, Copy, Debug, PartialEq, Eq, Structural)]
pub enum FeedReading {
    Pyth(PythPrice),
    Switchboard(SwitchboardRound),
}


/// The latest confirmed round that the bytes of a Switchboard aggregator
/// account hold, read through the crate's packed account type, where the
/// account is an aggregator and the round has enough oracle results (or the
/// aggregator resolves by sliding window).
pub uninterp spec fn switchboard_latest_round(data: Seq<u8>) -> Option<SwitchboardRound>;

/// Bytes an aggregator account starts with: its account discriminator.
pub open spec fn aggregator_discriminator() -> Seq<u8> {
    seq![217u8, 230, 65, 101, 201, 162, 27, 125]
}

/// Length of an aggregator account: the discriminator and the account data.
pub open spec fn aggregator_account_len() -> nat {
    3851
}

/// Where an aggregator account holds its resolution mode (an enum of two
/// values), in the layout that the compiler gives the crate's packed type;
/// a test checks it.
pub open spec fn aggregator_mode_offset() -> int {
    2204
}

/// The header a Pyth price account starts with: magic, version 2, and the
/// price account type, as little-endian 32-bit words.
pub open spec fn pyth_price_header() -> Seq<u8> {
    seq![0xd4u8, 0xc3, 0xb2, 0xa1, 2, 0, 0, 0, 3, 0, 0, 0]
}

/// Length of a Pyth price account on Solana: the size of the SDK's
/// `SolanaPriceAccount`, which its loader reads.
pub open spec fn pyth_price_account_len() -> nat {
    3312
}

/// Where a Pyth price account holds the status of its aggregate price (an
/// enum of five values); the account type is `repr(C)`.
pub open spec fn pyth_status_offset() -> int {
    224
}

/// The unsigned number that `len` bytes of `data` from `offset` hold, least
/// significant byte first.
pub open spec fn le_unsigned(data: Seq<u8>, offset: int, len: nat) -> int
    decreases len,
{
    if len == 0 {
        0
    } else {
        data[offset] + 256 * le_unsigned(data, offset + 1, (len - 1) as nat)
    }
}

/// The two's-complement 64-bit number that 8 bytes of `data` from `offset` hold.
pub open spec fn le_i64(data: Seq<u8>, offset: int) -> int {
    let unsigned = le_unsigned(data, offset, 8);
    if unsigned <= i64::MAX {
        unsigned
    } else {
        unsigned - 0x1_0000_0000_0000_0000
    }
}

/// The two's-complement 32-bit number that 4 bytes of `data` from `offset` hold.
pub open spec fn le_i32(data: Seq<u8>, offset: int) -> int {
    let unsigned = le_unsigned(data, offset, 4);
    if unsigned <= i32::MAX {
        unsigned
    } else {
        unsigned - 0x1_0000_0000
    }
}

/// The current price that a Pyth price account's bytes hold, as Pyth's SDK
/// reads it from the account's `repr(C)` layout: the exponent at offset 20;
/// while the aggregate price is trading (status byte 1 at offset 224), the
/// aggregate price (offset 208) and confidence (216) with the account's
/// timestamp (96); otherwise the previous price (184), confidence (192) and
/// timestamp (200). None where the bytes are too short or do not start with a
/// price account's header.
pub open spec fn pyth_current_price(data: Seq<u8>) -> Option<PythPrice> {
    if data.len() >= pyth_price_account_len() && data.subrange(0, 12) == pyth_price_header() {
        let trading = data[pyth_status_offset()] == 1;
        Some(
            PythPrice {
                price: (if trading {
                    le_i64(data, 208)
                } else {
                    le_i64(data, 184)
                }) as i64,
                conf: (if trading {
                    le_unsigned(data, 216, 8)
                } else {
                    le_unsigned(data, 192, 8)
                }) as u64,
                expo: le_i32(data, 20) as i32,
                publish_time: (if trading {
                    le_i64(data, 96)
                } else {
                    le_i64(data, 200)
                }) as i64,
            },
        )
    } else {
        None
    }
}

/// The bytes carry the aggregator discriminator but are too short to hold an
/// aggregator; Switchboard's reader panics on them.
pub open spec fn truncated_aggregator(data: Seq<u8>) -> bool {
    &&& data.len() >= 8
    &&& data.len() < aggregator_account_len()
    &&& data.subrange(0, 8) == aggregator_discriminator()
}

/// The oracle SDKs can read the bytes as a feed of the given type without a
/// panic, and every enum that they read from the bytes holds one of its
/// values: a long enough Pyth account's price status, and an aggregator's
/// resolution mode. A Switchboard aggregator must not be cut short.
pub open spec fn feed_bytes_readable(feed_type: OracleFeedType, data: Seq<u8>) -> bool {
    match feed_type {
        OracleFeedType::Pyth => data.len() >= pyth_price_account_len() ==> data[pyth_status_offset()]
            <= 4,
        OracleFeedType::Switchboard => {
            &&& !truncated_aggregator(data)
            &&& data.len() >= aggregator_account_len() && data.subrange(0, 8)
                == aggregator_discriminator() ==> data[aggregator_mode_offset()] <= 1
        },
        OracleFeedType::Chainlink => true,
    }
}

/// Reads the current price of a Pyth price account from its first 3312 bytes.
/// The bytes are copied into 8-aligned storage first
/// (`bytemuck::cast_slice_mut`, `bytemuck::cast_slice`), since the loader
/// casts them in place and panics on misaligned ones. Then
/// `pyth_sdk_solana::state::load_price_account` checks the header (magic,
/// version 2, price account type), and the SDK's
/// `to_price_feed(..).get_price_unchecked()` picks the aggregate price while
/// trading, else the previous one. Claimed: it succeeds exactly when the bytes
/// start with a price account's header, and gives the price that
/// `pyth_current_price` reads from the bytes.
#[verifier::external_body]
fn pyth_read_price(data: &[u8]) -> (res: Result<PythPrice, pyth_sdk_solana::PythError>)
    requires
        data@.len() >= pyth_price_account_len(),
        data@[pyth_status_offset()] <= 4,
    ensures
        res is Ok <==> data@.subrange(0, 12) == pyth_price_header(),
        pyth_current_price(data@) == match res {
            Ok(price) => Some(price),
            Err(_) => None::<PythPrice>,
        },
{
    let mut words = [0u64; 414];
    bytemuck::cast_slice_mut::<u64, u8>(&mut words).copy_from_slice(&data[..3312]);
    let aligned = bytemuck::cast_slice::<u64, u8>(&words);
    let account = pyth_sdk_solana::state::load_price_account::<32, ()>(aligned)?;
    let price = account.to_price_feed(&Default::default()).get_price_unchecked();
    Ok(PythPrice { price: price.price, conf: price.conf, expo: price.expo, publish_time: price.publish_time })
}

/// Reads the latest confirmed round of a Switchboard aggregator account from
/// its bytes, with `switchboard_v2::AggregatorAccountData::new_from_bytes` and
/// `AggregatorAccountData::get_result`; of the round it reads the standard
/// deviation and the opening time field by field. The only enum it reads is
/// the resolution mode. Claimed: it fails when the bytes do not start with the
/// aggregator discriminator, and otherwise gives the round the bytes hold
/// exactly when there is one.
#[verifier::external_body]
fn switchboard_read_round(data: &[u8]) -> (res: Result<SwitchboardRound, anchor_lang::error::Error>)
    requires
        data@.len() >= aggregator_account_len(),
        data@.subrange(0, 8) == aggregator_discriminator() ==> data@[aggregator_mode_offset()] <= 1,
    ensures
        res is Ok ==> data@.subrange(0, 8) == aggregator_discriminator(),
        switchboard_latest_round(data@) == match res {
            Ok(round) => Some(round),
            Err(_) => None::<SwitchboardRound>,
        },
{
    let aggregator = switchboard_v2::AggregatorAccountData::new_from_bytes(data)?;
    let result = aggregator.get_result()?;
    let std_deviation = aggregator.latest_confirmed_round.std_deviation;
    let round_open_timestamp = aggregator.latest_confirmed_round.round_open_timestamp;
    Ok(
        SwitchboardRound {
            result_mantissa: result.mantissa,
            result_scale: result.scale,
            std_deviation_mantissa: std_deviation.mantissa,
            std_deviation_scale: std_deviation.scale,
            round_open_timestamp,
        },
    )
}

/// A fresh oracle configuration.
pub fn initialize_oracle_config(
    authority: Address,
    price_feed: Address,
    price_feed_type: OracleFeedType,
    heartbeat_threshold_seconds: i64,
    confidence_threshold_percent: u64,
    bump: u8,
) -> (config: OracleConfig)
    ensures
        config == (OracleConfig {
            authority,
            price_feed,
            price_feed_type,
            heartbeat_threshold_seconds,
            confidence_threshold_percent,
            bump,
        }),
{
    OracleConfig {
        authority,
        price_feed,
        price_feed_type,
        heartbeat_threshold_seconds,
        confidence_threshold_percent,
        bump,
    }
}

/// Points the configuration at another price feed.
pub fn update_price_feed(
    config: &mut OracleConfig,
    new_price_feed: Address,
    price_feed_type: OracleFeedType,
)
    ensures
        *final(config) == (OracleConfig {
            price_feed: new_price_feed,
            price_feed_type,
            ..*old(config)
        }),
{
    config.price_feed = new_price_feed;
    config.price_feed_type = price_feed_type;
}

/// Sets the freshness and confidence thresholds.
pub fn update_thresholds(
    config: &mut OracleConfig,
    heartbeat_threshold_seconds: i64,
    confidence_threshold_percent: u64,
)
    ensures
        *final(config) == (OracleConfig {
            heartbeat_threshold_seconds,
            confidence_threshold_percent,
            ..*old(config)
        }),
{
    config.heartbeat_threshold_seconds = heartbeat_threshold_seconds;
    config.confidence_threshold_percent = confidence_threshold_percent;
}

/// Whether the bytes start with the given prefix.
fn starts_with(data: &[u8], prefix: &[u8]) -> (res: bool)
    requires
        prefix@.len() <= data@.len(),
    ensures
        res == (data@.subrange(0, prefix@.len() as int) == prefix@),
{
    let mut i: usize = 0;
    while i < prefix.len()
        invariant
            i <= prefix@.len() <= data@.len(),
            forall|j: int| 0 <= j < i ==> data@[j] == prefix@[j],
        decreases prefix@.len() - i,
    {
        if data[i] != prefix[i] {
            assert(data@.subrange(0, prefix@.len() as int)[i as int] != prefix@[i as int]);
            return false;
        }
        i = i + 1;
    }
    assert(data@.subrange(0, prefix@.len() as int) =~= prefix@);
    true
}

/// Whether the oracle SDKs can read the bytes as a feed of the given type.
pub fn feed_bytes_are_readable(feed_type: OracleFeedType, data: &[u8]) -> (res: bool)
    ensures
        res == feed_bytes_readable(feed_type, data@),
{
    let discriminator: [u8; 8] = [217, 230, 65, 101, 201, 162, 27, 125];
    match feed_type {
        OracleFeedType::Pyth => data.len() < 3312 || data[224] <= 4,
        OracleFeedType::Switchboard => {
            if data.len() < 8 {
                return true;
            }
            let is_aggregator = starts_with(data, &discriminator);
            if data.len() < 3851 {
                !is_aggregator
            } else {
                !is_aggregator || data[2204] <= 1
            }
        },
        OracleFeedType::Chainlink => true,
    }
}

/// Reads a price feed account of the given type from its bytes.
/// Chainlink feeds are not supported; a feed that cannot be read gives
/// `PriceUnavailable`.
pub fn read_price_feed(feed_type: OracleFeedType, data: &[u8]) -> (res: Result<FeedReading, ErrorCode>)
    requires
        feed_bytes_readable(feed_type, data@),
    ensures
        feed_type == OracleFeedType::Chainlink ==> res == Err::<FeedReading, ErrorCode>(
            ErrorCode::UnsupportedOracle,
        ),
        feed_type == OracleFeedType::Pyth ==> res == if data@.len() >= pyth_price_account_len() {
            match pyth_current_price(data@) {
                Some(price) => Ok(FeedReading::Pyth(price)),
                None => Err(ErrorCode::PriceUnavailable),
            }
        } else {
            Err(ErrorCode::PriceUnavailable)
        },
        feed_type == OracleFeedType::Pyth ==> (res is Ok <==> data@.len() >= pyth_price_account_len()
            && data@.subrange(0, 12) == pyth_price_header()),
        feed_type == OracleFeedType::Switchboard ==> res == if data@.len() >= aggregator_account_len() {
            match switchboard_latest_round(data@) {
                Some(round) => Ok(FeedReading::Switchboard(round)),
                None => Err(ErrorCode::PriceUnavailable),
            }
        } else {
            Err(ErrorCode::PriceUnavailable)
        },
        feed_type == OracleFeedType::Switchboard && res is Ok ==> data@.len() >= aggregator_account_len()
            && data@.subrange(0, 8) == aggregator_discriminator(),
{
    match feed_type {
        OracleFeedType::Pyth => {
            if data.len() < 3312 {
                return Err(ErrorCode::PriceUnavailable);
            }
            match pyth_read_price(data) {
                Ok(price) => Ok(FeedReading::Pyth(price)),
                Err(_) => Err(ErrorCode::PriceUnavailable),
            }
        },
        OracleFeedType::Switchboard => {
            if data.len() < 3851 {
                return Err(ErrorCode::PriceUnavailable);
            }
            match switchboard_read_round(data) {
                Ok(round) => Ok(FeedReading::Switchboard(round)),
                Err(_) => Err(ErrorCode::PriceUnavailable),
            }
        },
        OracleFeedType::Chainlink => Err(ErrorCode::UnsupportedOracle),
    }
}

/// When the price in a reading was published.
pub open spec fn last_updated(reading: FeedReading) -> i64 {
    match reading {
        FeedReading::Pyth(price) => price.publish_time,
        FeedReading::Switchboard(round) => round.round_open_timestamp,
    }
}

/// The price data a reading gives, where its values fit: a Switchboard
/// result's mantissa must fit in 64 bits, and its standard deviation's
/// mantissa must be a non-negative 64-bit value; the scale becomes the
/// exponent, cast to 32 bits.
pub open spec fn reading_price_data(reading: FeedReading) -> Option<PriceData> {
    match reading {
        FeedReading::Pyth(price) => Some(
            PriceData {
                price: price.price,
                confidence: price.conf,
                exponent: price.expo,
                last_updated: price.publish_time,
            },
        ),
        FeedReading::Switchboard(round) => if i64::MIN <= round.result_mantissa <= i64::MAX && 0
            <= round.std_deviation_mantissa <= u64::MAX {
            Some(
                PriceData {
                    price: round.result_mantissa as i64,
                    confidence: round.std_deviation_mantissa as u64,
                    exponent: round.result_scale as i32,
                    last_updated: round.round_open_timestamp,
                },
            )
        } else {
            None
        },
    }
}

/// The age check of `get_price` does not overflow.
pub open spec fn price_age_fits(reading: FeedReading, now: i64) -> bool {
    i64::MIN <= now - last_updated(reading) <= i64::MAX
}

/// What `get_price` returns.
pub open spec fn get_price_result(
    config: OracleConfig,
    reading: FeedReading,
    now: i64,
    confidence_within_threshold: bool,
) -> Result<PriceData, ErrorCode> {
    if now - last_updated(reading) > config.heartbeat_threshold_seconds {
        Err(ErrorCode::StalePrice)
    } else if !confidence_within_threshold {
        Err(ErrorCode::LowConfidence)
    } else {
        match reading_price_data(reading) {
            Some(data) => Ok(data),
            None => Err(ErrorCode::PriceUnavailable),
        }
    }
}

/// Checks a reading at time `now` against the configuration and gives its
/// price data. `confidence_within_threshold` says whether the reading's
/// confidence interval, as a percentage of its price, is within the
/// configured threshold.
pub fn get_price(
    config: &OracleConfig,
    reading: &FeedReading,
    now: i64,
    confidence_within_threshold: bool,
) -> (res: Result<PriceData, ErrorCode>)
    requires
        price_age_fits(*reading, now),
    ensures
        res == get_price_result(*config, *reading, now, confidence_within_threshold),
{
    let last_update_time = match reading {
        FeedReading::Pyth(price) => price.publish_time,
        FeedReading::Switchboard(round) => round.round_open_timestamp,
    };
    let time_since_update = now - last_update_time;
    if !(time_since_update <= config.heartbeat_threshold_seconds) {
        return Err(ErrorCode::StalePrice);
    }
    if !confidence_within_threshold {
        return Err(ErrorCode::LowConfidence);
    }
    match reading {
        FeedReading::Pyth(price) => Ok(
            PriceData {
                price: price.price,
                confidence: price.conf,
                exponent: price.expo,
                last_updated: price.publish_time,
            },
        ),
        FeedReading::Switchboard(round) => {
            if round.result_mantissa < -0x8000_0000_0000_0000i128 || round.result_mantissa
                > 0x7fff_ffff_ffff_ffffi128 {
                return Err(ErrorCode::PriceUnavailable);
            }
            if round.std_deviation_mantissa < 0 || round.std_deviation_mantissa
                > 0xffff_ffff_ffff_ffffi128 {
                return Err(ErrorCode::PriceUnavailable);
            }
            Ok(
                PriceData {
                    price: round.result_mantissa as i64,
                    confidence: round.std_deviation_mantissa as u64,
                    exponent: round.result_scale as i32,
                    last_updated: round.round_open_timestamp,
                },
            )
        },
    }
}

/// A price that `get_price` returns is never older than the heartbeat
/// threshold, and its confidence was within the threshold.
pub proof fn lemma_returned_price_is_fresh(
    config: OracleConfig,
    reading: FeedReading,
    now: i64,
    confidence_within_threshold: bool,
)
    ensures
        get_price_result(config, reading, now, confidence_within_threshold) matches Ok(data) ==> {
            &&& now - data.last_updated <= config.heartbeat_threshold_seconds
            &&& confidence_within_threshold
        },
{
}

/// Loosening the thresholds never turns an accepted price into a refusal: a
/// configuration with at least as long a heartbeat, under which the
/// confidence check passes whenever it passed before, returns the same price.
pub proof fn lemma_looser_thresholds_keep_price(
    config: OracleConfig,
    looser: OracleConfig,
    reading: FeedReading,
    now: i64,
    confidence_within_threshold: bool,
    looser_confidence_within_threshold: bool,
)
    requires
        looser.heartbeat_threshold_seconds >= config.heartbeat_threshold_seconds,
        confidence_within_threshold ==> looser_confidence_within_threshold,
    ensures
        get_price_result(config, reading, now, confidence_within_threshold) matches Ok(data)
            ==> get_price_result(looser, reading, now, looser_confidence_within_threshold) == Ok::<
            PriceData,
            ErrorCode,
        >(data),
{
}


/// An accepted price is the reading's own: for Pyth its price, confidence,
/// exponent and publish time; for Switchboard the result's mantissa as the
/// price and the result's scale as the exponent, the standard deviation's
/// mantissa as the confidence, and the round's opening time. A fresh reading
/// whose confidence passes is accepted, as long as a Switchboard result and
/// deviation fit the price data; a stale one is refused as stale, and a fresh
/// one whose confidence fails as of low confidence.
pub proof fn lemma_price_comes_from_reading(
    config: OracleConfig,
    reading: FeedReading,
    now: i64,
    confidence_within_threshold: bool,
)
    ensures
        get_price_result(config, reading, now, confidence_within_threshold) matches Ok(data) ==> match reading {
            FeedReading::Pyth(price) => {
                &&& data.price == price.price
                &&& data.confidence == price.conf
                &&& data.exponent == price.expo
                &&& data.last_updated == price.publish_time
            },
            FeedReading::Switchboard(round) => {
                &&& data.price == round.result_mantissa
                &&& data.confidence == round.std_deviation_mantissa
                &&& data.exponent == round.result_scale as i32
                &&& data.last_updated == round.round_open_timestamp
            },
        },
        ({
            let published = match reading {
                FeedReading::Pyth(price) => price.publish_time,
                FeedReading::Switchboard(round) => round.round_open_timestamp,
            };
            let fits = match reading {
                FeedReading::Pyth(_) => true,
                FeedReading::Switchboard(round) => i64::MIN <= round.result_mantissa <= i64::MAX
                    && 0 <= round.std_deviation_mantissa <= u64::MAX,
            };
            &&& now - published > config.heartbeat_threshold_seconds ==> get_price_result(
                config,
                reading,
                now,
                confidence_within_threshold,
            ) == Err::<PriceData, ErrorCode>(ErrorCode::StalePrice)
            &&& now - published <= config.heartbeat_threshold_seconds && !confidence_within_threshold
                ==> get_price_result(config, reading, now, confidence_within_threshold) == Err::<
                PriceData,
                ErrorCode,
            >(ErrorCode::LowConfidence)
            &&& now - published <= config.heartbeat_threshold_seconds && confidence_within_threshold
                ==> (get_price_result(config, reading, now, confidence_within_threshold) is Ok
                <==> fits)
            &&& !fits && now - published <= config.heartbeat_threshold_seconds
                && confidence_within_threshold ==> get_price_result(
                config,
                reading,
                now,
                confidence_within_threshold,
            ) == Err::<PriceData, ErrorCode>(ErrorCode::PriceUnavailable)
        }),
{
}

} // verus!
