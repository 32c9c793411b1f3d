//! Discord snowflake identifiers: decoding, parsing, writing and their time stamps.

use crate::decimal::all_white_space;
use crate::decimal::decimal;
use crate::decimal::lemma_trim_ignores_padding;
use crate::decimal::decimal_string;
use crate::decimal::lemma_decimal_round_trip;
use crate::decimal::int_error_kind;
use crate::decimal::parse_error_kind_allowed;
use crate::decimal::parse_u64;
use crate::decimal::u64_parse_error;
use crate::decimal::parsed_u64;
use crate::decimal::trim;
use crate::decimal::trim_str;
use chrono::TimeZone;
use chrono::Utc;
use std::num::ParseIntError;
use vstd::prelude::*;
use vstd::string::StringExecFns;
use vstd::string::to_string_from_display_ensures;

verus! {

/// The first millisecond of 2015, in milliseconds since the Unix epoch: the origin of the
/// time stamps that snowflakes carry.
pub const DISCORD_EPOCH_MS: u64 = 1_420_070_400_000;

/// The first millisecond that a `chrono::DateTime<Utc>` holds (January 1 of the year -262143),
/// in milliseconds since the Unix epoch.
pub const CHRONO_MIN_UTC_MILLIS: i64 = -8_334_601_315_200_000;

/// The last millisecond that a `chrono::DateTime<Utc>` holds (December 31 of the year 262142),
/// in milliseconds since the Unix epoch.
pub const CHRONO_MAX_UTC_MILLIS: i64 = 8_210_266_876_799_999;

/// A snowflake identifier together with the fields packed into it.
#[derive(Debug, Clone, Copy, PartialEq, Eq, Hash)]
pub struct Snowflake {
    pub raw: u64,
    pub timestamp_ms: u64,
    pub worker_id: u8,
    pub process_id: u8,
    pub increment: u16,
}

/// Why a snowflake could not be read or its time stamp not converted.
#[derive(Debug)]
pub enum SnowflakeError {
    EmptyId,
    InvalidId(ParseIntError),
    TimestampOutOfRange(u64),
}

impl SnowflakeError {
    /// The message that describes the error.
    pub fn to_string(&self) -> (r: String)
        ensures
            match self {
                SnowflakeError::EmptyId => r@ == "snowflake id is empty"@,
                SnowflakeError::InvalidId(error) => exists|message: String|
                    to_string_from_display_ensures::<ParseIntError>(error, message) && r@
                        == "invalid snowflake id: "@ + message@,
                SnowflakeError::TimestampOutOfRange(value) => r@
                    == "timestamp is out of range for chrono: "@ + decimal(*value as nat),
            },
    {
        match self {
            SnowflakeError::EmptyId => String::from_str("snowflake id is empty"),
            SnowflakeError::InvalidId(error) => {
                let message = error.to_string();
                let mut text = String::from_str("invalid snowflake id: ");
                text.append(message.as_str());
                text
            },
            SnowflakeError::TimestampOutOfRange(value) => {
                let mut text = String::from_str("timestamp is out of range for chrono: ");
                let digits = decimal_string(*value);
                text.append(digits.as_str());
                text
            },
        }
    }
}

/// The snowflake whose identifier is `raw`: its high 42 bits count milliseconds since
/// [`DISCORD_EPOCH_MS`], then come 5 bits of worker, 5 bits of process and 12 bits of
/// increment.
pub open spec fn snowflake_of(raw: u64) -> Snowflake {
    Snowflake {
        raw,
        timestamp_ms: ((raw >> 22u64) + DISCORD_EPOCH_MS) as u64,
        worker_id: ((raw >> 17u64) & 0x1fu64) as u8,
        process_id: ((raw >> 12u64) & 0x1fu64) as u8,
        increment: (raw & 0xfffu64) as u16,
    }
}

/// The identifier that packs a time stamp `rel_ms` milliseconds after [`DISCORD_EPOCH_MS`]
/// with a worker, a process and an increment.
pub open spec fn compose_raw(rel_ms: u64, worker_id: u8, process_id: u8, increment: u16) -> u64 {
    (rel_ms << 22u64) | ((worker_id as u64) << 17u64) | ((process_id as u64) << 12u64) | (
    increment as u64)
}

/// Whether a `chrono::DateTime<Utc>` holds the instant `ms` milliseconds after the Unix epoch.
pub open spec fn chrono_holds(ms: int) -> bool {
    CHRONO_MIN_UTC_MILLIS <= ms <= CHRONO_MAX_UTC_MILLIS
}

/// The identifier that the text `id` names, once trimmed: `None` where it names none.
pub open spec fn id_value(id: Seq<char>) -> Option<u64> {
    parsed_u64(trim(id))
}

/// The time stamp, in milliseconds since the Unix epoch, that the identifier `id` carries.
pub fn discord_timestamp_ms(id: u64) -> (r: u64)
    ensures
        r == (id >> 22u64) + DISCORD_EPOCH_MS,
{
    let rel: u64 = id >> 22u64;
    assert(id >> 22u64 <= 0x3ff_ffff_ffffu64) by (bit_vector);
    rel + DISCORD_EPOCH_MS
}

/// Reads an identifier written in base ten, with white space around it allowed.
pub fn parse_id(id: &str) -> (r: Result<u64, SnowflakeError>)
    ensures
        match r {
            Ok(v) => id_value(id@) == Some(v),
            Err(SnowflakeError::EmptyId) => trim(id@).len() == 0,
            Err(SnowflakeError::InvalidId(error)) => trim(id@).len() > 0 && id_value(id@) is None
                && error == u64_parse_error(trim(id@)) && parse_error_kind_allowed(
                trim(id@),
                int_error_kind(error),
            ),
            Err(SnowflakeError::TimestampOutOfRange(_)) => false,
        },
{
    let trimmed = trim_str(id);
    if trimmed.is_empty() {
        return Err(SnowflakeError::EmptyId);
    }
    match parse_u64(trimmed) {
        Ok(value) => Ok(value),
        Err(error) => Err(SnowflakeError::InvalidId(error)),
    }
}

impl Snowflake {
    /// Unpacks the fields of the identifier `raw`.
    pub fn from_raw(raw: u64) -> (r: Self)
        ensures
            r == snowflake_of(raw),
    {
        Snowflake {
            raw,
            timestamp_ms: discord_timestamp_ms(raw),
            worker_id: ((raw >> 17u64) & 0x1fu64) as u8,
            process_id: ((raw >> 12u64) & 0x1fu64) as u8,
            increment: (raw & 0xfffu64) as u16,
        }
    }

    /// The identifier itself.
    pub fn as_u64(self) -> (r: u64)
        ensures
            r == self.raw,
    {
        self.raw
    }

    /// Reads a snowflake from its identifier written in base ten, as a JSON string holds it.
    pub fn parse(id: &str) -> (r: Result<Snowflake, SnowflakeError>)
        ensures
            match r {
                Ok(s) => id_value(id@) == Some(s.raw) && s == snowflake_of(s.raw),
                Err(SnowflakeError::EmptyId) => trim(id@).len() == 0,
                Err(SnowflakeError::InvalidId(error)) => trim(id@).len() > 0 && id_value(id@) is None
                && error == u64_parse_error(trim(id@)) && parse_error_kind_allowed(
                trim(id@),
                int_error_kind(error),
            ),
                Err(SnowflakeError::TimestampOutOfRange(_)) => false,
            },
    {
        match parse_id(id) {
            Ok(raw) => Ok(Snowflake::from_raw(raw)),
            Err(error) => Err(error),
        }
    }

    /// The identifier written in base ten, the text that stands for a snowflake in JSON.
    pub fn to_id_string(&self) -> (r: String)
        ensures
            r@ == decimal(self.raw as nat),
    {
        decimal_string(self.raw)
    }
}

/// `TimeZone::timestamp_millis_opt` on `Utc`, told apart by `single`, and the `DateTime` that it
/// gives read back by `DateTime::timestamp_millis`. chrono's source builds the value through
/// `DateTime::from_timestamp_millis`, which succeeds exactly between `DateTime::MIN_UTC` and
/// `DateTime::MAX_UTC` (the years -262143 to 262142), and documents that `timestamp_millis`
/// gives back the milliseconds it was made from. The contract claims both.
#[verifier::external_body]
fn chrono_utc_millis(millis: i64) -> (r: Option<i64>)
    ensures
        r is Some <==> chrono_holds(millis as int),
        r is Some ==> r == Some(millis),
{
    match Utc.timestamp_millis_opt(millis).single() {
        Some(datetime) => Some(datetime.timestamp_millis()),
        None => None,
    }
}

/// An instant that a `chrono::DateTime<Utc>` holds, to the millisecond.
pub struct UtcDateTime {
    millis: i64,
}

impl View for UtcDateTime {
    type V = int;

    closed spec fn view(&self) -> int {
        self.millis as int
    }
}

impl UtcDateTime {
    #[verifier::type_invariant]
    spec fn representable(self) -> bool {
        chrono_holds(self.millis as int)
    }

    /// Milliseconds since the Unix epoch.
    pub fn timestamp_millis(&self) -> (r: i64)
        ensures
            r as int == self@,
            chrono_holds(r as int),
    {
        proof {
            use_type_invariant(self);
        }
        self.millis
    }
}

/// The instant `timestamp_ms` milliseconds after the Unix epoch, where chrono can hold it.
pub fn timestamp_to_chrono(timestamp_ms: u64) -> (r: Result<UtcDateTime, SnowflakeError>)
    ensures
        match r {
            Ok(datetime) => chrono_holds(timestamp_ms as int) && datetime@ == timestamp_ms as int,
            Err(error) => !chrono_holds(timestamp_ms as int) && error
                == SnowflakeError::TimestampOutOfRange(timestamp_ms),
        },
{
    if timestamp_ms > 0x7fff_ffff_ffff_ffffu64 {
        return Err(SnowflakeError::TimestampOutOfRange(timestamp_ms));
    }
    let millis: i64 = timestamp_ms as i64;
    match chrono_utc_millis(millis) {
        Some(held) => Ok(UtcDateTime { millis: held }),
        None => Err(SnowflakeError::TimestampOutOfRange(millis as u64)),
    }
}

/// Values that carry an instant.
pub trait Timestamp {
    /// The instant, as chrono holds it.
    fn to_chrono(self) -> Result<UtcDateTime, SnowflakeError>;
}

impl Timestamp for Snowflake {
    fn to_chrono(self) -> (r: Result<UtcDateTime, SnowflakeError>)
        ensures
            match r {
                Ok(datetime) => chrono_holds(self.timestamp_ms as int) && datetime@
                    == self.timestamp_ms as int,
                Err(error) => !chrono_holds(self.timestamp_ms as int) && error
                    == SnowflakeError::TimestampOutOfRange(self.timestamp_ms),
            },
    {
        timestamp_to_chrono(self.timestamp_ms)
    }
}

/// Packing the fields that an identifier unpacks into gives the identifier back.
pub proof fn lemma_fields_rebuild_raw(raw: u64)
    ensures
        compose_raw(
            (snowflake_of(raw).timestamp_ms - DISCORD_EPOCH_MS) as u64,
            snowflake_of(raw).worker_id,
            snowflake_of(raw).process_id,
            snowflake_of(raw).increment,
        ) == raw,
{
    let s = snowflake_of(raw);
    assert(raw >> 22u64 <= 0x3ff_ffff_ffffu64) by (bit_vector);
    assert((s.timestamp_ms - DISCORD_EPOCH_MS) as u64 == raw >> 22u64);
    assert(((raw >> 22u64) << 22u64) | ((((raw >> 17u64) & 0x1fu64) as u8 as u64) << 17u64) | ((((
    raw >> 12u64) & 0x1fu64) as u8 as u64) << 12u64) | ((raw & 0xfffu64) as u16 as u64) == raw)
        by (bit_vector);
}

/// Unpacking an identifier packed from fields that fit their widths gives those fields back.
pub proof fn lemma_raw_unpacks_fields(rel_ms: u64, worker_id: u8, process_id: u8, increment: u16)
    requires
        rel_ms < 0x400_0000_0000,
        worker_id < 32,
        process_id < 32,
        increment < 4096,
    ensures
        snowflake_of(compose_raw(rel_ms, worker_id, process_id, increment)).timestamp_ms == rel_ms
            + DISCORD_EPOCH_MS,
        snowflake_of(compose_raw(rel_ms, worker_id, process_id, increment)).worker_id == worker_id,
        snowflake_of(compose_raw(rel_ms, worker_id, process_id, increment)).process_id
            == process_id,
        snowflake_of(compose_raw(rel_ms, worker_id, process_id, increment)).increment == increment,
{
    let raw: u64 = compose_raw(rel_ms, worker_id, process_id, increment);
    assert(raw >> 22u64 == rel_ms) by (bit_vector)
        requires
            rel_ms < 0x400_0000_0000u64,
            worker_id < 32u8,
            process_id < 32u8,
            increment < 4096u16,
            raw == (rel_ms << 22u64) | ((worker_id as u64) << 17u64) | ((process_id as u64)
                << 12u64) | (increment as u64),
    ;
    assert(((raw >> 17u64) & 0x1fu64) as u8 == worker_id) by (bit_vector)
        requires
            worker_id < 32u8,
            process_id < 32u8,
            increment < 4096u16,
            raw == (rel_ms << 22u64) | ((worker_id as u64) << 17u64) | ((process_id as u64)
                << 12u64) | (increment as u64),
    ;
    assert(((raw >> 12u64) & 0x1fu64) as u8 == process_id) by (bit_vector)
        requires
            process_id < 32u8,
            increment < 4096u16,
            raw == (rel_ms << 22u64) | ((worker_id as u64) << 17u64) | ((process_id as u64)
                << 12u64) | (increment as u64),
    ;
    assert((raw & 0xfffu64) as u16 == increment) by (bit_vector)
        requires
            increment < 4096u16,
            raw == (rel_ms << 22u64) | ((worker_id as u64) << 17u64) | ((process_id as u64)
                << 12u64) | (increment as u64),
    ;
}

/// The identifier that a snowflake is unpacked from is kept as it is, so that
/// [`Snowflake::as_u64`] of [`Snowflake::from_raw`] gives back the identifier.
pub proof fn lemma_raw_kept(raw: u64)
    ensures
        snowflake_of(raw).raw == raw,
{
}

/// The time stamp of every snowflake lies between [`DISCORD_EPOCH_MS`] and some 139 years later,
/// so chrono always holds it: converting the time stamp of a decoded snowflake never fails.
pub proof fn lemma_timestamp_in_chrono_range(raw: u64)
    ensures
        DISCORD_EPOCH_MS <= snowflake_of(raw).timestamp_ms < DISCORD_EPOCH_MS + 0x400_0000_0000,
        chrono_holds(snowflake_of(raw).timestamp_ms as int),
{
    assert(raw >> 22u64 <= 0x3ff_ffff_ffffu64) by (bit_vector);
}

/// Reading back the text that a snowflake is written as gives the same snowflake.
pub proof fn lemma_id_string_round_trip(raw: u64)
    ensures
        trim(decimal(snowflake_of(raw).raw as nat)).len() > 0,
        id_value(decimal(snowflake_of(raw).raw as nat)) == Some(raw),
{
    lemma_decimal_round_trip(raw);
    crate::decimal::lemma_decimal_digits(raw as nat);
}

/// White space on either side of an identifier's text changes nothing of what [`parse_id`] and
/// [`Snowflake::parse`] make of it: the same value, or the same error.
pub proof fn lemma_id_ignores_padding(front: Seq<char>, id: Seq<char>, back: Seq<char>)
    requires
        all_white_space(front),
        all_white_space(back),
    ensures
        trim(front + id + back) == trim(id),
        id_value(front + id + back) == id_value(id),
        u64_parse_error(trim(front + id + back)) == u64_parse_error(trim(id)),
{
    lemma_trim_ignores_padding(front, id, back);
}

/// An identifier read as a line with a Windows (`\r\n`) or Unix (`\n`) line ending reads as
/// the identifier alone.
pub proof fn lemma_id_ignores_line_ending(id: Seq<char>)
    ensures
        id_value(id + seq!['\u{d}', '\u{a}']) == id_value(id),
        id_value(id + seq!['\u{a}']) == id_value(id),
        trim(id + seq!['\u{d}', '\u{a}']) == trim(id),
{
    crate::decimal::lemma_trim_ignores_line_ending(id);
}

/// The text of a snowflake's identifier has no leading zeros: it starts with a digit other than
/// `0` unless the identifier is zero, which is written `0`.
pub proof fn lemma_id_string_shortest(raw: u64)
    ensures
        raw > 0 ==> decimal(raw as nat)[0] != '0',
        raw == 0 ==> decimal(raw as nat) == seq!['0'],
{
    crate::decimal::lemma_decimal_no_leading_zero(raw as nat);
}

} // verus!
