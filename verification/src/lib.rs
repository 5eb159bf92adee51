//! Compact, time-ordered 64-bit unique identifiers ("snowflakes").
//!
//! An identifier packs, from the most significant bit down: a reserved sign
//! guard bit (always zero), a 41-bit count of milliseconds since a fixed
//! custom epoch (2019-01-01T00:00:00Z), a reserved separator bit (zero on the
//! generation path), and a 21-bit random field. Identifiers produced in
//! sequence therefore sort roughly by creation time, while the random field
//! keeps the collision probability low without any central coordination.

use vstd::prelude::*;

use rand::RngExt;
use std::time::SystemTime;

verus! {

/// Milliseconds from the Unix epoch to the custom epoch, 2019-01-01T00:00:00Z.
pub const EPOCH_MILLIS: u64 = 1_546_300_800_000;

/// Mask keeping the low 41 bits: the width of the timestamp field.
pub const TIMESTAMP_MASK: u64 = 0x01FF_FFFF_FFFF;

/// Mask keeping the low 21 bits: the width of the random field.
pub const RANDOM_MASK: u64 = 0x001F_FFFF;

/// How a timestamp computation can fail. Both kinds point at a broken or
/// skewed system clock and are fatal: the caller decides whether to retry
/// after correcting the clock or to abort.
#[derive(Debug, Clone, Copy, PartialEq, Eq, Structural)]
pub enum SnowflakeError {
    /// The measured wall-clock time lies before the custom epoch.
    EpochOrdering,
    /// Elapsed milliseconds since the custom epoch exceed what fits in `u64`.
    TimestampOverflow,
}

/// A snowflake identifier: an immutable 64-bit value. Its view is the raw
/// integer it wraps.
#[derive(Debug, Clone, Copy, PartialEq, Eq, Hash, Structural)]
pub struct Snowflake(u64);

impl View for Snowflake {
    type V = u64;

    closed spec fn view(&self) -> u64 {
        self.0
    }
}

/// The timestamp field carried by an identifier generated `elapsed_ms`
/// milliseconds after the custom epoch: the count truncated to its low 41
/// bits and positioned at bit offset 22.
pub open spec fn timestamp_field(elapsed_ms: u64) -> u64 {
    (elapsed_ms & TIMESTAMP_MASK) << 22
}

/// The raw value the generator assembles from a timestamp field and a 21-bit
/// random part: a bitwise OR of the two disjoint fields.
pub open spec fn generated_value(elapsed_ms: u64, random_part: u64) -> u64 {
    timestamp_field(elapsed_ms) | random_part
}

/// The layout conventions every generator-produced value obeys: bit 63 (the
/// sign guard) and bit 21 (the separator) are both zero.
pub open spec fn generated_layout(v: u64) -> bool {
    v >> 63 == 0 && (v >> 21) & 1 == 0
}

/// Bits 63 and 21 of an assembled value are clear: the timestamp field only
/// occupies bits 22 to 62, and a random part of at most 21 bits only occupies
/// bits 0 to 20.
pub proof fn lemma_generated_layout(elapsed_ms: u64, random_part: u64)
    requires
        random_part <= RANDOM_MASK,
    ensures
        generated_layout(generated_value(elapsed_ms, random_part)),
{
    assert(generated_layout(generated_value(elapsed_ms, random_part))) by (bit_vector)
        requires
            random_part <= RANDOM_MASK,
    ;
}

/// The random field of an assembled value is exactly the random part that
/// went in, and lies within the 21-bit space.
pub proof fn lemma_random_field_range(elapsed_ms: u64, random_part: u64)
    requires
        random_part <= RANDOM_MASK,
    ensures
        generated_value(elapsed_ms, random_part) & RANDOM_MASK == random_part,
        generated_value(elapsed_ms, random_part) & RANDOM_MASK <= RANDOM_MASK,
{
    assert(generated_value(elapsed_ms, random_part) & RANDOM_MASK == random_part) by (bit_vector)
        requires
            random_part <= RANDOM_MASK,
    ;
}

/// Masking an assembled value to bits 22 to 62 recovers exactly the timestamp
/// field that went in: the random part never bleeds into the timestamp bits.
pub proof fn lemma_timestamp_field_of_generated(elapsed_ms: u64, random_part: u64)
    requires
        random_part <= RANDOM_MASK,
    ensures
        generated_value(elapsed_ms, random_part) & (TIMESTAMP_MASK << 22) == timestamp_field(
            elapsed_ms,
        ),
{
    assert(generated_value(elapsed_ms, random_part) & (TIMESTAMP_MASK << 22) == timestamp_field(
        elapsed_ms,
    )) by (bit_vector)
        requires
            random_part <= RANDOM_MASK,
    ;
}

/// A clock reading strictly past the custom epoch yields a non-zero timestamp
/// field, except when the elapsed count is an exact multiple of the field's
/// 41-bit capacity and truncation empties it (the first such moment lies
/// roughly in the year 2089).
pub proof fn lemma_timestamp_field_nonzero(elapsed_ms: u64)
    requires
        0 < elapsed_ms,
        elapsed_ms % 0x0200_0000_0000 != 0,
    ensures
        timestamp_field(elapsed_ms) != 0,
{
    assert(timestamp_field(elapsed_ms) != 0) by (bit_vector)
        requires
            elapsed_ms % 0x0200_0000_0000 != 0,
    ;
}

/// Later clock readings never yield a smaller timestamp field, within the
/// field's 41-bit capacity: identifiers sort by generation time.
pub proof fn lemma_timestamp_field_monotonic(earlier_ms: u64, later_ms: u64)
    requires
        earlier_ms <= later_ms < 0x0200_0000_0000,
    ensures
        timestamp_field(earlier_ms) <= timestamp_field(later_ms),
{
    assert(timestamp_field(earlier_ms) <= timestamp_field(later_ms)) by (bit_vector)
        requires
            earlier_ms <= later_ms < 0x0200_0000_0000,
    ;
}

/// An identifier generated strictly after the custom epoch carries non-zero
/// timestamp bits (22 to 62), except at the elapsed counts the truncation
/// empties (exact multiples of the 41-bit capacity, the first around 2089).
pub proof fn lemma_generated_timestamp_nonzero(elapsed_ms: u64, random_part: u64)
    requires
        random_part <= RANDOM_MASK,
        0 < elapsed_ms,
        elapsed_ms % 0x0200_0000_0000 != 0,
    ensures
        generated_value(elapsed_ms, random_part) & (TIMESTAMP_MASK << 22) != 0,
{
    lemma_timestamp_field_of_generated(elapsed_ms, random_part);
    lemma_timestamp_field_nonzero(elapsed_ms);
}

/// Of two identifiers generated in clock order, the later one never carries a
/// smaller timestamp field, whatever random parts were drawn, within the
/// field's 41-bit capacity: generated identifiers sort roughly by time.
pub proof fn lemma_generated_timestamp_monotonic(
    earlier_ms: u64,
    earlier_random: u64,
    later_ms: u64,
    later_random: u64,
)
    requires
        earlier_random <= RANDOM_MASK,
        later_random <= RANDOM_MASK,
        earlier_ms <= later_ms < 0x0200_0000_0000,
    ensures
        generated_value(earlier_ms, earlier_random) & (TIMESTAMP_MASK << 22) <= generated_value(
            later_ms,
            later_random,
        ) & (TIMESTAMP_MASK << 22),
{
    lemma_timestamp_field_of_generated(earlier_ms, earlier_random);
    lemma_timestamp_field_of_generated(later_ms, later_random);
    lemma_timestamp_field_monotonic(earlier_ms, later_ms);
}

/// Wrapping a raw integer and reading it back yields the identical bit
/// pattern, for all 64-bit values, including those that violate the bit-63
/// and bit-21 conventions: the raw-conversion path validates nothing.
pub proof fn lemma_raw_round_trip(v: u64)
    ensures
        <Snowflake as vstd::std_specs::convert::FromSpec<u64>>::from_spec(v)@ == v,
{
}

/// std's `SystemTime`, declared so a wall-clock reading can pass between the
/// trusted readers below; the value is opaque to verification.
#[verifier::external_type_specification]
#[verifier::external_body]
pub struct ExSystemTime(SystemTime);

/// Relies on std's `SystemTime::now`: the wall clock, read as a point in
/// time. Nothing is promised of the reading.
#[verifier::external_body]
fn system_time_now() -> SystemTime {
    SystemTime::now()
}

/// Relies on std's `SystemTime::duration_since` and `Duration::as_millis`:
/// the span from the Unix epoch to `t` in whole milliseconds, or `None` where
/// `t` lies before the Unix epoch. Nothing is promised of the count.
#[verifier::external_body]
fn millis_since_unix_epoch(t: &SystemTime) -> Option<u128> {
    t.duration_since(SystemTime::UNIX_EPOCH).ok().map(|d| d.as_millis())
}

/// Relies on rand's `RngExt::random_range` on the thread-local generator: a
/// value drawn uniformly from the given inclusive range, here the 21-bit
/// space. The range is not empty, so the call does not panic.
#[verifier::external_body]
fn draw_random_part() -> (r: u64)
    ensures
        r <= RANDOM_MASK,
{
    rand::rng().random_range(0..=0x001F_FFFFu64)
}

impl Snowflake {
    /// Returns the underlying `u64` representation of the Snowflake.
    pub fn as_u64(&self) -> (r: u64)
        ensures
            r == self@,
    {
        self.0
    }

    /// Computes the timestamp field for a wall-clock reading of `now_unix_ms`
    /// milliseconds past the Unix epoch: the milliseconds elapsed since the
    /// custom epoch, truncated to 41 bits and shifted to bit offset 22.
    ///
    /// Fails with `EpochOrdering` exactly when the reading lies before the
    /// custom epoch, and with `TimestampOverflow` exactly when the elapsed
    /// count does not fit in a `u64`.
    pub fn timestamp_field_at(now_unix_ms: u128) -> (r: Result<u64, SnowflakeError>)
        ensures
            now_unix_ms < EPOCH_MILLIS <==> r == Err::<u64, SnowflakeError>(
                SnowflakeError::EpochOrdering,
            ),
            now_unix_ms - EPOCH_MILLIS > u64::MAX <==> r == Err::<u64, SnowflakeError>(
                SnowflakeError::TimestampOverflow,
            ),
            EPOCH_MILLIS <= now_unix_ms && now_unix_ms - EPOCH_MILLIS <= u64::MAX ==> r
                == Ok::<u64, SnowflakeError>(
                timestamp_field((now_unix_ms - EPOCH_MILLIS) as u64),
            ),
    {
        if now_unix_ms < EPOCH_MILLIS as u128 {
            return Err(SnowflakeError::EpochOrdering);
        }
        let elapsed: u128 = now_unix_ms - EPOCH_MILLIS as u128;
        if elapsed > u64::MAX as u128 {
            return Err(SnowflakeError::TimestampOverflow);
        }
        Ok(((elapsed as u64) & TIMESTAMP_MASK) << 22)
    }

    /// Reads the wall clock and produces the timestamp field of this moment:
    /// a value with at most bits 22 to 62 set. A clock reading before the
    /// custom epoch fails with `EpochOrdering`; an elapsed count that does
    /// not fit in a `u64` fails with `TimestampOverflow`.
    pub fn timestamp_part() -> (r: Result<u64, SnowflakeError>)
        ensures
            r matches Ok(ts) ==> exists|elapsed_ms: u64| ts == #[trigger] timestamp_field(
                elapsed_ms,
            ),
    {
        let now = system_time_now();
        match millis_since_unix_epoch(&now) {
            None => Err(SnowflakeError::EpochOrdering),
            Some(ms) => Self::timestamp_field_at(ms),
        }
    }

    /// Assembles an identifier from a timestamp part and a random part by a
    /// bitwise OR: the generator's final step, taken verbatim on its inputs.
    /// On the generation path the two fields occupy disjoint bit ranges, so
    /// the OR is equivalent to addition with no carry.
    pub fn assemble(ts: u64, random_part: u64) -> (r: Snowflake)
        ensures
            r@ == ts | random_part,
    {
        Snowflake(ts | random_part)
    }

    /// Generates a new random Snowflake: the timestamp field of this moment
    /// combined with a freshly drawn 21-bit random part. Whatever the clock
    /// and the random source returned, the result keeps bit 63 and bit 21
    /// clear, and its low 21 bits are exactly the drawn random part.
    pub fn random() -> (r: Result<Snowflake, SnowflakeError>)
        ensures
            r matches Ok(sf) ==> exists|elapsed_ms: u64, random_part: u64|
                random_part <= RANDOM_MASK && sf@ == #[trigger] generated_value(
                    elapsed_ms,
                    random_part,
                ),
            r matches Ok(sf) ==> generated_layout(sf@),
    {
        let random_part = draw_random_part();
        match Self::timestamp_part() {
            Err(e) => Err(e),
            Ok(ts) => {
                proof {
                    let elapsed_ms = choose|elapsed_ms: u64| ts == timestamp_field(elapsed_ms);
                    lemma_generated_layout(elapsed_ms, random_part);
                }
                Ok(Self::assemble(ts, random_part))
            },
        }
    }

    /// Produces a "default" identifier by generating a random one: an
    /// ergonomic zero-argument alias for [`Snowflake::random`], not a
    /// distinct concept. Clock failures propagate unchanged.
    pub fn generate_default() -> (r: Result<Snowflake, SnowflakeError>)
        ensures
            r matches Ok(sf) ==> exists|elapsed_ms: u64, random_part: u64|
                random_part <= RANDOM_MASK && sf@ == #[trigger] generated_value(
                    elapsed_ms,
                    random_part,
                ),
            r matches Ok(sf) ==> generated_layout(sf@),
    {
        Self::random()
    }
}

/// Creates a [`Snowflake`] from a `u64`, verbatim: no validation, no masking,
/// no bit-layout enforcement.
impl From<u64> for Snowflake {
    fn from(value: u64) -> Self {
        Snowflake(value)
    }
}

impl vstd::std_specs::convert::FromSpecImpl<u64> for Snowflake {
    open spec fn obeys_from_spec() -> bool {
        true
    }

    closed spec fn from_spec(value: u64) -> Snowflake {
        Snowflake(value)
    }
}

} // verus!
