//! Timestamps.
//!
//! Stored timestamps are native millisecond counts since the Unix epoch,
//! UTC.  On decoding they are normalized into the four-digit-year era
//! (years 0000 through 9999), so that every rendered form is a fixed-width
//! ISO-8601 string; rendering itself is done by the `chrono` crate behind
//! the two trusted wrappers at the bottom of this module.

use vstd::arithmetic::div_mod::{
    lemma_fundamental_div_mod, lemma_fundamental_div_mod_converse,
};
use vstd::prelude::*;

verus! {

/// Milliseconds in one UTC day.
pub const MS_PER_DAY: i64 = 86_400_000;

/// 0000-01-01T00:00:00Z, in milliseconds since the Unix epoch.
pub const TS_MIN: i64 = -62_167_219_200_000;

/// 9999-12-31T23:59:59.999Z, in milliseconds since the Unix epoch.
pub const TS_MAX: i64 = 253_402_300_799_999;

/// Largest whole-second distance between two normalized timestamps.
pub const MAX_DUR_SECS: i64 = 315_569_520_000;

/// A normalized timestamp: one that falls in the four-digit-year era.
pub open spec fn ts_in_range(ms: int) -> bool {
    TS_MIN <= ms <= TS_MAX
}

/// Normalization of an arbitrary stored timestamp: out-of-era values
/// saturate to the era's bounds.
pub open spec fn clamp_ms(ms: int) -> int {
    if ms < TS_MIN {
        TS_MIN as int
    } else if ms > TS_MAX {
        TS_MAX as int
    } else {
        ms
    }
}

/// The UTC day an instant falls in: floor division by the day length.
pub open spec fn day_of_ms(ms: int) -> int {
    ms / (MS_PER_DAY as int)
}

/// Whole seconds in a signed millisecond distance, truncated toward zero.
pub open spec fn whole_secs_of(diff: int) -> int {
    if diff >= 0 {
        diff / 1000
    } else {
        -((-diff) / 1000)
    }
}

/// Normalize a stored timestamp into the four-digit-year era.
pub fn clamp_timestamp(ms: i64) -> (r: i64)
    ensures
        r as int == clamp_ms(ms as int),
        ts_in_range(r as int),
{
    if ms < TS_MIN {
        TS_MIN
    } else if ms > TS_MAX {
        TS_MAX
    } else {
        ms
    }
}

/// The UTC day a normalized instant falls in.
pub fn day_of_timestamp(ms: i64) -> (r: i64)
    requires
        ts_in_range(ms as int),
    ensures
        r as int == day_of_ms(ms as int),
{
    if ms >= 0 {
        let q = ms / MS_PER_DAY;
        proof {
            lemma_fundamental_div_mod(ms as int, MS_PER_DAY as int);
        }
        q
    } else {
        let m = -(ms + 1);
        let q = m / MS_PER_DAY;
        proof {
            lemma_fundamental_div_mod(m as int, MS_PER_DAY as int);
            let d = MS_PER_DAY as int;
            let r0 = m as int % d;
            assert(ms as int == d * (-(q as int) - 1) + (d - r0 - 1)) by {
                assert(m as int == d * (q as int) + r0);
            }
            lemma_fundamental_div_mod_converse(
                ms as int,
                d,
                -(q as int) - 1,
                d - r0 - 1,
            );
        }
        -q - 1
    }
}

/// The signed whole-second duration from `start_ms` to `end_ms`.
///
/// A reversed interval yields a negative count; nothing is clamped.
pub fn duration_secs(start_ms: i64, end_ms: i64) -> (r: i64)
    requires
        ts_in_range(start_ms as int),
        ts_in_range(end_ms as int),
    ensures
        r as int == whole_secs_of(end_ms - start_ms),
        -MAX_DUR_SECS <= r <= MAX_DUR_SECS,
{
    let diff = end_ms - start_ms;
    if diff >= 0 {
        let q = diff / 1000;
        proof {
            lemma_fundamental_div_mod(diff as int, 1000);
        }
        q
    } else {
        let q = (-diff) / 1000;
        proof {
            lemma_fundamental_div_mod(-diff as int, 1000);
        }
        -q
    }
}

/// The ISO-8601 rendering, seconds precision, UTC, trailing `Z`, of a
/// normalized instant.  The rendering is a function of the instant alone.
pub uninterp spec fn rfc3339_of(ms: int) -> Seq<char>;

/// The `YYYY-MM-DD` rendering of the UTC day a normalized instant falls
/// in.  The rendering is a function of the day alone.
pub uninterp spec fn date_str_of(day: int) -> Seq<char>;

/// Relies on chrono's `DateTime::<Utc>::from_timestamp_millis` (defined on
/// every instant of the four-digit-year era) and `to_rfc3339_opts` with
/// seconds precision and a `Z` suffix, whose output depends on the instant
/// alone.
#[verifier::external_body]
pub(crate) fn format_rfc3339(ms: i64) -> (r: String)
    requires
        ts_in_range(ms as int),
    ensures
        r@ == rfc3339_of(ms as int),
{
    let dt = chrono::DateTime::<chrono::Utc>::from_timestamp_millis(ms).unwrap();
    dt.to_rfc3339_opts(chrono::SecondsFormat::Secs, true)
}

/// Relies on chrono's `DateTime::<Utc>::from_timestamp_millis` (defined on
/// every instant of the four-digit-year era) and `format("%Y-%m-%d")`,
/// whose output depends only on the UTC day the instant falls in.
#[verifier::external_body]
pub(crate) fn format_date_key(ms: i64) -> (r: String)
    requires
        ts_in_range(ms as int),
    ensures
        r@ == date_str_of(day_of_ms(ms as int)),
{
    let dt = chrono::DateTime::<chrono::Utc>::from_timestamp_millis(ms).unwrap();
    dt.format("%Y-%m-%d").to_string()
}

} // verus!
