//! Instants as microseconds since the Unix epoch, bounded by the range of a
//! UTC calendar date-time (years -262143 to 262142).
use vstd::prelude::*;

verus! {

/// The earliest instant a UTC calendar date-time can hold.
pub const MIN_TIMESTAMP_MICROS: i64 = -8334601228800000000i64;

/// The latest instant a UTC calendar date-time can hold: +262142-12-31T23:59:59.999999Z.
pub const MAX_TIMESTAMP_MICROS: i64 = 8210266876799999999i64;

/// Microseconds in one second.
pub const MICROS_PER_SEC: i64 = 1000000i64;

/// Whether `t` (microseconds since the epoch) names a representable instant.
pub open spec fn valid_timestamp(t: int) -> bool {
    MIN_TIMESTAMP_MICROS <= t <= MAX_TIMESTAMP_MICROS
}

} // verus!
