//! Instants written as milliseconds since the Unix epoch.
use vstd::prelude::*;

use crate::error::{DecodeError, DecodeErrorView, ErrorKind, ErrorKindView, fault, mismatch, outcome};
use crate::json::{JsonKind, JsonValue};

verus! {

/// The first second of year -9999, UTC, the earliest instant the calendar holds.
pub const MIN_UNIX_SECONDS: i64 = -377705116800;

/// The last second of year 9999, UTC, the latest instant the calendar holds.
pub const MAX_UNIX_SECONDS: i64 = 253402300799;

/// An instant in UTC, exact to the millisecond: whole seconds since the Unix
/// epoch, and the milliseconds past that second.
#[derive(Debug, Clone, Copy, PartialEq, Eq, Structural)]
pub struct Timestamp {
    pub unix_seconds: i64,
    pub millis: u16,
}

impl Timestamp {
    pub open spec fn wf(&self) -> bool {
        &&& MIN_UNIX_SECONDS <= self.unix_seconds <= MAX_UNIX_SECONDS
        &&& self.millis < 1000
    }

    /// Milliseconds since the Unix epoch.
    pub open spec fn epoch_millis(&self) -> int {
        self.unix_seconds * 1000 + self.millis
    }
}

/// Relies on time::OffsetDateTime::from_unix_timestamp, which returns `Ok`
/// exactly for the seconds from the start of year -9999 to the end of year
/// 9999 (the crate's range without its `large-dates` feature).
#[verifier::external_body]
fn instant_exists(unix_seconds: i64) -> (r: bool)
    ensures
        r == (MIN_UNIX_SECONDS <= unix_seconds <= MAX_UNIX_SECONDS),
{
    time::OffsetDateTime::from_unix_timestamp(unix_seconds).is_ok()
}

/// An epoch-millisecond count, split into whole seconds (rounded down) and
/// the remaining milliseconds; it fails unless it fits an `i64` and the
/// second lies in the calendar's range.
pub open spec fn timestamp_of(v: JsonValue) -> Result<Timestamp, DecodeErrorView> {
    match v {
        JsonValue::Int(n) => if i64::MIN <= n <= i64::MAX && MIN_UNIX_SECONDS <= n / 1000 <= MAX_UNIX_SECONDS {
            Ok(Timestamp { unix_seconds: (n / 1000) as i64, millis: (n % 1000) as u16 })
        } else {
            Err(fault(ErrorKindView::MalformedTimestamp { value: n as int }))
        },
        _ => Err(mismatch(JsonKind::Int, v)),
    }
}

/// Splits `n` into whole seconds, rounded down, and the milliseconds past them.
fn split_millis(n: i64) -> (r: (i64, u16))
    ensures
        r.0 as int == n as int / 1000,
        r.1 as int == n as int % 1000,
        r.0 as int * 1000 + r.1 as int == n as int,
{
    proof {
        vstd::arithmetic::div_mod::lemma_fundamental_div_mod(n as int, 1000);
    }
    if n >= 0 {
        let m: u64 = n as u64;
        (( m / 1000) as i64, (m % 1000) as u16)
    } else {
        let m: u64 = (-(n as i128)) as u64;
        let q: u64 = m / 1000;
        let r: u64 = m % 1000;
        proof {
            vstd::arithmetic::div_mod::lemma_fundamental_div_mod(m as int, 1000);
        }
        if r == 0 {
            proof {
                vstd::arithmetic::div_mod::lemma_fundamental_div_mod_converse(n as int, 1000, -(q as int), 0);
            }
            (-(q as i64), 0)
        } else {
            proof {
                vstd::arithmetic::div_mod::lemma_fundamental_div_mod_converse(
                    n as int,
                    1000,
                    -(q as int) - 1,
                    1000 - r as int,
                );
            }
            (-(q as i64) - 1, (1000 - r) as u16)
        }
    }
}

/// Decodes an epoch-millisecond count into an instant.
pub fn decode_timestamp(v: &JsonValue) -> (r: Result<Timestamp, DecodeError>)
    ensures
        outcome(r) == timestamp_of(*v),
        r matches Ok(t) ==> t.wf() && *v == JsonValue::Int(t.epoch_millis() as i128),
{
    match v {
        JsonValue::Int(n) => {
            if *n < i64::MIN as i128 || *n > i64::MAX as i128 {
                return Err(DecodeError::new(ErrorKind::MalformedTimestamp { value: *n }));
            }
            let (unix_seconds, millis) = split_millis(*n as i64);
            if !instant_exists(unix_seconds) {
                return Err(DecodeError::new(ErrorKind::MalformedTimestamp { value: *n }));
            }
            Ok(Timestamp { unix_seconds, millis })
        },
        _ => Err(DecodeError::type_mismatch(JsonKind::Int, v)),
    }
}

} // verus!
