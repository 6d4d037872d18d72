//! The wall clock.
use vstd::prelude::*;

verus! {

/// Calls `std::time::SystemTime::now()` and `duration_since(UNIX_EPOCH)`,
/// taking whole seconds: `Ok` with the seconds since the Unix epoch, or `Err`
/// with the seconds the clock reads before it (from the error's `duration`).
/// Nothing is stated of the value: it depends on when the call is made.
#[verifier::external_body]
fn clock_reading() -> Result<u64, u64> {
    match std::time::SystemTime::now().duration_since(std::time::UNIX_EPOCH) {
        Ok(d) => Ok(d.as_secs()),
        Err(e) => Err(e.duration().as_secs()),
    }
}

/// The timestamp a clock reading stands for: whole seconds from the Unix
/// epoch, negative before it, held within the range of `i64`.
pub open spec fn timestamp_of(reading: Result<u64, u64>) -> i64 {
    match reading {
        Ok(s) => if s <= i64::MAX { s as i64 } else { i64::MAX },
        Err(s) => if s <= i64::MAX { (-(s as int)) as i64 } else { (-(i64::MAX as int)) as i64 },
    }
}

/// The timestamp of a clock reading, as [`timestamp_of`] defines it.
pub fn timestamp_from(reading: Result<u64, u64>) -> (t: i64)
    ensures
        t == timestamp_of(reading),
{
    match reading {
        Ok(s) => if s <= 9223372036854775807u64 { s as i64 } else { i64::MAX },
        Err(s) => if s <= 9223372036854775807u64 { -(s as i64) } else { -i64::MAX },
    }
}

/// The current time in whole seconds since the Unix epoch (negative when the
/// clock reads before it). Nothing is stated of the value, which depends on
/// when the call is made; the call never fails.
pub(crate) fn now_timestamp() -> i64 {
    timestamp_from(clock_reading())
}

} // verus!
