//! Reading the wall clock as signed nanoseconds since the Unix epoch.

use vstd::prelude::*;

verus! {

/// `std::time::SystemTime`, a reading of the wall clock.
#[verifier::external_type_specification]
#[verifier::external_body]
pub struct ExSystemTime(std::time::SystemTime);

/// `std::time::SystemTimeError`, how far a reading lies before another.
#[verifier::external_type_specification]
#[verifier::external_body]
pub struct ExSystemTimeError(std::time::SystemTimeError);

/// One more than the largest whole number of seconds a `Duration` holds,
/// in nanoseconds: every `Duration` is shorter than this.
pub open spec fn duration_nanos_limit() -> int {
    18446744073709551616int * 1_000_000_000int
}

/// A time in nanoseconds since the Unix epoch (negative before it) that a
/// clock reading can take: less than [`duration_nanos_limit`] away from the
/// epoch, since it is measured by a `Duration` either way.
pub open spec fn is_clock_reading(t: int) -> bool {
    -duration_nanos_limit() < t < duration_nanos_limit()
}

/// `SystemTime::now()`. The reading depends on the machine's clock, so
/// nothing is stated of it.
#[verifier::external_body]
fn clock_now() -> std::time::SystemTime {
    std::time::SystemTime::now()
}

/// `t.duration_since(UNIX_EPOCH)`: how long after the epoch `t` lies, or an
/// error carrying how long before it. Nothing is stated of the values, which
/// `SystemTime` keeps hidden.
#[verifier::external_body]
fn since_unix_epoch(t: &std::time::SystemTime) -> Result<
    std::time::Duration,
    std::time::SystemTimeError,
> {
    t.duration_since(std::time::UNIX_EPOCH)
}

/// `e.duration()`: how far the reading lies before the epoch.
#[verifier::external_body]
fn error_duration(e: &std::time::SystemTimeError) -> std::time::Duration {
    e.duration()
}

/// `d.as_nanos()`. A `Duration` holds a `u64` count of seconds and fewer
/// than 10^9 further nanoseconds, so its nanoseconds stay below
/// [`duration_nanos_limit`].
#[verifier::external_body]
fn duration_nanos(d: &std::time::Duration) -> (r: u128)
    ensures
        r < duration_nanos_limit(),
{
    d.as_nanos()
}

/// A reading of the clock against the Unix epoch: `Ok(n)` when it lies `n`
/// nanoseconds after the epoch, `Err(n)` when it lies `n` nanoseconds before.
pub fn clock_reading() -> (r: Result<u128, u128>)
    ensures
        match r {
            Ok(n) => n < duration_nanos_limit(),
            Err(n) => n < duration_nanos_limit(),
        },
{
    let now = clock_now();
    match since_unix_epoch(&now) {
        Ok(after) => Ok(duration_nanos(&after)),
        Err(before) => {
            let d = error_duration(&before);
            Err(duration_nanos(&d))
        },
    }
}

/// The signed nanoseconds of a reading: positive after the epoch, negative
/// before it.
pub open spec fn spec_signed_nanos(reading: Result<u128, u128>) -> int {
    match reading {
        Ok(n) => n as int,
        Err(n) => -(n as int),
    }
}

/// A reading as signed nanoseconds since the Unix epoch: `n` for `Ok(n)`,
/// `-n` for `Err(n)`.
pub fn signed_nanos(reading: Result<u128, u128>) -> (r: i128)
    requires
        match reading {
            Ok(n) => n < duration_nanos_limit(),
            Err(n) => n < duration_nanos_limit(),
        },
    ensures
        r as int == spec_signed_nanos(reading),
        is_clock_reading(r as int),
{
    match reading {
        Ok(n) => n as i128,
        Err(n) => -(n as i128),
    }
}

/// The current wall-clock time, in nanoseconds since the Unix epoch: the
/// clock's reading taken through [`signed_nanos`], so negative for a clock
/// set before 1970. Which reading the clock gives is left open.
pub fn unix_time_nanos() -> (r: i128)
    ensures
        is_clock_reading(r as int),
{
    signed_nanos(clock_reading())
}

} // verus!
