//! The wall clock that stamps raw transitions.
//!
//! The clock is read as the time that has passed since the Unix epoch, in
//! whole seconds and nanoseconds of the second begun. The engine keeps time
//! in whole milliseconds, so a reading is cut down to the milliseconds that
//! have fully passed.

use crate::codec::{lemma_radix_pow_values, signed_value, to_signed64};
use std::time::{Duration, SystemTime, SystemTimeError};
use vstd::prelude::*;

verus! {

/// `std::time::SystemTime`: a reading of the system clock, carried through
/// and never looked into.
#[verifier::external_type_specification]
#[verifier::external_body]
pub struct ExSystemTime(std::time::SystemTime);

/// `std::time::SystemTimeError`: the error for a time before the epoch,
/// never looked into.
#[verifier::external_type_specification]
#[verifier::external_body]
pub struct ExSystemTimeError(std::time::SystemTimeError);

/// The reading of the system clock.
///
/// Wraps `SystemTime::now`. The reading differs from call to call, and the
/// contract claims nothing of it.
#[verifier::external_body]
fn system_now() -> SystemTime {
    SystemTime::now()
}

/// The time that has passed between the Unix epoch and `t`, or an error
/// where `t` lies before the epoch.
///
/// Wraps `SystemTime::duration_since` with `UNIX_EPOCH` as the earlier
/// time. The contract claims nothing of the result.
#[verifier::external_body]
fn since_epoch(t: &SystemTime) -> Result<Duration, SystemTimeError> {
    t.duration_since(std::time::UNIX_EPOCH)
}

/// The whole seconds that `d` holds.
///
/// Wraps `Duration::as_secs`. The contract claims nothing of the result.
#[verifier::external_body]
fn whole_secs(d: &Duration) -> u64 {
    d.as_secs()
}

/// The part of `d` beyond its whole seconds, in nanoseconds.
///
/// Wraps `Duration::subsec_nanos`. The contract claims what the
/// documentation of that function states: the part is less than one second.
#[verifier::external_body]
fn subsec_nanos(d: &Duration) -> (nanos: u32)
    ensures
        nanos < 1_000_000_000,
{
    d.subsec_nanos()
}

/// The time that has passed since the Unix epoch, as the clock reads it.
#[derive(Clone, Copy, Debug, PartialEq, Eq, Structural)]
pub struct Elapsed {
    /// Whole seconds.
    pub secs: u64,
    /// Nanoseconds of the second begun.
    pub nanos: u32,
}

impl Elapsed {
    /// The nanoseconds stay below one second.
    pub open spec fn wf(self) -> bool {
        self.nanos < 1_000_000_000
    }

    /// The whole reading in nanoseconds.
    pub open spec fn total_nanos(self) -> int {
        self.secs * 1_000_000_000 + self.nanos
    }

    /// The milliseconds that have fully passed: what lies beyond the last
    /// whole millisecond is dropped, never rounded up.
    pub open spec fn millis(self) -> u128 {
        (self.secs * 1000 + self.nanos / 1_000_000) as u128
    }
}

/// The number that the low 64 bits of `ms` hold in two's complement.
pub open spec fn wrapped_millis(ms: u128) -> int {
    signed_value((ms % 0x1_0000_0000_0000_0000) as nat, 8)
}

/// The time that a reading of the clock stands for: the milliseconds that
/// have fully passed since the epoch, narrowed to 64 bits, or `None` where
/// the clock stood before the epoch and there is no reading.
pub open spec fn reading_time(reading: Option<Elapsed>) -> Option<i64> {
    match reading {
        Some(elapsed) => Some(wrapped_millis(elapsed.millis()) as i64),
        None => None,
    }
}

/// Narrows a count of milliseconds to the 64 bits in which the engine keeps
/// time. A count below 2^63, which covers every date of the next 292
/// million years, is kept as it is; a larger one wraps.
pub fn wrap_millis(ms: u128) -> (t: i64)
    ensures
        t == wrapped_millis(ms),
        ms <= i64::MAX ==> t == ms,
{
    proof {
        lemma_radix_pow_values();
    }
    to_signed64((ms % 0x1_0000_0000_0000_0000) as u64)
}

/// The time now, in milliseconds since the Unix epoch, or `None` where the
/// system clock is set to a time before the epoch.
///
/// Which time comes back is for the clock to say. Whatever it says, the
/// result is the time of a well-formed reading.
pub fn current_time_ms() -> (t: Option<i64>)
    ensures
        exists|reading: Option<Elapsed>|
            (reading matches Some(elapsed) ==> elapsed.wf()) && t == #[trigger] reading_time(
                reading,
            ),
{
    let now = system_now();
    let reading = match since_epoch(&now) {
        Ok(elapsed) => Some(Elapsed { secs: whole_secs(&elapsed), nanos: subsec_nanos(&elapsed) }),
        Err(_) => None,
    };
    time_of_reading(reading)
}

/// The time that a reading of the clock stands for, in milliseconds since
/// the Unix epoch.
///
/// No reading gives no time. A reading gives the milliseconds that have
/// fully passed, and gives them unchanged wherever they fit in 64 bits.
pub fn time_of_reading(reading: Option<Elapsed>) -> (t: Option<i64>)
    ensures
        t == reading_time(reading),
        reading matches Some(elapsed) ==> elapsed.millis() <= i64::MAX ==> t == Some(
            (elapsed.secs * 1000 + elapsed.nanos / 1_000_000) as i64,
        ),
{
    match reading {
        Some(elapsed) => Some(
            wrap_millis(elapsed.secs as u128 * 1000 + (elapsed.nanos / 1_000_000) as u128),
        ),
        None => None,
    }
}

/// A reading whose milliseconds fit in 64 bits gives them unchanged, and
/// so gives a time that is not negative.
pub proof fn lemma_reading_time_fits(elapsed: Elapsed)
    requires
        elapsed.millis() <= i64::MAX,
    ensures
        reading_time(Some(elapsed)) == Some(
            (elapsed.secs * 1000 + elapsed.nanos / 1_000_000) as i64,
        ),
        reading_time(Some(elapsed))->Some_0 >= 0,
{
    lemma_radix_pow_values();
}

/// Of two readings that fit in 64 bits of milliseconds, the later gives a
/// time that is not smaller, neither time is negative, and the two times
/// lie apart by what has passed between the readings, to less than one
/// millisecond.
pub proof fn law_later_reading_later_time(earlier: Elapsed, later: Elapsed)
    requires
        earlier.wf(),
        later.wf(),
        earlier.total_nanos() <= later.total_nanos(),
        later.millis() <= i64::MAX,
    ensures
        reading_time(Some(earlier)) is Some,
        reading_time(Some(later)) is Some,
        0 <= reading_time(Some(earlier))->Some_0 <= reading_time(Some(later))->Some_0,
        -1_000_000 < (reading_time(Some(later))->Some_0 - reading_time(Some(earlier))->Some_0)
            * 1_000_000 - (later.total_nanos() - earlier.total_nanos()) < 1_000_000,
{
    lemma_reading_time_fits(earlier);
    lemma_reading_time_fits(later);
}

} // verus!
