//! Points in time, as milliseconds since the Unix epoch.
use vstd::prelude::*;

verus! {

/// A point in time (UTC), as milliseconds since the Unix epoch.
#[derive(Clone, Copy, Debug, PartialEq, Eq, PartialOrd, Ord, Hash)]
pub struct Timestamp {
    pub epoch_ms: u64,
}

/// The [`Timestamp`] `epoch_ms` milliseconds after the Unix epoch.
pub fn epoch_ms_to_datetime_utc(epoch_ms: u64) -> (r: Timestamp)
    ensures
        r.epoch_ms == epoch_ms,
{
    Timestamp { epoch_ms }
}

/// The system clock's type, as std gives it.
#[verifier::external_type_specification]
#[verifier::external_body]
pub struct ExSystemTime(std::time::SystemTime);

/// Relies on `SystemTime::now`: the current reading of the system clock. Nothing is stated of
/// it.
#[verifier::external_body]
fn system_time_now() -> (r: std::time::SystemTime) {
    std::time::SystemTime::now()
}

/// Relies on `SystemTime::duration_since` from `UNIX_EPOCH`: the time elapsed since the epoch,
/// or `None` (its error) when `t` lies before the epoch. It does not panic.
#[verifier::external_body]
fn elapsed_since_epoch(t: &std::time::SystemTime) -> (r: Option<std::time::Duration>) {
    t.duration_since(std::time::UNIX_EPOCH).ok()
}

/// Relies on `Duration::as_millis`: the whole milliseconds of `d`.
#[verifier::external_body]
fn whole_millis(d: &std::time::Duration) -> (r: u128) {
    d.as_millis()
}

/// Reads the system clock: `None` when it reads before the Unix epoch, or further from it than
/// `u64::MAX` milliseconds. Nothing is stated of the reading itself.
pub fn read_clock() -> (r: Option<Timestamp>) {
    let t = system_time_now();
    match elapsed_since_epoch(&t) {
        Some(d) => {
            let ms = whole_millis(&d);
            if ms <= u64::MAX as u128 {
                Some(Timestamp { epoch_ms: ms as u64 })
            } else {
                None
            }
        },
        None => None,
    }
}

/// A clock reading, with a reading that could not be had taken as the epoch itself.
pub fn timestamp_or_epoch(reading: Option<Timestamp>) -> (r: Timestamp)
    ensures
        r == match reading {
            Some(t) => t,
            None => Timestamp { epoch_ms: 0 },
        },
{
    match reading {
        Some(t) => t,
        None => Timestamp { epoch_ms: 0 },
    }
}

/// The current wall-clock time: [`read_clock`], taken as the epoch where the clock reads
/// before it (or too far after it). It never panics; nothing is stated of the value.
pub fn now() -> (r: Timestamp) {
    timestamp_or_epoch(read_clock())
}

} // verus!
