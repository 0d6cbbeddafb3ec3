use vstd::prelude::*;

verus! {

#[verifier::external_type_specification]
#[verifier::external_body]
pub struct ExSystemTime(std::time::SystemTime);

#[verifier::external_type_specification]
#[verifier::external_body]
pub struct ExSystemTimeError(std::time::SystemTimeError);

/// Relies on std's `SystemTime::now`: the system clock's reading, of which
/// nothing is promised.
pub assume_specification[ std::time::SystemTime::now ]() -> std::time::SystemTime;

/// Relies on std's `SystemTime::duration_since`: the time elapsed since
/// `earlier`, or an error when `earlier` is later.
pub assume_specification[ std::time::SystemTime::duration_since ](
    t: &std::time::SystemTime,
    earlier: std::time::SystemTime,
) -> Result<core::time::Duration, std::time::SystemTimeError>;

/// Relies on std's `Duration::as_secs`: the whole seconds of a duration.
pub assume_specification[ core::time::Duration::as_secs ](d: &core::time::Duration) -> u64;

/// Relies on std's `UNIX_EPOCH`: the moment that timestamps count from.
#[verifier::external_body]
fn unix_epoch() -> (r: std::time::SystemTime) {
    std::time::UNIX_EPOCH
}

/// Whole seconds since the Unix epoch, or `None` when the system clock reads
/// earlier than the epoch.
fn seconds_since_epoch() -> (r: Option<u64>) {
    match std::time::SystemTime::now().duration_since(unix_epoch()) {
        Ok(d) => Some(d.as_secs()),
        Err(_) => None,
    }
}

/// Converts a clock reading to a timestamp: seconds past `i64::MAX` are held
/// at it, and a clock before the epoch reads as the epoch.
pub fn timestamp_from(reading: Option<u64>) -> (t: i64)
    ensures
        t >= 0,
        reading is None ==> t == 0,
        reading is Some && reading->Some_0 <= i64::MAX ==> t == reading->Some_0,
        reading is Some && reading->Some_0 > i64::MAX ==> t == i64::MAX,
{
    match reading {
        Some(s) => if s > i64::MAX as u64 { i64::MAX } else { s as i64 },
        None => 0,
    }
}

/// The current Unix time in whole seconds.
pub fn get_current_timestamp() -> (t: i64)
    ensures
        t >= 0,
{
    timestamp_from(seconds_since_epoch())
}

} // verus!
