//! The time capability: a plugin may ask what time it is, and nothing more.

use vstd::prelude::*;

verus! {

/// `std::time::SystemTime`, a point in time.
#[verifier::external_type_specification]
#[verifier::external_body]
pub struct ExSystemTime(std::time::SystemTime);

/// `std::time::SystemTimeError`, which says that one point in time lies
/// before another.
#[verifier::external_type_specification]
#[verifier::external_body]
pub struct ExSystemTimeError(std::time::SystemTimeError);

/// `SystemTime::now`: the time of the call. Nothing is claimed of it.
pub assume_specification[ std::time::SystemTime::now ]() -> (now: std::time::SystemTime)
;

/// `SystemTime::duration_since` the Unix epoch: how long after the epoch the
/// time lies, or a failure when it lies before it. Nothing is claimed of
/// which it is.
#[verifier::external_body]
fn since_epoch(time: &std::time::SystemTime) -> (elapsed: Result<
    core::time::Duration,
    std::time::SystemTimeError,
>) {
    time.duration_since(std::time::UNIX_EPOCH)
}

/// `Duration::as_millis`: the whole milliseconds of a duration. Nothing is
/// claimed of the number.
pub assume_specification[ core::time::Duration::as_millis ](duration: &core::time::Duration) -> (ms:
    u128)
;

/// The stamp for a time that lies `elapsed` milliseconds after the epoch:
/// the low 64 bits of the count. A time before the epoch has no count, and
/// gets the stamp zero.
pub open spec fn stamp_of(elapsed: Option<u128>) -> u64 {
    match elapsed {
        Some(ms) => (ms as int % 0x1_0000_0000_0000_0000) as u64,
        None => 0,
    }
}

/// Makes a stamp in milliseconds from what the clock gave.
pub fn millis_to_stamp(elapsed: Option<u128>) -> (stamp: u64)
    ensures
        stamp == stamp_of(elapsed),
        elapsed matches Some(ms) ==> (ms <= u64::MAX ==> stamp == ms),
{
    match elapsed {
        Some(ms) => {
            let stamp: u64 = #[verifier::truncate]
            (ms as u64);
            assert(stamp == ms % 0x1_0000_0000_0000_0000) by (bit_vector)
                requires
                    stamp == #[verifier::truncate]
                    (ms as u64),
            ;
            stamp
        },
        None => 0,
    }
}

/// The current time in milliseconds since the Unix epoch.
pub fn get_timestamp_ms() -> (stamp: u64) {
    let now = std::time::SystemTime::now();
    let elapsed = match since_epoch(&now) {
        Ok(duration) => Some(duration.as_millis()),
        Err(_) => None,
    };
    millis_to_stamp(elapsed)
}

} // verus!
