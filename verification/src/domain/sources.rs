//! Values that only the world outside can supply: fresh identifiers and the time.

use vstd::prelude::*;
use super::events::Timestamp;

verus! {

/// Whether an identifier is marked as a random one: its version is 4, and its
/// variant is the one of RFC 4122.
pub open spec fn marked_random(id: u128) -> bool {
    (id / 0x1000_0000_0000_0000_0000) % 16 == 4 && (id / 0x4000_0000_0000_0000) % 4 == 2
}

/// Calls `uuid::Uuid::new_v4` and hands back the identifier as the 128-bit number
/// that `Uuid::as_u128` gives. The identifier is random; all that is claimed of it
/// is that it carries the marks of version and variant that `new_v4` sets.
#[verifier::external_body]
pub(crate) fn fresh_id() -> (id: u128)
    ensures
        marked_random(id),
{
    uuid::Uuid::new_v4().as_u128()
}

/// Calls `chrono::Utc::now` and hands back the instant as the seconds and nanoseconds
/// that `DateTime::timestamp` and `DateTime::timestamp_subsec_nanos` give. The instant
/// depends on the clock, so nothing is claimed of it. (`Utc::now` gives up where the
/// clock stands before 1970.)
#[verifier::external_body]
pub(crate) fn now() -> (instant: Timestamp) {
    let t = chrono::Utc::now();
    Timestamp { secs: t.timestamp(), nanos: t.timestamp_subsec_nanos() }
}

} // verus!
