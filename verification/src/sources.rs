//! Where new identifiers and the current time come from.

use vstd::prelude::*;

verus! {

/// The marks of a random UUID in its 128-bit value: the version is 4 and
/// the variant is the one of RFC 9562.
pub open spec fn is_random_uuid(id: u128) -> bool {
    (id >> 76u128) & 0xfu128 == 4 && (id >> 62u128) & 0x3u128 == 2
}

/// Calls `uuid::Uuid::new_v4` and takes the value of the result with
/// `Uuid::as_u128`. Trusted: the value carries the version and variant bits
/// of a random UUID. The other 122 bits come from the system's random
/// source and nothing is said of them. On a system whose random source
/// fails, `new_v4` panics.
#[verifier::external_body]
pub(crate) fn fresh_id() -> (id: u128)
    ensures
        is_random_uuid(id),
{
    uuid::Uuid::new_v4().as_u128()
}

/// Calls `chrono::Utc::now` and takes the instant with
/// `DateTime::timestamp_micros`. Nothing is claimed of the result: it is
/// whatever the system clock says. On a system whose clock reads a time
/// before 1970, `now` panics.
#[verifier::external_body]
pub(crate) fn now_micros() -> i64 {
    chrono::Utc::now().timestamp_micros()
}

} // verus!
