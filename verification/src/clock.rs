//! The two things the library takes from its surroundings: the time of day
//! and fresh identifiers.

use vstd::prelude::*;

verus! {

/// `uuid::Uuid`, carried through as it is: nothing inside it is read.
#[verifier::external_type_specification]
#[verifier::external_body]
pub struct ExUuid(uuid::Uuid);

/// Hands the reading of `std::time::SystemTime::now` to chrono's
/// conversion `DateTime::<Utc>::from` and calls `DateTime::timestamp_millis`
/// on what comes back: the current time in milliseconds since the start of
/// 1970, UTC, below 0 for a clock that stands before 1970. Nothing is claimed
/// of the value, which differs from call to call. The call takes no input
/// and stops the program only on a machine whose clock reads a year beyond
/// the 262,000 or so that chrono can hold either way.
#[verifier::external_body]
pub(crate) fn now_millis() -> i64 {
    chrono::DateTime::<chrono::Utc>::from(std::time::SystemTime::now()).timestamp_millis()
}

/// Calls `uuid::Uuid::new_v4`: a random identifier drawn from the operating
/// system's generator. Nothing is claimed of the value. The call takes no
/// input and stops the program only where the operating system has no
/// random bytes to give.
#[verifier::external_body]
pub(crate) fn fresh_id() -> uuid::Uuid {
    uuid::Uuid::new_v4()
}

} // verus!
