//! Where fresh connection ids and the time of day come from.

use vstd::prelude::*;

verus! {

/// Calls `uuid::Uuid::new_v4` and writes the id out with `to_string`.
/// Every call draws new random bits, so nothing is claimed of the text.
/// uuid stops the program where the system gives no random bits.
#[verifier::external_body]
pub(crate) fn fresh_id() -> (id: String) {
    uuid::Uuid::new_v4().to_string()
}

/// Calls `chrono::Utc::now` and reads the seconds since the epoch with
/// `DateTime::timestamp`. The value is the clock's, so nothing is claimed of
/// it. chrono stops the program where the system clock stands before 1970.
#[verifier::external_body]
pub(crate) fn unix_now() -> (seconds: i64) {
    chrono::Utc::now().timestamp()
}

} // verus!
