use vstd::prelude::*;

verus! {

/// Relies on chrono::Utc::now and DateTime::timestamp_micros: the current time
/// in microseconds since the Unix epoch. `Utc::now` panics on a system clock set
/// before the epoch and otherwise returns a time after it, so the reading is not
/// negative; nothing else is known of it.
#[verifier::external_body]
pub(crate) fn now_micros() -> (r: i64)
    ensures
        r >= 0,
{
    chrono::Utc::now().timestamp_micros()
}

/// Relies on uuid::Uuid::new_v4 and Uuid::as_u128: a random identifier, as its
/// 128 bits. Nothing is known of its value.
#[verifier::external_body]
pub(crate) fn random_user_id() -> (r: u128) {
    uuid::Uuid::new_v4().as_u128()
}

} // verus!
