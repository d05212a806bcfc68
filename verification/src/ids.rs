use vstd::prelude::*;

verus! {

/// Relies on uuid::Uuid::new_v7 with uuid::Timestamp::now: a fresh
/// time-ordered 128-bit identifier from the clock and random bits, rendered
/// in its canonical hyphenated form, which is always 36 characters. The
/// value depends on the clock and on randomness, so nothing relates two
/// calls; callers that need distinctness must check it themselves.
#[verifier::external_body]
pub(crate) fn fresh_id() -> (r: String)
    ensures
        r@.len() == 36,
{
    uuid::Uuid::new_v7(uuid::Timestamp::now(uuid::NoContext)).hyphenated().to_string()
}

} // verus!
