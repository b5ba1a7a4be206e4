use vstd::prelude::*;

verus! {

/// Relies on `chrono::Utc::now` and `DateTime::timestamp_millis`: the wall
/// clock as milliseconds since the Unix epoch. `Utc::now` stops the process
/// when the system time lies before the epoch, so a returned value is never
/// negative.
#[verifier::external_body]
pub(crate) fn wall_clock_millis() -> (r: i64)
    ensures
        r >= 0,
{
    chrono::Utc::now().timestamp_millis()
}

} // verus!
