use vstd::prelude::*;

verus! {

/// Relies on chrono::Utc::now and DateTime::timestamp: the current wall-clock
/// time as whole seconds since the Unix epoch. `Utc::now` fails rather than
/// return an instant before the epoch, so the value is never negative.
#[verifier::external_body]
pub(crate) fn utcnow() -> (r: i64)
    ensures
        r >= 0,
{
    chrono::Utc::now().timestamp()
}

} // verus!
