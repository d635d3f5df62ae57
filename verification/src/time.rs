//! Wall-clock reading for snapshot timestamps.

use vstd::prelude::*;

verus! {

/// Relies on chrono's `Utc::now` and `DateTime::timestamp_millis`: the
/// current wall-clock time as milliseconds since the Unix epoch. The value
/// depends on the machine's clock alone, so nothing is assumed of it;
/// chrono panics only if the system clock reads before the epoch.
#[verifier::external_body]
pub(crate) fn now_millis() -> u64 {
    chrono::Utc::now().timestamp_millis() as u64
}

} // verus!
