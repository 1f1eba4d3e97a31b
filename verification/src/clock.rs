//! The one place the ledger reads a clock.

use vstd::prelude::*;

verus! {

/// Relies on chrono: `Utc::now()` rendered by `to_rfc3339()`. The value
/// depends on the wall clock, so nothing is promised of it; callers state
/// what holds whatever string came back.
#[verifier::external_body]
pub(crate) fn now_rfc3339() -> String {
    chrono::Utc::now().to_rfc3339()
}

} // verus!
