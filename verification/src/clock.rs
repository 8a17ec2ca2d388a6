//! Access to the wall clock for the audit comment on record writes.

use vstd::prelude::*;

verus! {

/// Relies on chrono's `Local::now` and `DateTime::format`: renders the
/// current local time as `YYYY-MM-DD HH:MM:SS`. Nothing is assumed of
/// the result, since it depends on the clock and the local time zone.
#[verifier::external_body]
pub(crate) fn local_timestamp() -> String {
    format!("{}", chrono::Local::now().format("%Y-%m-%d %H:%M:%S"))
}

} // verus!
