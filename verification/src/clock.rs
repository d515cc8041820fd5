//! The wall clock, reached through chrono. Everything that depends on the
//! time of day comes through here; what the clock returns is never assumed,
//! so every caller states what holds whatever the instant was.
use vstd::prelude::*;

verus! {

/// Relies on chrono::Local::now, formatting the local wall-clock time as
/// `YYYY-MM-DD hh:mm:ss`. The result depends on the clock, so nothing is
/// promised of it.
#[verifier::external_body]
pub(crate) fn now_formatted() -> String {
    chrono::Local::now().format("%Y-%m-%d %H:%M:%S").to_string()
}

} // verus!
