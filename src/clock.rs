use vstd::prelude::*;

verus! {

/// Relies on std::time::SystemTime::elapsed, measured from the Unix epoch: the
/// whole seconds since then, or nothing when the system clock reads earlier.
/// The value depends on the moment of the call, so nothing is promised of it.
#[verifier::external_body]
pub(crate) fn seconds_since_epoch() -> (r: Option<u64>) {
    std::time::SystemTime::UNIX_EPOCH.elapsed().ok().map(|d| d.as_secs())
}

} // verus!
