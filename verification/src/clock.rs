//! The system clock, read at the edges of the decision logic.

use vstd::prelude::*;

verus! {

/// Reads the system clock as whole seconds since 1970
/// (`SystemTime::now().duration_since(UNIX_EPOCH)`), 0 when the clock
/// reads earlier and the call reports an error. Nothing is claimed of the
/// value.
#[verifier::external_body]
pub(crate) fn unix_now_secs() -> (t: u64) {
    match std::time::SystemTime::now().duration_since(std::time::UNIX_EPOCH) {
        Ok(d) => d.as_secs(),
        Err(_) => 0,
    }
}

/// Reads the system clock as nanoseconds since 1970, cut to 64 bits, 0 when
/// the clock reads earlier. Nothing is claimed of the value.
#[verifier::external_body]
pub(crate) fn unix_now_nanos() -> (t: u64) {
    match std::time::SystemTime::now().duration_since(std::time::UNIX_EPOCH) {
        Ok(d) => d.as_nanos() as u64,
        Err(_) => 0,
    }
}

} // verus!
