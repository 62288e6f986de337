//! The system clock.

use vstd::prelude::*;

verus! {

/// Reads the clock with `embassy_time::Instant::now` and gives its tick count.
/// What the clock shows depends on when it is read, so the contract promises
/// nothing of the result: callers are proved for every value of it.
#[verifier::external_body]
pub(crate) fn now_ticks() -> (ticks: u64) {
    embassy_time::Instant::now().as_ticks()
}

} // verus!
