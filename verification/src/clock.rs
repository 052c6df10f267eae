//! The clock behind a live stopwatch: a stopwatch of the `stopwatch` crate
//! that is started once and left running. Its elapsed time is the clock's
//! reading.
//!
//! Verus takes what this file says of the crate on trust. It says nothing of
//! the readings themselves: they depend on the time of the call.

use vstd::prelude::*;

verus! {

/// Makes `stopwatch::Stopwatch` known to Verus as a type to carry about.
/// Verus sees nothing of what a value of it holds.
#[verifier::external_type_specification]
#[verifier::external_body]
pub struct ExStopwatch(stopwatch::Stopwatch);

/// Calls `stopwatch::Stopwatch::start_new`, which makes a stopwatch and
/// starts it. Nothing is claimed of the stopwatch that comes back.
#[verifier::external_body]
pub(crate) fn ticker_start() -> stopwatch::Stopwatch {
    stopwatch::Stopwatch::start_new()
}

/// Calls `stopwatch::Stopwatch::elapsed` and gives the duration that comes
/// back in whole nanoseconds (`Duration::as_nanos`). Nothing is claimed of
/// the number: it is the time that has passed since the ticker was started,
/// as the machine's monotonic clock measured it.
///
/// The crate adds the time of the current run to the time of earlier runs,
/// and that sum would overflow only past the largest `Duration`. A ticker is
/// never stopped, so it has no earlier runs.
#[verifier::external_body]
pub(crate) fn ticker_read(ticker: &stopwatch::Stopwatch) -> u128 {
    ticker.elapsed().as_nanos()
}

} // verus!
