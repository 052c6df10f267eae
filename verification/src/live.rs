//! A stopwatch that reads the time itself.

use vstd::prelude::*;
use crate::clock::{ticker_read, ticker_start};
use crate::state::{Control, StopwatchModel, StopwatchState, LIMIT};
use crate::text::clock_text;

verus! {

/// A stopwatch on the machine's clock: a `StopwatchState` together with the
/// clock that its readings come from.
///
/// What an operation does depends on the moment of the call, so its contract
/// says that there is a reading for which the stopwatch did what
/// `StopwatchState` does at that reading.
pub struct LapStopwatch {
    ticker: stopwatch::Stopwatch,
    state: StopwatchState,
}

impl View for LapStopwatch {
    type V = StopwatchModel;

    closed spec fn view(&self) -> StopwatchModel {
        self.state@
    }
}

impl Default for LapStopwatch {
    fn default() -> (watch: Self)
        ensures
            watch@ == StopwatchModel::idle(),
    {
        LapStopwatch::new()
    }
}

impl LapStopwatch {
    /// A stopped stopwatch at zero, without laps. Its clock starts now.
    pub fn new() -> (watch: Self)
        ensures
            watch@ == StopwatchModel::idle(),
    {
        LapStopwatch { ticker: ticker_start(), state: StopwatchState::new() }
    }

    /// The stopwatch as a value.
    pub fn state(&self) -> (state: &StopwatchState)
        ensures
            state@ == self@,
    {
        &self.state
    }

    /// Whether the stopwatch is running.
    pub fn is_running(&self) -> (running: bool)
        ensures
            running == self@.running(),
    {
        self.state.is_running()
    }

    /// The elapsed time, in nanoseconds.
    pub fn elapsed(&self) -> (elapsed: u128)
        ensures
            exists|now: nat| now <= LIMIT && elapsed == #[trigger] self@.elapsed(now),
            !self@.running() ==> elapsed == self@.accumulated,
    {
        let now: u128 = ticker_read(&self.ticker);
        self.state.elapsed(now)
    }

    /// Starts the stopwatch. A running stopwatch is left as it is.
    pub fn start(&mut self)
        ensures
            exists|now: nat| now <= LIMIT && final(self)@ == #[trigger] old(self)@.start(now),
    {
        let now: u128 = ticker_read(&self.ticker);
        self.state.start(now);
        assert(self@ == old(self)@.start(now as nat));
    }

    /// Stops the stopwatch, keeping the elapsed time. A stopped stopwatch is
    /// left as it is.
    pub fn stop(&mut self)
        ensures
            exists|now: nat| now <= LIMIT && final(self)@ == #[trigger] old(self)@.stop(now),
    {
        let now: u128 = ticker_read(&self.ticker);
        self.state.stop(now);
        assert(self@ == old(self)@.stop(now as nat));
    }

    /// Stops the stopwatch and sets the elapsed time to zero. The laps stay.
    pub fn reset(&mut self)
        ensures
            final(self)@ == old(self)@.reset(),
    {
        self.state.reset();
    }

    /// Records the elapsed time as the newest lap.
    pub fn lap(&mut self)
        ensures
            exists|now: nat| now <= LIMIT && final(self)@ == #[trigger] old(self)@.lap(now),
    {
        let now: u128 = ticker_read(&self.ticker);
        self.state.lap(now);
        assert(self@ == old(self)@.lap(now as nat));
    }

    /// Forgets the recorded laps.
    pub fn clear_laps(&mut self)
        ensures
            final(self)@ == old(self)@.clear_laps(),
    {
        self.state.clear_laps();
    }

    /// The elapsed time as the panel shows it.
    pub fn display(&self) -> (text: String)
        ensures
            exists|now: nat| now <= LIMIT && text@ == clock_text(#[trigger] self@.elapsed(now)),
            !self@.running() ==> text@ == clock_text(self@.accumulated),
    {
        let now: u128 = ticker_read(&self.ticker);
        self.state.display(now)
    }

    /// The recorded laps as the panel lists them, oldest first.
    pub fn lap_texts(&self) -> (texts: Vec<String>)
        ensures
            texts@.len() == self@.laps.len(),
            forall|i: int| 0 <= i < texts@.len() ==> texts@[i]@ == clock_text(self@.laps[i]),
    {
        self.state.lap_texts()
    }

    /// Does what the control `control` of the panel does.
    pub fn press(&mut self, control: Control)
        ensures
            exists|now: nat|
                now <= LIMIT && final(self)@ == #[trigger] old(self)@.press(control, now),
    {
        let now: u128 = ticker_read(&self.ticker);
        self.state.press(control, now);
        assert(self@ == old(self)@.press(control, now as nat));
    }
}

} // verus!
