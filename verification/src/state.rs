//! The stopwatch as a value: whether it runs, the time it has banked, and the
//! laps it has recorded.
//!
//! Time enters only as clock readings: nanoseconds counted by some clock
//! from an origin of its choosing. Every operation that depends on the time
//! takes the current reading as an argument, so the same calls with the same
//! readings always give the same stopwatch.

use vstd::prelude::*;
use crate::text::{clock_text, format_elapsed};

verus! {

/// The largest elapsed time that a stopwatch shows, in nanoseconds.
/// Elapsed time that would pass it stays at it.
pub const LIMIT: u128 = u128::MAX;

/// The time from reading `from` to reading `to`; zero where `to` is the
/// earlier of the two.
pub open spec fn span(from: nat, to: nat) -> nat {
    if from <= to {
        (to - from) as nat
    } else {
        0
    }
}

/// `n`, held to `LIMIT`.
pub open spec fn capped(n: nat) -> nat {
    if n <= LIMIT as nat {
        n
    } else {
        LIMIT as nat
    }
}

/// A control of the stopwatch's panel.
#[derive(Clone, Copy, Debug, PartialEq, Eq, Structural)]
pub enum Control {
    Start,
    Stop,
    Clear,
    Lap,
}

/// What a stopwatch is, mathematically.
///
/// There is no separate running flag: the stopwatch runs exactly when it
/// holds the reading at which its current run began, so the two cannot
/// disagree.
pub struct StopwatchModel {
    /// The reading at which the current run began, while running.
    pub started_at: Option<nat>,
    /// The time banked by the runs that have ended, in nanoseconds.
    pub accumulated: nat,
    /// The recorded laps, oldest first.
    pub laps: Seq<nat>,
}

impl StopwatchModel {
    /// The stopwatch as it is made: stopped, at zero, without laps.
    pub open spec fn idle() -> Self {
        StopwatchModel { started_at: None, accumulated: 0, laps: Seq::empty() }
    }

    /// Whether a run is under way.
    pub open spec fn running(self) -> bool {
        self.started_at is Some
    }

    /// The elapsed time at reading `now`: what is banked, and while running
    /// also the time since the current run began.
    pub open spec fn elapsed(self, now: nat) -> nat {
        match self.started_at {
            Some(began) => capped(self.accumulated + span(began, now)),
            None => self.accumulated,
        }
    }

    /// Starting at `now` begins a run, unless one is under way.
    pub open spec fn start(self, now: nat) -> Self {
        if self.running() {
            self
        } else {
            StopwatchModel { started_at: Some(now), ..self }
        }
    }

    /// Stopping at `now` banks the elapsed time and ends the run.
    pub open spec fn stop(self, now: nat) -> Self {
        StopwatchModel { started_at: None, accumulated: self.elapsed(now), ..self }
    }

    /// Resetting stops the stopwatch at zero. The laps stay.
    pub open spec fn reset(self) -> Self {
        StopwatchModel { started_at: None, accumulated: 0, ..self }
    }

    /// A lap at `now` records the elapsed time behind the earlier laps.
    pub open spec fn lap(self, now: nat) -> Self {
        StopwatchModel { laps: self.laps.push(self.elapsed(now)), ..self }
    }

    /// Clearing the laps forgets them all. The timing goes on.
    pub open spec fn clear_laps(self) -> Self {
        StopwatchModel { laps: Seq::empty(), ..self }
    }

    /// What a control of the panel does when pressed at `now`. `Clear`
    /// resets the time and clears the laps together.
    pub open spec fn press(self, control: Control, now: nat) -> Self {
        match control {
            Control::Start => self.start(now),
            Control::Stop => self.stop(now),
            Control::Clear => self.reset().clear_laps(),
            Control::Lap => self.lap(now),
        }
    }
}

/// Readings as natural numbers.
spec fn as_nats(readings: Seq<u128>) -> Seq<nat> {
    readings.map_values(|r: u128| r as nat)
}

/// A stopwatch with pause and resume, and a list of laps.
#[derive(Debug, PartialEq, Eq)]
pub struct StopwatchState {
    started_at: Option<u128>,
    accumulated: u128,
    laps: Vec<u128>,
}

impl Default for StopwatchState {
    fn default() -> (state: Self)
        ensures
            state@ == StopwatchModel::idle(),
    {
        StopwatchState::new()
    }
}

impl Clone for StopwatchState {
    fn clone(&self) -> (copy: Self)
        ensures
            copy@ == self@,
    {
        let copy = StopwatchState {
            started_at: self.started_at,
            accumulated: self.accumulated,
            laps: self.laps.clone(),
        };
        assert(copy.laps@ =~= self.laps@);
        copy
    }
}

impl View for StopwatchState {
    type V = StopwatchModel;

    closed spec fn view(&self) -> StopwatchModel {
        StopwatchModel {
            started_at: match self.started_at {
                Some(began) => Some(began as nat),
                None => None,
            },
            accumulated: self.accumulated as nat,
            laps: as_nats(self.laps@),
        }
    }
}

impl StopwatchState {
    /// A stopped stopwatch at zero, without laps.
    pub fn new() -> (state: Self)
        ensures
            state@ == StopwatchModel::idle(),
    {
        let state = StopwatchState { started_at: None, accumulated: 0, laps: Vec::new() };
        assert(state@.laps =~= Seq::<nat>::empty());
        state
    }

    /// Whether the stopwatch is running.
    pub fn is_running(&self) -> (running: bool)
        ensures
            running == self@.running(),
    {
        self.started_at.is_some()
    }

    /// The elapsed time at reading `now`, in nanoseconds.
    pub fn elapsed(&self, now: u128) -> (elapsed: u128)
        ensures
            elapsed == self@.elapsed(now as nat),
    {
        match self.started_at {
            Some(began) => self.accumulated.saturating_add(now.saturating_sub(began)),
            None => self.accumulated,
        }
    }

    /// Starts the stopwatch at reading `now`. A running stopwatch is left
    /// as it is.
    pub fn start(&mut self, now: u128)
        ensures
            final(self)@ == old(self)@.start(now as nat),
    {
        if self.started_at.is_none() {
            self.started_at = Some(now);
        }
    }

    /// Stops the stopwatch at reading `now`, keeping the elapsed time. A
    /// stopped stopwatch is left as it is.
    pub fn stop(&mut self, now: u128)
        ensures
            final(self)@ == old(self)@.stop(now as nat),
    {
        self.accumulated = self.elapsed(now);
        self.started_at = None;
    }

    /// Stops the stopwatch and sets the elapsed time to zero. The laps stay.
    pub fn reset(&mut self)
        ensures
            final(self)@ == old(self)@.reset(),
    {
        self.accumulated = 0;
        self.started_at = None;
    }

    /// Records the elapsed time at reading `now` as the newest lap.
    pub fn lap(&mut self, now: u128)
        ensures
            final(self)@ == old(self)@.lap(now as nat),
    {
        let elapsed: u128 = self.elapsed(now);
        self.laps.push(elapsed);
        assert(self@.laps =~= old(self)@.laps.push(elapsed as nat));
    }

    /// Forgets the recorded laps.
    pub fn clear_laps(&mut self)
        ensures
            final(self)@ == old(self)@.clear_laps(),
    {
        self.laps.clear();
        assert(self@.laps =~= Seq::<nat>::empty());
    }

    /// Does what the control `control` of the panel does when pressed at
    /// reading `now`.
    pub fn press(&mut self, control: Control, now: u128)
        ensures
            final(self)@ == old(self)@.press(control, now as nat),
    {
        match control {
            Control::Start => self.start(now),
            Control::Stop => self.stop(now),
            Control::Clear => {
                self.reset();
                self.clear_laps();
            },
            Control::Lap => self.lap(now),
        }
    }

    /// The elapsed time at reading `now`, as the panel shows it.
    pub fn display(&self, now: u128) -> (text: String)
        ensures
            text@ == clock_text(self@.elapsed(now as nat)),
    {
        format_elapsed(self.elapsed(now))
    }

    /// The recorded laps as the panel lists them, oldest first.
    pub fn lap_texts(&self) -> (texts: Vec<String>)
        ensures
            texts@.len() == self@.laps.len(),
            forall|i: int| 0 <= i < texts@.len() ==> texts@[i]@ == clock_text(self@.laps[i]),
    {
        let mut texts: Vec<String> = Vec::new();
        let mut i: usize = 0;
        while i < self.laps.len()
            invariant
                i <= self.laps.len(),
                texts@.len() == i,
                forall|k: int| 0 <= k < i ==> texts@[k]@ == clock_text(self.laps@[k] as nat),
            decreases self.laps.len() - i,
        {
            texts.push(format_elapsed(self.laps[i]));
            i = i + 1;
        }
        texts
    }

    /// The reading at which the current run began; `None` while stopped.
    pub fn started_at(&self) -> (began: Option<u128>)
        ensures
            began is Some == self@.running(),
            began matches Some(reading) ==> self@.started_at == Some(reading as nat),
    {
        self.started_at
    }

    /// The time banked by the runs that have ended, in nanoseconds.
    pub fn accumulated(&self) -> (banked: u128)
        ensures
            banked == self@.accumulated,
    {
        self.accumulated
    }

    /// The recorded laps in nanoseconds, oldest first.
    pub fn laps(&self) -> (laps: &Vec<u128>)
        ensures
            laps@.len() == self@.laps.len(),
            forall|i: int| 0 <= i < laps@.len() ==> laps@[i] as nat == self@.laps[i],
    {
        &self.laps
    }
}

} // verus!
