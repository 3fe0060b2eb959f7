//! The free-trial window: thirty days from the first resolution attempt.

use vstd::prelude::*;

verus! {

/// Seconds in one day.
pub const SECONDS_PER_DAY: i64 = 86_400;

/// Length of the free-trial window in seconds.
pub const TRIAL_PERIOD_SECONDS: i64 = 30 * 86_400;

/// Seconds between the start of the trial and `now`; negative when the
/// recorded start lies in the future.
pub open spec fn elapsed_seconds(start: int, now: int) -> int {
    now - start
}

/// Whether the trial that began at `start` is still open at `now`.
pub open spec fn window_open(start: int, now: int) -> bool {
    elapsed_seconds(start, now) <= TRIAL_PERIOD_SECONDS
}

/// Whole days left of the trial that began at `start`: what is left of the
/// thirty days in seconds, divided by the length of a day and rounded down,
/// and never below zero.
pub open spec fn days_left(start: int, now: int) -> int {
    let whole = (TRIAL_PERIOD_SECONDS - elapsed_seconds(start, now)) / (SECONDS_PER_DAY as int);
    if whole < 0 {
        0
    } else {
        whole
    }
}

/// The persisted trial record: when the trial began, if it has.
#[derive(Debug, Clone, Copy, PartialEq, Eq, Structural)]
pub struct TrialState {
    pub start_timestamp: Option<i64>,
}

impl TrialState {
    /// The record of a trial that began at `start`.
    pub open spec fn begun_at(start: i64) -> TrialState {
        TrialState { start_timestamp: Some(start) }
    }

    /// A trial that has not begun.
    pub fn not_started() -> (state: TrialState)
        ensures
            state.start_timestamp is None,
    {
        TrialState { start_timestamp: None }
    }

    /// The record after a resolution attempt at `now`: an existing start is
    /// kept, a missing one becomes `now`.
    pub open spec fn started_by(self, now: i64) -> TrialState {
        match self.start_timestamp {
            Some(_) => self,
            None => TrialState { start_timestamp: Some(now) },
        }
    }

    /// Begins the trial at `now` unless it has begun already. Returns whether
    /// the record changed and so has to be persisted.
    pub fn ensure_started(&mut self, now: i64) -> (written: bool)
        ensures
            *final(self) == old(self).started_by(now),
            written == (old(self).start_timestamp is None),
    {
        match self.start_timestamp {
            Some(_) => false,
            None => {
                self.start_timestamp = Some(now);
                true
            },
        }
    }

    /// Whether a trial has begun and its window is still open at `now`.
    pub open spec fn open_at(self, now: i64) -> bool {
        match self.start_timestamp {
            Some(start) => window_open(start as int, now as int),
            None => false,
        }
    }

    /// Whether a trial has begun and `now` lies within thirty days of its
    /// start.
    pub fn is_open(&self, now: i64) -> (open: bool)
        ensures
            open == self.open_at(now),
    {
        match self.start_timestamp {
            Some(start) => (now as i128) - (start as i128) <= TRIAL_PERIOD_SECONDS as i128,
            None => false,
        }
    }

    /// The token that the trial grants at `now`: the allowance, where the
    /// window is open and the allowance is not empty.
    pub open spec fn token_at(self, now: i64, allowance: Seq<char>) -> Option<Seq<char>> {
        if self.open_at(now) && allowance.len() > 0 {
            Some(allowance)
        } else {
            None
        }
    }

    /// The token that the trial grants at `now`, if any.
    pub fn free_trial_token(&self, now: i64, allowance: &str) -> (token: Option<String>)
        ensures
            match token {
                Some(token) => self.token_at(now, allowance@) == Some(token@),
                None => self.token_at(now, allowance@) is None,
            },
    {
        if self.is_open(now) && !allowance.is_empty() {
            Some(allowance.to_owned())
        } else {
            None
        }
    }

    /// Days of trial left at `now`; `None` while no trial has begun.
    pub open spec fn days_remaining(self, now: i64) -> Option<i64> {
        match self.start_timestamp {
            Some(start) => Some(days_left(start as int, now as int) as i64),
            None => None,
        }
    }

    /// Days of trial left at `now`, never below zero; `None` while no trial
    /// has begun.
    pub fn remaining_days(&self, now: i64) -> (days: Option<i64>)
        ensures
            days == self.days_remaining(now),
            self.start_timestamp matches Some(start) ==> 0 <= days_left(start as int, now as int)
                <= i64::MAX,
    {
        match self.start_timestamp {
            Some(start) => {
                let left: i128 = (TRIAL_PERIOD_SECONDS as i128) - ((now as i128) - (start as i128));
                if left <= 0 {
                    Some(0)
                } else {
                    let days: i128 = left / (SECONDS_PER_DAY as i128);
                    Some(days as i64)
                }
            },
            None => None,
        }
    }
}

/// The first resolution begins the trial at its own time, and no later one
/// moves the start.
pub proof fn trial_begins_once(trial: TrialState, first: i64, later: i64)
    requires
        trial.start_timestamp is None,
    ensures
        trial.started_by(first).start_timestamp == Some(first),
        trial.started_by(first).started_by(later) == trial.started_by(first),
{
}

/// A start that is recorded is never overwritten.
pub proof fn recorded_start_is_kept(trial: TrialState, now: i64)
    requires
        trial.start_timestamp is Some,
    ensures
        trial.started_by(now) == trial,
{
}

/// The days left never go below zero and never grow as time passes.
pub proof fn days_left_never_grow(start: int, earlier: int, later: int)
    requires
        earlier <= later,
    ensures
        0 <= days_left(start, later) <= days_left(start, earlier),
{
}

/// Exactly thirty days after the start no day is left, and the window is
/// still open; a second later it is closed.
pub proof fn no_day_left_after_thirty_days(start: int)
    ensures
        days_left(start, start + 30 * 86_400) == 0,
        window_open(start, start + 30 * 86_400),
        !window_open(start, start + 30 * 86_400 + 1),
{
}

/// Once the window has closed no day is left, and a trial that began in the
/// past never has more than thirty.
pub proof fn days_left_match_window(start: int, now: int)
    ensures
        !window_open(start, now) ==> days_left(start, now) == 0,
        start <= now ==> days_left(start, now) <= 30,
{
}

} // verus!
