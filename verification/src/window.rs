//! The voting window of a poll, and where an instant falls in it.

use vstd::prelude::*;

verus! {

/// How the two ends of a voting window are read. With `strict_start` voting
/// opens the instant after the start; without it, at the start. With
/// `inclusive_end` voting is still open at the end; without it, it closes
/// there.
#[derive(Clone, Copy, Debug, PartialEq, Eq, Structural)]
pub struct WindowPolicy {
    pub strict_start: bool,
    pub inclusive_end: bool,
}

/// Where an instant falls relative to a voting window.
#[derive(Clone, Copy, Debug, PartialEq, Eq, Structural)]
pub enum Phase {
    NotStarted,
    Open,
    Ended,
}

impl WindowPolicy {
    /// Whether voting has yet to open at `now`.
    pub open spec fn before_start(self, start: int, now: int) -> bool {
        now < start || (self.strict_start && now == start)
    }

    /// Whether voting has closed at `now`.
    pub open spec fn after_end(self, end: int, now: int) -> bool {
        now > end || (!self.inclusive_end && now == end)
    }

    /// The phase of the window from `start` to `end` at `now`. The start is
    /// looked at first: an instant that is both before the start and after the
    /// end counts as not started.
    pub open spec fn phase_at(self, start: int, end: int, now: int) -> Phase {
        if self.before_start(start, now) {
            Phase::NotStarted
        } else if self.after_end(end, now) {
            Phase::Ended
        } else {
            Phase::Open
        }
    }

    /// Computes the phase of a window at `now`, in seconds since the epoch.
    pub fn phase(&self, start: u64, end: u64, now: i64) -> (r: Phase)
        ensures
            r == self.phase_at(start as int, end as int, now as int),
    {
        if now < 0 {
            return Phase::NotStarted;
        }
        let t: u64 = now as u64;
        if t < start || (self.strict_start && t == start) {
            Phase::NotStarted
        } else if t > end || (!self.inclusive_end && t == end) {
            Phase::Ended
        } else {
            Phase::Open
        }
    }
}

/// What the ballot rules say of one attempt to vote.
#[derive(Clone, Copy, Debug, PartialEq, Eq, Structural)]
pub enum Verdict {
    /// Voting has not opened yet.
    NotStarted,
    /// Voting has closed.
    Ended,
    /// The voter has cast a vote before.
    AlreadyVoted,
    /// The vote counts.
    Accepted,
}

/// The verdict on a vote at `now` by a voter whose flag is `has_voted`, in a
/// poll whose window runs from `start` to `end`. The window is judged before
/// the voter: first the start, then the end, then the flag.
pub open spec fn verdict_at(
    policy: WindowPolicy,
    start: int,
    end: int,
    has_voted: bool,
    now: int,
) -> Verdict {
    match policy.phase_at(start, end, now) {
        Phase::NotStarted => Verdict::NotStarted,
        Phase::Ended => Verdict::Ended,
        Phase::Open => if has_voted {
            Verdict::AlreadyVoted
        } else {
            Verdict::Accepted
        },
    }
}

/// Judges one attempt to vote.
pub fn judge(policy: &WindowPolicy, start: u64, end: u64, has_voted: bool, now: i64) -> (r: Verdict)
    ensures
        r == verdict_at(*policy, start as int, end as int, has_voted, now as int),
{
    match policy.phase(start, end, now) {
        Phase::NotStarted => Verdict::NotStarted,
        Phase::Ended => Verdict::Ended,
        Phase::Open => if has_voted {
            Verdict::AlreadyVoted
        } else {
            Verdict::Accepted
        },
    }
}

} // verus!
