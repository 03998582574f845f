//! One agent's place in its loop, the wakeups it can receive, and the work it
//! asks the scheduler to perform next.
//!
//! An agent alternates between thinking and eating forever. The eating attempt
//! is split at the protocol's suspension points: sampling done, blocked on the
//! first fork, racing the second fork against a deadline, and dining. Each
//! suspension ends with one [`Event`]; the transition taken in response hands
//! back one [`Action`] for the scheduler to perform.

use vstd::prelude::*;

use crate::activity::Activity;

verus! {

/// The fine-grained position of an agent inside its loop. `Resting` refines
/// `Thinking`; the other three phases refine `Eating`, which spans the whole
/// attempt from getting hungry to leaving the table.
#[derive(Clone, Copy, Debug, PartialEq, Eq, Structural)]
pub enum Phase {
    /// Between meals; the think timer runs for `think_millis`.
    Resting { think_millis: u64 },
    /// Hungry, durations sampled, blocked without bound on the first fork.
    AwaitingFirst { eat_millis: u64, wait_millis: u64 },
    /// Holding the first fork, racing the second fork against a deadline of
    /// `wait_millis`.
    AwaitingSecond { eat_millis: u64, wait_millis: u64 },
    /// Holding both forks for `eat_millis`.
    Dining { eat_millis: u64 },
}

/// A wakeup delivered to one agent at one of its suspension points. Grants and
/// timer expiries come from the scheduler; the raw samples ride along on the
/// events that trigger fresh sampling, so the transition itself stays a pure
/// function.
#[derive(Clone, Copy, Debug, PartialEq, Eq, Structural)]
pub enum Event {
    /// The think timer elapsed; the two samples pick the coming eat interval
    /// and second-fork allowance.
    ThinkDone { eat_sample: u32, wait_sample: u32 },
    /// The blocking wait on the first fork was granted.
    FirstGranted,
    /// The second fork was granted before the deadline elapsed.
    SecondGranted,
    /// The deadline elapsed first; the sample picks the next think interval.
    WaitTimedOut { think_sample: u32 },
    /// The eat timer elapsed; the sample picks the next think interval.
    EatDone { think_sample: u32 },
}

/// What the scheduler must do for an agent after a transition, before the next
/// event for that agent can fire.
#[derive(Clone, Copy, Debug, PartialEq, Eq, Structural)]
pub enum Action {
    /// Sleep for `millis`, then deliver `ThinkDone`.
    Think { millis: u64 },
    /// Block without bound on the first fork; deliver `FirstGranted` once it is
    /// free.
    SeekFirstFork,
    /// Race the second fork against a deadline of `wait_millis`; deliver
    /// `SecondGranted` or `WaitTimedOut`, whichever comes first.
    SeekSecondFork { wait_millis: u64 },
    /// Dine for `millis`, then deliver `EatDone`.
    Eat { millis: u64 },
    /// The attempt was abandoned and the first fork put back; rest for
    /// `think_millis`, then deliver `ThinkDone`.
    GiveUp { think_millis: u64 },
}

/// The coarse activity a phase refines.
pub open spec fn spec_activity_of(p: Phase) -> Activity {
    match p {
        Phase::Resting { .. } => Activity::Thinking,
        Phase::AwaitingFirst { .. } => Activity::Eating,
        Phase::AwaitingSecond { .. } => Activity::Eating,
        Phase::Dining { .. } => Activity::Eating,
    }
}

/// The coarse activity a phase refines: resting agents think, all others are in
/// some stage of an eating attempt.
pub fn activity_of(p: &Phase) -> (a: Activity)
    ensures
        a == spec_activity_of(*p),
{
    match *p {
        Phase::Resting { .. } => Activity::Thinking,
        Phase::AwaitingFirst { .. } => Activity::Eating,
        Phase::AwaitingSecond { .. } => Activity::Eating,
        Phase::Dining { .. } => Activity::Eating,
    }
}

/// The eat interval a phase carries; zero for a resting agent, which has not
/// sampled one yet.
pub open spec fn phase_eat_millis(p: Phase) -> u64 {
    match p {
        Phase::Resting { .. } => 0,
        Phase::AwaitingFirst { eat_millis, .. } => eat_millis,
        Phase::AwaitingSecond { eat_millis, .. } => eat_millis,
        Phase::Dining { eat_millis } => eat_millis,
    }
}

/// The second-fork allowance a phase carries; zero once the race is settled.
pub open spec fn phase_wait_millis(p: Phase) -> u64 {
    match p {
        Phase::Resting { .. } => 0,
        Phase::AwaitingFirst { wait_millis, .. } => wait_millis,
        Phase::AwaitingSecond { wait_millis, .. } => wait_millis,
        Phase::Dining { .. } => 0,
    }
}

/// Read the eat interval out of a phase.
pub fn eat_millis_of(p: &Phase) -> (r: u64)
    ensures
        r == phase_eat_millis(*p),
{
    match *p {
        Phase::Resting { .. } => 0,
        Phase::AwaitingFirst { eat_millis, .. } => eat_millis,
        Phase::AwaitingSecond { eat_millis, .. } => eat_millis,
        Phase::Dining { eat_millis } => eat_millis,
    }
}

/// Read the second-fork allowance out of a phase.
pub fn wait_millis_of(p: &Phase) -> (r: u64)
    ensures
        r == phase_wait_millis(*p),
{
    match *p {
        Phase::Resting { .. } => 0,
        Phase::AwaitingFirst { wait_millis, .. } => wait_millis,
        Phase::AwaitingSecond { wait_millis, .. } => wait_millis,
        Phase::Dining { .. } => 0,
    }
}

} // verus!
