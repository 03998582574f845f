//! The stall monitor: a periodic poll over the fork table and the activity
//! flag, plus the indicator it drives.
//!
//! Each poll samples every fork with a non-blocking probe. When the activity
//! flag is up and every fork reports held — the closed-ring signature — the
//! monitor declares a global stall and clears the flag; either way it drives
//! the indicator with the flag's level after the poll. The probe is a
//! best-effort diagnostic: on a running ring the five samples are taken one
//! after another, not as one atomic snapshot, so the detector is a heuristic
//! with possible false reports in both directions, and it stays silent while
//! the flag has never been raised. Both limitations are kept on purpose.

use vstd::prelude::*;

use crate::forks::{ForkTable, RING};
use crate::system::{Model, System};

verus! {

/// Every fork in the table is currently held.
pub open spec fn spec_all_held(forks: Seq<Option<u8>>) -> bool {
    forall|f: int| 0 <= f < RING ==> (#[trigger] forks[f]) is Some
}

/// The monitor's sample: every fork's non-blocking probe reports it held.
pub fn all_forks_locked(forks: &ForkTable) -> (r: bool)
    requires
        forks.wf(),
    ensures
        r == spec_all_held(forks@),
{
    forks.is_held(0) && forks.is_held(1) && forks.is_held(2) && forks.is_held(3) && forks.is_held(
        4,
    )
}

/// The signature one poll looks for: the activity flag is up and every fork is
/// held.
pub open spec fn tick_detects(m: Model) -> bool {
    m.running && spec_all_held(m.forks)
}

/// The system after one poll: a detected stall clears the activity flag;
/// nothing else moves. Forks and agents are only read.
pub open spec fn tick(m: Model) -> Model {
    Model { forks: m.forks, agents: m.agents, running: m.running && !spec_all_held(m.forks) }
}

/// What one poll reports: whether a global stall was declared, and the level
/// driven onto the indicator.
#[derive(Clone, Copy, Debug, PartialEq, Eq, Structural)]
pub struct MonitorReport {
    pub stall_detected: bool,
    pub indicator: bool,
}

impl System {
    /// One poll of the stall monitor. A stall is declared exactly when the
    /// activity flag is up and every fork is held, and declaring it clears the
    /// flag in the same poll; the indicator always follows the flag's level
    /// after the poll.
    pub fn monitor_tick(&mut self) -> (r: MonitorReport)
        requires
            old(self).wf(),
        ensures
            final(self).wf(),
            final(self)@ == tick(old(self)@),
            r.stall_detected == tick_detects(old(self)@),
            r.indicator == final(self)@.running,
    {
        let mut stall = false;
        if self.running && all_forks_locked(&self.forks) {
            stall = true;
            self.running = false;
        }
        let report = MonitorReport { stall_detected: stall, indicator: self.running };
        proof {
            assert(self@ =~= tick(old(self)@));
            assert forall|a: int, f: int|
                0 <= a < RING && 0 <= f < RING implies ((#[trigger] self@.holds(a, f))
                <==> self@.forks[f] == Some(a as u8)) by {
                assert(old(self)@.holds(a, f) <==> old(self)@.forks[f] == Some(a as u8));
            }
        }
        report
    }
}

} // verus!
