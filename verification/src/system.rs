//! The whole ring: shared fork table, five agent phases, one activity flag,
//! and the transition taken when an event reaches an agent.
//!
//! Every change to the shared state goes through [`System::agent_step`] or the
//! monitor's poll. Both are specified against [`Model`], the mathematical view
//! of the system, whose transition function [`Model::step`] pins down exactly
//! which forks move, which phase the agent enters, and when the activity flag
//! flips.

use vstd::prelude::*;

use crate::agent::{
    eat_millis_of, phase_eat_millis, phase_wait_millis, wait_millis_of, Action, Event, Phase,
};
use crate::forks::{holder_in_ring, ForkTable, RING};
use crate::timing::{
    eat_millis, spec_eat_millis, spec_think_millis, spec_wait_millis, think_millis, wait_millis,
};

verus! {

/// Ring adjacency: agent `a` eats with forks `first_fork(a)` and
/// `second_fork(a)`. The first fork shares the agent's own ring position.
pub open spec fn first_fork(a: int) -> int {
    a
}

/// The second fork is the next ring position, wrapping at the end: the last
/// agent's second fork is the first agent's first fork, which is what closes
/// the ring and makes a full circular wait possible.
pub open spec fn second_fork(a: int) -> int {
    if a == RING - 1 {
        0
    } else {
        a + 1
    }
}

/// Index arithmetic modulo the ring size: the position of agent `a`'s second
/// fork.
pub fn second_fork_index(a: usize) -> (f: usize)
    requires
        a < RING,
    ensures
        f == second_fork(a as int),
        f < RING,
{
    (a + 1) % RING
}

/// Which forks a phase lays claim to: the first fork from the moment the
/// blocking acquisition succeeds, the second one only while dining. A resting
/// or still-blocked agent holds nothing.
pub open spec fn phase_holds(p: Phase, a: int, f: int) -> bool {
    match p {
        Phase::Resting { .. } => false,
        Phase::AwaitingFirst { .. } => false,
        Phase::AwaitingSecond { .. } => f == first_fork(a),
        Phase::Dining { .. } => f == first_fork(a) || f == second_fork(a),
    }
}

/// The mathematical state of the whole system: the holder of every fork, the
/// phase of every agent, and the shared activity flag.
#[verifier::ext_equal]
pub struct Model {
    pub forks: Seq<Option<u8>>,
    pub agents: Seq<Phase>,
    pub running: bool,
}

impl Model {
    /// Agent `a` holds fork `f`.
    pub open spec fn holds(self, a: int, f: int) -> bool {
        phase_holds(self.agents[a], a, f)
    }

    /// The fork table and the agents' phases tell the same story: fork `f` is
    /// marked held by agent `a` exactly when `a`'s phase lays claim to it.
    pub open spec fn coherent(self) -> bool {
        forall|a: int, f: int|
            0 <= a < RING && 0 <= f < RING ==> ((#[trigger] self.holds(a, f)) <==> self.forks[f]
                == Some(a as u8))
    }

    /// A well-formed system: one slot per ring position on both sides, every
    /// recorded holder a ring position, and the two sides coherent.
    pub open spec fn wf(self) -> bool {
        &&& self.forks.len() == RING
        &&& self.agents.len() == RING
        &&& forall|f: int| 0 <= f < RING ==> holder_in_ring(#[trigger] self.forks[f])
        &&& self.coherent()
    }

    /// Which event may reach agent `a` now. A fork grant requires the fork to
    /// be free; the timers and the deadline only require the matching phase.
    pub open spec fn enabled(self, a: int, ev: Event) -> bool {
        match ev {
            Event::ThinkDone { .. } => self.agents[a] is Resting,
            Event::FirstGranted => self.agents[a] is AwaitingFirst && self.forks[first_fork(a)]
                is None,
            Event::SecondGranted => self.agents[a] is AwaitingSecond && self.forks[second_fork(a)]
                is None,
            Event::WaitTimedOut { .. } => self.agents[a] is AwaitingSecond,
            Event::EatDone { .. } => self.agents[a] is Dining,
        }
    }

    /// The phase agent `a` enters on `ev`.
    pub open spec fn step_phase(self, a: int, ev: Event) -> Phase {
        let p = self.agents[a];
        match ev {
            Event::ThinkDone { eat_sample, wait_sample } => Phase::AwaitingFirst {
                eat_millis: spec_eat_millis(eat_sample),
                wait_millis: spec_wait_millis(wait_sample),
            },
            Event::FirstGranted => Phase::AwaitingSecond {
                eat_millis: phase_eat_millis(p),
                wait_millis: phase_wait_millis(p),
            },
            Event::SecondGranted => Phase::Dining { eat_millis: phase_eat_millis(p) },
            Event::WaitTimedOut { think_sample } => Phase::Resting {
                think_millis: spec_think_millis(think_sample),
            },
            Event::EatDone { think_sample } => Phase::Resting {
                think_millis: spec_think_millis(think_sample),
            },
        }
    }

    /// The fork table after agent `a` handles `ev`: a grant records the agent
    /// as holder, a timeout puts the first fork back, a finished meal puts both
    /// back, and a timer on its own moves nothing.
    pub open spec fn step_forks(self, a: int, ev: Event) -> Seq<Option<u8>> {
        match ev {
            Event::ThinkDone { .. } => self.forks,
            Event::FirstGranted => self.forks.update(first_fork(a), Some(a as u8)),
            Event::SecondGranted => self.forks.update(second_fork(a), Some(a as u8)),
            Event::WaitTimedOut { .. } => self.forks.update(first_fork(a), None),
            Event::EatDone { .. } => self.forks.update(first_fork(a), None).update(
                second_fork(a),
                None,
            ),
        }
    }

    /// The activity flag after the step: it flips to true at the instant an
    /// agent takes its second fork and is never cleared by an agent.
    pub open spec fn step_running(self, a: int, ev: Event) -> bool {
        match ev {
            Event::SecondGranted => true,
            _ => self.running,
        }
    }

    /// One agent transition: the whole system state after agent `a` handles
    /// `ev`.
    pub open spec fn step(self, a: int, ev: Event) -> Model {
        Model {
            forks: self.step_forks(a, ev),
            agents: self.agents.update(a, self.step_phase(a, ev)),
            running: self.step_running(a, ev),
        }
    }

    /// The work the scheduler owes agent `a` after it handles `ev`.
    pub open spec fn step_action(self, a: int, ev: Event) -> Action {
        let p = self.agents[a];
        match ev {
            Event::ThinkDone { .. } => Action::SeekFirstFork,
            Event::FirstGranted => Action::SeekSecondFork { wait_millis: phase_wait_millis(p) },
            Event::SecondGranted => Action::Eat { millis: phase_eat_millis(p) },
            Event::WaitTimedOut { think_sample } => Action::GiveUp {
                think_millis: spec_think_millis(think_sample),
            },
            Event::EatDone { think_sample } => Action::Think {
                millis: spec_think_millis(think_sample),
            },
        }
    }
}

/// A well-formed system stays well-formed across any enabled agent transition:
/// in particular, no grant ever hands a fork to a second holder.
pub proof fn lemma_step_preserves_wf(m: Model, a: int, ev: Event)
    requires
        m.wf(),
        0 <= a < RING,
        m.enabled(a, ev),
    ensures
        m.step(a, ev).wf(),
{
    let m2 = m.step(a, ev);
    let first = first_fork(a);
    let second = second_fork(a);
    assert(first != second);
    assert forall|f: int| 0 <= f < RING implies holder_in_ring(#[trigger] m2.forks[f]) by {
        assert(holder_in_ring(m.forks[f]));
    }
    assert forall|b: int, f: int|
        0 <= b < RING && 0 <= f < RING implies ((#[trigger] m2.holds(b, f)) <==> m2.forks[f]
        == Some(b as u8)) by {
        assert(m.holds(b, f) <==> m.forks[f] == Some(b as u8));
        assert(m.holds(a, f) <==> m.forks[f] == Some(a as u8));
        match ev {
            Event::ThinkDone { .. } => {},
            Event::FirstGranted => {
                if b != a && f == first {
                    assert(m.holds(b, first) <==> m.forks[first] == Some(b as u8));
                }
            },
            Event::SecondGranted => {
                if b != a && f == second {
                    assert(m.holds(b, second) <==> m.forks[second] == Some(b as u8));
                }
                if b == a && f == first {
                    assert(m.holds(a, first));
                }
            },
            Event::WaitTimedOut { .. } => {
                if b != a && f == first {
                    assert(m.holds(a, first));
                    assert(m.holds(b, first) <==> m.forks[first] == Some(b as u8));
                }
            },
            Event::EatDone { .. } => {
                if b != a && (f == first || f == second) {
                    assert(m.holds(a, f));
                    assert(m.holds(b, f) <==> m.forks[f] == Some(b as u8));
                }
            },
        }
    }
}

/// The running system: the fork table, one phase per agent, and the activity
/// flag the agents raise and the monitor clears.
pub struct System {
    pub forks: ForkTable,
    pub agents: Vec<Phase>,
    pub running: bool,
}

impl View for System {
    type V = Model;

    open spec fn view(&self) -> Model {
        Model { forks: self.forks@, agents: self.agents@, running: self.running }
    }
}

impl System {
    /// The system is well-formed exactly when its mathematical view is.
    pub open spec fn wf(&self) -> bool {
        self@.wf()
    }

    /// A fresh ring: every fork free, the flag clear, and every agent resting
    /// for a span scaled from its own sample.
    pub fn new(think_samples: &Vec<u32>) -> (s: System)
        requires
            think_samples@.len() == RING,
        ensures
            s.wf(),
            s@.running == false,
            forall|f: int| 0 <= f < RING ==> s@.forks[f] is None,
            forall|a: int|
                0 <= a < RING ==> s@.agents[a] == (Phase::Resting {
                    think_millis: spec_think_millis(think_samples@[a]),
                }),
    {
        let forks = ForkTable::new();
        let mut agents: Vec<Phase> = Vec::new();
        let mut i: usize = 0;
        while i < RING
            invariant
                i <= RING,
                think_samples@.len() == RING,
                agents@.len() == i,
                forall|a: int|
                    0 <= a < i ==> agents@[a] == (Phase::Resting {
                        think_millis: spec_think_millis(think_samples@[a]),
                    }),
            decreases RING - i,
        {
            let tm = think_millis(think_samples[i]);
            agents.push(Phase::Resting { think_millis: tm });
            i += 1;
        }
        System { forks, agents, running: false }
    }

    /// Whether `ev` may reach agent `a` in the current state: the check an
    /// unverified scheduler makes before delivering the event.
    pub fn ready(&self, a: usize, ev: &Event) -> (r: bool)
        requires
            self.wf(),
            a < RING,
        ensures
            r == self@.enabled(a as int, *ev),
    {
        let p: Phase = self.agents[a];
        match *ev {
            Event::ThinkDone { .. } => match p {
                Phase::Resting { .. } => true,
                _ => false,
            },
            Event::FirstGranted => match p {
                Phase::AwaitingFirst { .. } => !self.forks.is_held(a),
                _ => false,
            },
            Event::SecondGranted => match p {
                Phase::AwaitingSecond { .. } => !self.forks.is_held(second_fork_index(a)),
                _ => false,
            },
            Event::WaitTimedOut { .. } => match p {
                Phase::AwaitingSecond { .. } => true,
                _ => false,
            },
            Event::EatDone { .. } => match p {
                Phase::Dining { .. } => true,
                _ => false,
            },
        }
    }

    /// Deliver `ev` to agent `a`: the one place an agent moves the shared
    /// state. The post state is exactly one transition of the model, and the
    /// returned action is the work the scheduler owes the agent next.
    pub fn agent_step(&mut self, a: usize, ev: Event) -> (act: Action)
        requires
            old(self).wf(),
            a < RING,
            old(self)@.enabled(a as int, ev),
        ensures
            final(self).wf(),
            final(self)@ == old(self)@.step(a as int, ev),
            act == old(self)@.step_action(a as int, ev),
    {
        proof {
            lemma_step_preserves_wf(old(self)@, a as int, ev);
        }
        let ghost m0: Model = self@;
        let p: Phase = self.agents[a];
        let act = match ev {
            Event::ThinkDone { eat_sample, wait_sample } => {
                let em = eat_millis(eat_sample);
                let wm = wait_millis(wait_sample);
                self.agents.set(a, Phase::AwaitingFirst { eat_millis: em, wait_millis: wm });
                Action::SeekFirstFork
            },
            Event::FirstGranted => {
                let em = eat_millis_of(&p);
                let wm = wait_millis_of(&p);
                self.forks.acquire(a, a as u8);
                self.agents.set(a, Phase::AwaitingSecond { eat_millis: em, wait_millis: wm });
                Action::SeekSecondFork { wait_millis: wm }
            },
            Event::SecondGranted => {
                let em = eat_millis_of(&p);
                let s = second_fork_index(a);
                self.forks.acquire(s, a as u8);
                self.agents.set(a, Phase::Dining { eat_millis: em });
                self.running = true;
                Action::Eat { millis: em }
            },
            Event::WaitTimedOut { think_sample } => {
                let tm = think_millis(think_sample);
                proof {
                    assert(m0.holds(a as int, first_fork(a as int)));
                }
                self.forks.release(a);
                self.agents.set(a, Phase::Resting { think_millis: tm });
                Action::GiveUp { think_millis: tm }
            },
            Event::EatDone { think_sample } => {
                let tm = think_millis(think_sample);
                proof {
                    assert(m0.holds(a as int, first_fork(a as int)));
                    assert(m0.holds(a as int, second_fork(a as int)));
                }
                self.forks.release(a);
                let s = second_fork_index(a);
                self.forks.release(s);
                self.agents.set(a, Phase::Resting { think_millis: tm });
                Action::Think { millis: tm }
            },
        };
        proof {
            assert(self@ =~= m0.step(a as int, ev));
        }
        act
    }
}

} // verus!
