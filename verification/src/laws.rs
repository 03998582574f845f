//! The protocol's safety properties, stated and proved over the model.
//!
//! Each law is a public proof function: its `requires` are the situation the
//! law speaks of, its `ensures` are the guarantee. Together they cover mutual
//! exclusion, scoped release, the harmlessness of a timed-out second
//! acquisition, the flag's tie to a genuine double-hold, the monitor's
//! detection of the closed ring, and the three canonical runs of the ring —
//! uncontended eating, the full circular wait, and the give-up cycle.

use vstd::prelude::*;

use crate::agent::Event;
use crate::forks::RING;
use crate::monitor::{spec_all_held, tick, tick_detects};
use crate::system::{first_fork, second_fork, Model};

verus! {

/// Mutual exclusion: at any instant, a fork is held by at most one agent.
pub proof fn lemma_mutual_exclusion(m: Model, a: int, b: int, f: int)
    requires
        m.wf(),
        0 <= a < RING,
        0 <= b < RING,
        0 <= f < RING,
        m.holds(a, f),
        m.holds(b, f),
    ensures
        a == b,
{
    assert(m.forks[f] == Some(a as u8));
    assert(m.forks[f] == Some(b as u8));
}

/// Scoped release: when an agent's attempt ends — the meal finishing or the
/// bounded wait running out — the transition leaves the agent holding nothing,
/// and every fork it held is free again. No acquisition is leaked.
pub proof fn lemma_scoped_release(m: Model, a: int, ev: Event)
    requires
        m.wf(),
        0 <= a < RING,
        m.enabled(a, ev),
        ev is WaitTimedOut || ev is EatDone,
    ensures
        forall|f: int| 0 <= f < RING ==> !m.step(a, ev).holds(a, f),
        forall|f: int| 0 <= f < RING ==> (#[trigger] m.step(a, ev).forks[f]) != Some(a as u8),
        ev is EatDone ==> m.step(a, ev).forks[first_fork(a)] is None && m.step(
            a,
            ev,
        ).forks[second_fork(a)] is None,
        ev is WaitTimedOut ==> m.step(a, ev).forks[first_fork(a)] is None,
{
    let m2 = m.step(a, ev);
    assert(first_fork(a) != second_fork(a));
    assert forall|f: int| 0 <= f < RING implies (#[trigger] m2.forks[f]) != Some(a as u8) by {
        assert(m.holds(a, f) <==> m.forks[f] == Some(a as u8));
    }
}

/// Timeout non-interference: a timed-out second acquisition leaves the second
/// fork exactly as it was — in particular never held by the giving-up agent —
/// and frees the first fork at the abort point, with the agent back to
/// thinking.
pub proof fn lemma_timeout_non_interference(m: Model, a: int, ts: u32)
    requires
        m.wf(),
        0 <= a < RING,
        m.enabled(a, Event::WaitTimedOut { think_sample: ts }),
    ensures
        ({
            let m2 = m.step(a, Event::WaitTimedOut { think_sample: ts });
            &&& m2.forks[second_fork(a)] == m.forks[second_fork(a)]
            &&& m2.forks[second_fork(a)] != Some(a as u8)
            &&& m2.forks[first_fork(a)] is None
            &&& m2.agents[a] is Resting
        }),
{
    assert(m.holds(a, second_fork(a)) <==> m.forks[second_fork(a)] == Some(a as u8));
    assert(!m.holds(a, second_fork(a)));
}

/// Eating implies double-hold: the activity flag flips from false to true only
/// on the transition where the agent takes its second fork, and at that instant
/// the agent holds its two forks and no others.
pub proof fn lemma_flag_set_implies_double_hold(m: Model, a: int, ev: Event)
    requires
        m.wf(),
        0 <= a < RING,
        m.enabled(a, ev),
        !m.running,
        m.step(a, ev).running,
    ensures
        ev is SecondGranted,
        first_fork(a) != second_fork(a),
        m.step(a, ev).holds(a, first_fork(a)),
        m.step(a, ev).holds(a, second_fork(a)),
        forall|f: int|
            0 <= f < RING && f != first_fork(a) && f != second_fork(a) ==> !m.step(a, ev).holds(
                a,
                f,
            ),
        m.step(a, ev).forks[first_fork(a)] == Some(a as u8),
        m.step(a, ev).forks[second_fork(a)] == Some(a as u8),
{
    assert(m.holds(a, first_fork(a)) <==> m.forks[first_fork(a)] == Some(a as u8));
    assert(m.holds(a, first_fork(a)));
}

/// Stall detection soundness: whenever the activity flag is up and all five
/// forks are simultaneously held, the very next poll declares the stall and
/// clears the flag, and the poll itself moves neither forks nor agents.
pub proof fn lemma_stall_detected_within_one_poll(m: Model)
    requires
        m.wf(),
        m.running,
        spec_all_held(m.forks),
    ensures
        tick_detects(m),
        !tick(m).running,
        tick(m).forks == m.forks,
        tick(m).agents == m.agents,
{
}

/// Uncontended run: an agent at rest whose two forks are both free reaches
/// dining through the grant events alone — each of its three transitions is
/// enabled in turn, the deadline never has to fire, and it ends holding both
/// forks with the activity flag up.
pub proof fn lemma_uncontended_agent_eats(m: Model, a: int, es: u32, ws: u32)
    requires
        m.wf(),
        0 <= a < RING,
        m.agents[a] is Resting,
        m.forks[first_fork(a)] is None,
        m.forks[second_fork(a)] is None,
    ensures
        ({
            let e1 = Event::ThinkDone { eat_sample: es, wait_sample: ws };
            let m1 = m.step(a, e1);
            let m2 = m1.step(a, Event::FirstGranted);
            let m3 = m2.step(a, Event::SecondGranted);
            &&& m.enabled(a, e1)
            &&& m1.enabled(a, Event::FirstGranted)
            &&& m2.enabled(a, Event::SecondGranted)
            &&& m3.agents[a] is Dining
            &&& m3.running
            &&& m3.holds(a, first_fork(a))
            &&& m3.holds(a, second_fork(a))
        }),
{
    let e1 = Event::ThinkDone { eat_sample: es, wait_sample: ws };
    let m1 = m.step(a, e1);
    let m2 = m1.step(a, Event::FirstGranted);
    assert(m1.forks == m.forks);
    assert(m2.forks[second_fork(a)] == m.forks[second_fork(a)]);
}

/// Ring deadlock: when every agent is blocked on its second fork, every fork in
/// the ring is held and the only events enabled anywhere are the deadlines —
/// without them the state can never change, the intentional hang. Provided the
/// flag was raised by an earlier successful meal, the monitor's next poll
/// declares the stall and clears the flag.
pub proof fn lemma_ring_deadlock(m: Model)
    requires
        m.wf(),
        forall|a: int| 0 <= a < RING ==> (#[trigger] m.agents[a]) is AwaitingSecond,
    ensures
        spec_all_held(m.forks),
        forall|a: int| 0 <= a < RING ==> !m.enabled(a, Event::SecondGranted),
        forall|a: int, ev: Event| 0 <= a < RING && #[trigger] m.enabled(a, ev) ==> ev
            is WaitTimedOut,
        forall|a: int, ts: u32|
            0 <= a < RING ==> #[trigger] m.enabled(a, Event::WaitTimedOut { think_sample: ts }),
        m.running ==> tick_detects(m) && !tick(m).running,
{
    assert forall|f: int| 0 <= f < RING implies (#[trigger] m.forks[f]) is Some by {
        assert(m.agents[f] is AwaitingSecond);
        assert(m.holds(f, f));
        assert(m.forks[f] == Some(f as u8));
    }
}

/// Give-up cycle: an agent blocked on a second fork that a neighbour is holding
/// cannot be granted it now and does not hold it; when its deadline fires it
/// re-enters thinking holding nothing, and the neighbour's fork is untouched.
pub proof fn lemma_give_up_cycle(m: Model, a: int, ts: u32)
    requires
        m.wf(),
        0 <= a < RING,
        m.agents[a] is AwaitingSecond,
        m.forks[second_fork(a)] is Some,
    ensures
        !m.enabled(a, Event::SecondGranted),
        m.forks[second_fork(a)] != Some(a as u8),
        ({
            let m2 = m.step(a, Event::WaitTimedOut { think_sample: ts });
            &&& m2.agents[a] is Resting
            &&& forall|f: int| 0 <= f < RING ==> (#[trigger] m2.forks[f]) != Some(a as u8)
            &&& m2.forks[second_fork(a)] == m.forks[second_fork(a)]
        }),
{
    assert(m.holds(a, second_fork(a)) <==> m.forks[second_fork(a)] == Some(a as u8));
    assert(!m.holds(a, second_fork(a)));
    lemma_scoped_release(m, a, Event::WaitTimedOut { think_sample: ts });
}

} // verus!
