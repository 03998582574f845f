use philosophers::activity::Activity;
use philosophers::agent::{activity_of, Action, Event, Phase};
use philosophers::monitor::all_forks_locked;
use philosophers::system::{second_fork_index, System};

fn fresh() -> System {
    System::new(&vec![0, 0, 0, 0, 0])
}

#[test]
fn activity_default_is_thinking() {
    assert_eq!(Activity::default(), Activity::Thinking);
}

#[test]
fn new_system_starts_free_and_thinking() {
    let sys = System::new(&vec![255, 0, 127, 0, 0]);
    for f in 0..5 {
        assert_eq!(sys.forks.holder(f), None);
    }
    assert!(!sys.running);
    assert!(!all_forks_locked(&sys.forks));
    assert_eq!(sys.agents[0], Phase::Resting { think_millis: 2 });
    assert_eq!(sys.agents[1], Phase::Resting { think_millis: 0 });
    assert_eq!(sys.agents[2], Phase::Resting { think_millis: 1 });
    for a in 0..5 {
        assert_eq!(activity_of(&sys.agents[a]), Activity::Thinking);
    }
}

#[test]
fn second_fork_wraps_around_the_ring() {
    assert_eq!(second_fork_index(0), 1);
    assert_eq!(second_fork_index(1), 2);
    assert_eq!(second_fork_index(2), 3);
    assert_eq!(second_fork_index(3), 4);
    assert_eq!(second_fork_index(4), 0);
}

#[test]
fn uncontended_agent_reaches_eating() {
    let mut sys = fresh();
    let a = 2usize;

    let ev = Event::ThinkDone { eat_sample: 255, wait_sample: 255 };
    assert!(sys.ready(a, &ev));
    let act = sys.agent_step(a, ev);
    assert_eq!(act, Action::SeekFirstFork);
    assert_eq!(activity_of(&sys.agents[a]), Activity::Eating);

    assert!(sys.ready(a, &Event::FirstGranted));
    let act = sys.agent_step(a, Event::FirstGranted);
    assert_eq!(act, Action::SeekSecondFork { wait_millis: 36 });
    assert_eq!(sys.forks.holder(2), Some(2));

    assert!(sys.ready(a, &Event::SecondGranted));
    let act = sys.agent_step(a, Event::SecondGranted);
    assert_eq!(act, Action::Eat { millis: 2 });
    assert_eq!(sys.forks.holder(2), Some(2));
    assert_eq!(sys.forks.holder(3), Some(2));
    assert!(sys.running);
    assert_eq!(sys.agents[a], Phase::Dining { eat_millis: 2 });

    let ev = Event::EatDone { think_sample: 130 };
    assert!(sys.ready(a, &ev));
    let act = sys.agent_step(a, ev);
    assert_eq!(act, Action::Think { millis: 1 });
    assert_eq!(sys.forks.holder(2), None);
    assert_eq!(sys.forks.holder(3), None);
    assert_eq!(sys.agents[a], Phase::Resting { think_millis: 1 });
    assert!(sys.running);
}

#[test]
fn fork_grant_blocked_while_neighbour_dines() {
    let mut sys = fresh();
    sys.agent_step(0, Event::ThinkDone { eat_sample: 255, wait_sample: 255 });
    sys.agent_step(0, Event::FirstGranted);
    sys.agent_step(0, Event::SecondGranted);
    // Agent 0 dines holding forks 0 and 1; fork 1 is agent 1's first fork.
    sys.agent_step(1, Event::ThinkDone { eat_sample: 0, wait_sample: 0 });
    assert!(!sys.ready(1, &Event::FirstGranted));
    // Once agent 0 leaves the table, the grant becomes possible.
    sys.agent_step(0, Event::EatDone { think_sample: 0 });
    assert!(sys.ready(1, &Event::FirstGranted));
}

#[test]
fn give_up_cycle_releases_first_fork_and_spares_second() {
    let mut sys = fresh();
    sys.agent_step(0, Event::ThinkDone { eat_sample: 0, wait_sample: 0 });
    sys.agent_step(0, Event::FirstGranted);
    sys.agent_step(1, Event::ThinkDone { eat_sample: 0, wait_sample: 0 });
    sys.agent_step(1, Event::FirstGranted);
    // Agent 0 waits for fork 1, which agent 1 holds: the grant never fires.
    assert!(!sys.ready(0, &Event::SecondGranted));
    assert!(sys.ready(0, &Event::WaitTimedOut { think_sample: 255 }));
    let act = sys.agent_step(0, Event::WaitTimedOut { think_sample: 255 });
    assert_eq!(act, Action::GiveUp { think_millis: 2 });
    // Back to thinking, holding nothing; the neighbour's fork is untouched.
    assert_eq!(activity_of(&sys.agents[0]), Activity::Thinking);
    assert_eq!(sys.agents[0], Phase::Resting { think_millis: 2 });
    assert_eq!(sys.forks.holder(0), None);
    assert_eq!(sys.forks.holder(1), Some(1));
    assert!(!sys.running);
}

#[test]
fn ring_deadlock_is_detected_within_one_poll() {
    let mut sys = fresh();
    // One successful meal raises the activity flag.
    sys.agent_step(0, Event::ThinkDone { eat_sample: 0, wait_sample: 0 });
    sys.agent_step(0, Event::FirstGranted);
    sys.agent_step(0, Event::SecondGranted);
    sys.agent_step(0, Event::EatDone { think_sample: 0 });
    assert!(sys.running);
    // Every agent then takes its first fork before anyone reaches its second.
    for a in 0..5 {
        sys.agent_step(a, Event::ThinkDone { eat_sample: 0, wait_sample: 255 });
    }
    for a in 0..5 {
        assert!(sys.ready(a, &Event::FirstGranted));
        sys.agent_step(a, Event::FirstGranted);
    }
    assert!(all_forks_locked(&sys.forks));
    for a in 0..5 {
        assert!(!sys.ready(a, &Event::SecondGranted));
        assert!(sys.ready(a, &Event::WaitTimedOut { think_sample: 0 }));
    }
    // The next poll declares the stall, clears the flag and drops the indicator.
    let report = sys.monitor_tick();
    assert!(report.stall_detected);
    assert!(!report.indicator);
    assert!(!sys.running);
    // The forks themselves are untouched by the poll.
    assert!(all_forks_locked(&sys.forks));
    // A second poll stays silent: the flag is already down.
    let report = sys.monitor_tick();
    assert!(!report.stall_detected);
    assert!(!report.indicator);
}

#[test]
fn monitor_stays_silent_when_flag_was_never_raised() {
    // Known detection gap, kept on purpose: a ring that deadlocks before any
    // agent has ever eaten is never reported, because the flag is still down.
    let mut sys = fresh();
    for a in 0..5 {
        sys.agent_step(a, Event::ThinkDone { eat_sample: 0, wait_sample: 255 });
    }
    for a in 0..5 {
        sys.agent_step(a, Event::FirstGranted);
    }
    assert!(all_forks_locked(&sys.forks));
    let report = sys.monitor_tick();
    assert!(!report.stall_detected);
    assert!(!report.indicator);
}

#[test]
fn indicator_follows_flag_without_a_stall() {
    let mut sys = fresh();
    sys.agent_step(0, Event::ThinkDone { eat_sample: 0, wait_sample: 0 });
    sys.agent_step(0, Event::FirstGranted);
    sys.agent_step(0, Event::SecondGranted);
    // The flag is up but not every fork is held: no stall, indicator high.
    let report = sys.monitor_tick();
    assert!(!report.stall_detected);
    assert!(report.indicator);
    assert!(sys.running);
}

#[test]
fn timed_out_agent_never_touched_its_second_fork() {
    let mut sys = fresh();
    for a in [0usize, 1] {
        sys.agent_step(a, Event::ThinkDone { eat_sample: 0, wait_sample: 0 });
        sys.agent_step(a, Event::FirstGranted);
    }
    let before = sys.forks.holder(1);
    sys.agent_step(0, Event::WaitTimedOut { think_sample: 0 });
    assert_eq!(sys.forks.holder(1), before);
    for f in 0..5 {
        assert_ne!(sys.forks.holder(f), Some(0));
    }
}

#[test]
fn each_fork_has_at_most_one_holder_throughout_a_run() {
    let mut sys = fresh();
    // Drive two neighbours through overlapping attempts and probe every fork
    // after every transition: a holder slot either is empty or names one agent.
    let script: Vec<(usize, Event)> = vec![
        (0, Event::ThinkDone { eat_sample: 255, wait_sample: 0 }),
        (1, Event::ThinkDone { eat_sample: 255, wait_sample: 0 }),
        (0, Event::FirstGranted),
        (1, Event::FirstGranted),
        (1, Event::WaitTimedOut { think_sample: 0 }),
        (0, Event::SecondGranted),
        (0, Event::EatDone { think_sample: 0 }),
    ];
    for (a, ev) in script {
        assert!(sys.ready(a, &ev));
        sys.agent_step(a, ev);
        for f in 0..5 {
            if let Some(h) = sys.forks.holder(f) {
                assert!((h as usize) < 5);
            }
        }
    }
    assert_eq!(sys.forks.holder(0), None);
    assert_eq!(sys.forks.holder(1), None);
}
