use agent_runtime::cycle::{Action, Event, RunError};
use agent_runtime::runtime::Runtime;
use agent_runtime::schedule::{LoopAction, LoopEvent, MAX_SLEEP_SECS, MIN_SLEEP_SECS};

fn runtime() -> Runtime {
    Runtime::new("key", "hook", None, None, None, None, Some("u"), Some("p"), Vec::new())
        .ok()
        .expect("a username and a password are given")
}

#[test]
fn the_bounds_are_five_and_thirty_minutes() {
    assert_eq!(MIN_SLEEP_SECS, 300);
    assert_eq!(MAX_SLEEP_SECS, 1800);
}

#[test]
fn the_loop_begins_with_a_sleep() {
    let action: LoopAction<String> = runtime().run_periodically(LoopEvent::Entered);
    match action {
        LoopAction::Sleep { secs, swallowed } => {
            assert!((300..=1800).contains(&secs));
            assert_eq!(swallowed, None);
        }
        LoopAction::Run => panic!("the loop sleeps before its first cycle"),
    }
}

#[test]
fn a_cycle_follows_each_sleep() {
    let action: LoopAction<String> = runtime().run_periodically(LoopEvent::Woke);
    assert_eq!(action, LoopAction::Run);
}

#[test]
fn every_sleep_is_within_the_bounds() {
    let runtime = runtime();
    let mut shortest = u64::MAX;
    let mut longest = u64::MIN;
    for _ in 0..2000 {
        let action: LoopAction<String> = runtime.run_periodically(LoopEvent::Ran(Ok(())));
        match action {
            LoopAction::Sleep { secs, swallowed } => {
                assert!(secs >= 300, "{} is too short", secs);
                assert!(secs <= 1800, "{} is too long", secs);
                assert_eq!(swallowed, None);
                shortest = shortest.min(secs);
                longest = longest.max(secs);
            }
            LoopAction::Run => panic!("the loop sleeps after a cycle"),
        }
    }
    assert!(shortest < longest, "two thousand draws are not all alike");
}

#[test]
fn a_given_sleep_is_passed_on() {
    let runtime = runtime();
    let entered: LoopAction<String> = runtime.run_periodically_with(LoopEvent::Entered, 300);
    assert_eq!(entered, LoopAction::Sleep { secs: 300, swallowed: None });
    let succeeded: LoopAction<String> = runtime.run_periodically_with(LoopEvent::Ran(Ok(())), 1800);
    assert_eq!(succeeded, LoopAction::Sleep { secs: 1800, swallowed: None });
    let failed: LoopAction<String> = runtime
        .run_periodically_with(LoopEvent::Ran(Err(RunError::Publish("down".to_string()))), 1234);
    assert_eq!(
        failed,
        LoopAction::Sleep { secs: 1234, swallowed: Some(RunError::Publish("down".to_string())) }
    );
    let woke: LoopAction<String> = runtime.run_periodically_with(LoopEvent::Woke, 555);
    assert_eq!(woke, LoopAction::Run);
}

#[test]
fn each_failure_is_swallowed() {
    let runtime = runtime();
    let failures = [
        RunError::NoAgents,
        RunError::Generation("quota".to_string()),
        RunError::Publish("down".to_string()),
    ];
    for failure in failures {
        let expected = match &failure {
            RunError::NoAgents => RunError::NoAgents,
            RunError::Generation(e) => RunError::Generation(e.clone()),
            RunError::Publish(e) => RunError::Publish(e.clone()),
        };
        let action = runtime.run_periodically(LoopEvent::Ran(Err(failure)));
        match action {
            LoopAction::Sleep { secs, swallowed } => {
                assert!((300..=1800).contains(&secs));
                assert_eq!(swallowed, Some(expected));
            }
            LoopAction::Run => panic!("the loop sleeps after a cycle"),
        }
    }
}

#[test]
fn the_loop_outlives_cycles_that_always_fail() {
    let mut runtime = runtime();
    let mut cycles = 0;
    let mut sleeps = 0;
    let mut event: LoopEvent<String> = LoopEvent::Entered;
    for iteration in 0..100 {
        match runtime.run_periodically(event) {
            LoopAction::Sleep { secs, swallowed } => {
                assert!((300..=1800).contains(&secs));
                if iteration == 0 {
                    assert_eq!(swallowed, None);
                } else {
                    assert_eq!(swallowed, Some(RunError::NoAgents));
                }
                sleeps += 1;
            }
            LoopAction::Run => panic!("the loop sleeps first"),
        }
        match runtime.run_periodically::<String>(LoopEvent::Woke) {
            LoopAction::Run => cycles += 1,
            LoopAction::Sleep { .. } => panic!("a cycle follows the sleep"),
        }
        let result = match runtime.run::<String>(Event::Start) {
            Action::Finish(result) => result,
            other => panic!("an empty pool finishes at once, not with {:?}", other),
        };
        assert_eq!(result, Err(RunError::NoAgents));
        event = LoopEvent::Ran(result);
    }
    assert_eq!(sleeps, 100);
    assert_eq!(cycles, 100);
}
