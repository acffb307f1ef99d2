use std::time::Duration;

use futures::Future;
use tokio_core::reactor::{Core, Timeout};
use tokio_curl::State;

#[test]
fn a_cleared_timeout_is_never_due() {
    let mut state = State::new();
    assert!(!state.check_timeout(false));
    assert!(!state.check_timeout(true));
    assert!(!state.schedule_timeout(Some(Duration::new(0, 0))));
    assert!(!state.schedule_timeout(None));
    assert!(!state.check_timeout(true));
}

#[test]
fn an_immediate_timeout_is_due_once() {
    let mut state = State::new();
    assert!(!state.schedule_timeout(Some(Duration::new(0, 0))));
    assert!(state.timer_mut().is_none());
    assert!(state.check_timeout(false));
    assert!(!state.check_timeout(false));
    assert!(!state.check_timeout(true));
}

#[test]
fn a_timeout_waits_for_its_timer() {
    let core = Core::new().unwrap();
    let mut state = State::new();
    assert!(state.schedule_timeout(Some(Duration::from_millis(1))));
    // Nothing is due before the timer is there.
    assert!(!state.check_timeout(true));
    let timer = Timeout::new(Duration::from_secs(3600), &core.handle()).unwrap();
    state.arm_timeout(timer, false);
    assert!(state.timer_mut().is_some());
    assert!(!state.check_timeout(false));
    assert!(state.timer_mut().is_some());
    assert!(state.check_timeout(true));
    assert!(state.timer_mut().is_none());
    assert!(!state.check_timeout(true));
}

#[test]
fn a_timer_that_is_over_at_once_is_due() {
    let core = Core::new().unwrap();
    let mut state = State::new();
    assert!(state.schedule_timeout(Some(Duration::new(0, 1))));
    let timer = Timeout::new(Duration::from_secs(3600), &core.handle()).unwrap();
    state.arm_timeout(timer, true);
    assert!(state.timer_mut().is_none());
    assert!(state.check_timeout(false));
}

#[test]
fn the_last_timeout_counts() {
    let core = Core::new().unwrap();
    let mut state = State::new();
    assert!(state.schedule_timeout(Some(Duration::from_secs(5))));
    let timer = Timeout::new(Duration::from_secs(3600), &core.handle()).unwrap();
    state.arm_timeout(timer, false);
    assert!(!state.schedule_timeout(Some(Duration::new(0, 0))));
    assert!(state.timer_mut().is_none());
    assert!(state.check_timeout(false));

    assert!(state.schedule_timeout(Some(Duration::from_secs(5))));
    let timer = Timeout::new(Duration::from_secs(3600), &core.handle()).unwrap();
    state.arm_timeout(timer, false);
    assert!(!state.schedule_timeout(None));
    assert!(!state.check_timeout(true));
}

#[test]
fn the_timer_that_was_armed_is_the_one_that_is_kept() {
    let mut core = Core::new().unwrap();
    let handle = core.handle();
    let mut state = State::new();
    assert!(state.schedule_timeout(Some(Duration::from_millis(1))));
    let timer = Timeout::new(Duration::from_millis(1), &handle).unwrap();
    state.arm_timeout(timer, false);
    let waited = futures::future::poll_fn(|| state.timer_mut().unwrap().poll());
    core.run(waited).unwrap();
    assert!(state.check_timeout(true));
}

#[test]
fn only_a_timeout_of_some_length_needs_a_timer() {
    let mut state = State::new();
    assert!(!state.request_timeout(None));
    assert!(!state.request_timeout(Some(0)));
    assert!(state.check_timeout(false));
    assert!(state.request_timeout(Some(1)));
    assert!(state.request_timeout(Some(u128::MAX)));
    assert!(!state.check_timeout(true));
    assert!(state.schedule_timeout(Some(Duration::new(u64::MAX, 999_999_999))));
}
