use crystal_engine::time::{TimeState, FRAME_TIME_COUNT};
use std::time::{Duration, Instant};

#[test]
fn test_timestate_never_resize() {
    let mut state = TimeState::default();
    let cap = state.frame_capacity();
    for _ in 0..cap * 10 {
        state.update();
        assert_eq!(cap, state.frame_capacity());
    }
    assert_eq!(FRAME_TIME_COUNT, state.frame_count());
}

#[test]
fn delta_is_the_frame_remembered_last() {
    let mut state = TimeState::default();
    // nothing has passed between the two instants that a state starts with
    assert_eq!(state.delta().as_nanos(), 0);
    for _ in 0..FRAME_TIME_COUNT + 3 {
        state.update();
        assert_eq!(state.delta(), *state.frame_times().back().unwrap());
        assert_eq!(state.delta(), state.delta());
    }
    assert_eq!(state.frame_times().len(), FRAME_TIME_COUNT);
}

#[test]
fn a_fresh_state_has_no_delta() {
    let state = TimeState::default();
    assert_eq!(state.delta(), Duration::from_secs(0));
    assert_eq!(state.frame_count(), 0);
}

#[test]
fn frames_begin_when_they_are_told() {
    let mut state = TimeState::default();
    let start = Instant::now();
    for millis in 1..=12u64 {
        let delta = Duration::from_millis(millis);
        state.begin_frame(start + Duration::from_millis(millis * 20), delta);
        assert_eq!(state.delta(), delta);
        assert_eq!(*state.frame_times().back().unwrap(), delta);
    }
    // the two oldest of twelve have left
    let kept: Vec<Duration> = state.frame_times().iter().copied().collect();
    let expected: Vec<Duration> = (3..=12u64).map(Duration::from_millis).collect();
    assert_eq!(kept, expected);
    assert!(state.running() >= Duration::from_secs(0));
}
