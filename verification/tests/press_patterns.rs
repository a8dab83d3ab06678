use xiallocontrol::press::{
    check_button_press, reset_double_click_state, should_reset_state, ButtonCheckState, CheckMode,
};

fn run(mode: CheckMode, param: u64, ticks: &[(bool, u64)]) -> Vec<bool> {
    let mut state = ButtonCheckState::default();
    ticks
        .iter()
        .map(|&(pressed, now)| check_button_press(pressed, mode, param, &mut state, now))
        .collect()
}

#[test]
fn single_press_held_for_half_a_second_fires_once() {
    let ticks: Vec<(bool, u64)> = (0..=500).step_by(8).map(|t| (true, t as u64)).collect();
    let fired = run(CheckMode::Single, 0, &ticks);
    assert_eq!(fired.iter().filter(|f| **f).count(), 1);
    assert!(fired[0]);
}

#[test]
fn single_press_ignores_bounce_within_fifty_milliseconds() {
    let fired = run(
        CheckMode::Single,
        0,
        &[(true, 0), (false, 100), (true, 150), (true, 151), (true, 160)],
    );
    assert_eq!(fired, vec![true, false, false, true, false]);
}

#[test]
fn single_press_fires_again_after_the_guard() {
    let fired = run(CheckMode::Single, 0, &[(true, 0), (false, 100), (true, 151)]);
    assert_eq!(fired, vec![true, false, true]);
}

#[test]
fn single_release_before_any_press_is_ignored() {
    let mut state = ButtonCheckState::default();
    assert!(!check_button_press(false, CheckMode::Single, 0, &mut state, 5));
    assert_eq!(state.last_release_time, None);
    assert_eq!(state.last_press_time, None);
}

#[test]
fn double_press_within_window_fires_once() {
    let fired = run(
        CheckMode::Double,
        300,
        &[(true, 0), (false, 100), (true, 250), (true, 260), (false, 280), (false, 290)],
    );
    assert_eq!(fired, vec![false, false, true, false, false, false]);
}

#[test]
fn double_press_at_the_edge_of_the_window_fires() {
    let fired = run(CheckMode::Double, 300, &[(true, 0), (false, 100), (true, 300)]);
    assert_eq!(fired, vec![false, false, true]);
}

#[test]
fn double_press_outside_window_fires_never() {
    let fired = run(
        CheckMode::Double,
        300,
        &[(true, 0), (false, 100), (true, 500), (false, 600), (false, 700)],
    );
    assert_eq!(fired, vec![false, false, false, false, false]);
}

#[test]
fn double_press_state_is_cleared_as_a_whole() {
    let mut state = ButtonCheckState::default();
    check_button_press(true, CheckMode::Double, 300, &mut state, 0);
    check_button_press(false, CheckMode::Double, 300, &mut state, 10);
    assert_eq!(state.press_count, 1);
    assert_eq!(state.release_count, 1);
    assert_eq!(state.first_press_time, Some(0));
    assert!(!should_reset_state(&state, 300, 300));
    assert!(should_reset_state(&state, 301, 300));
    reset_double_click_state(&mut state);
    assert_eq!(state.press_count, 0);
    assert_eq!(state.release_count, 0);
    assert_eq!(state.first_press_time, None);
    assert!(!state.double_press_triggered);
    assert!(!state.single_press_pending);
    assert_eq!(state.last_press_time, Some(0));
    assert_eq!(state.last_release_time, Some(10));
}

#[test]
fn long_press_fires_from_the_duration_on_until_release() {
    let fired = run(
        CheckMode::Long,
        300,
        &[(true, 0), (true, 299), (true, 300), (true, 308), (true, 316), (false, 324), (true, 332)],
    );
    assert_eq!(fired, vec![false, false, true, true, true, false, false]);
}

#[test]
fn long_press_starts_anew_after_release() {
    let fired = run(
        CheckMode::Long,
        300,
        &[(true, 0), (true, 400), (false, 410), (true, 420), (true, 700), (true, 720)],
    );
    assert_eq!(fired, vec![false, true, false, false, false, true]);
}

#[test]
fn a_clock_that_steps_back_counts_as_no_time() {
    let fired = run(CheckMode::Long, 10, &[(true, 100), (true, 50), (true, 110)]);
    assert_eq!(fired, vec![false, false, true]);
}

#[test]
fn default_mode_is_single() {
    assert_eq!(CheckMode::default(), CheckMode::Single);
}
