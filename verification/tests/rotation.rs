use xiallocontrol::datas::{ControllerButtons, ControllerDatas, JoystickRotation};
use xiallocontrol::device::JoystickSource;
use xiallocontrol::rotation::{
    check_sticks_rotation, update_joystick_rotation_state, JoystickRotationState, RotationConfig,
    RotationStates,
};

fn degrees(d: i32) -> i32 {
    d * 1000
}

fn turn(config: &RotationConfig, angles: &[i32]) -> (JoystickRotationState, Vec<JoystickRotation>) {
    let mut state = JoystickRotationState::default();
    let events = angles
        .iter()
        .enumerate()
        .map(|(i, a)| {
            update_joystick_rotation_state(&mut state, 500_000, 1, degrees(*a), config, i as u64)
        })
        .collect();
    (state, events)
}

#[test]
fn steps_of_twenty_degrees_fire_clockwise_at_each_step() {
    let (state, events) = turn(&RotationConfig::default(), &[0, 20, 40]);
    assert_eq!(
        events,
        vec![JoystickRotation::NoRotation, JoystickRotation::Clockwise, JoystickRotation::Clockwise]
    );
    assert_eq!(state.accumulated_angle_delta, 0);
    assert_eq!(state.last_rotation_time, 2);
    assert_eq!(state.last_angle, 40_000);
}

#[test]
fn steps_of_ten_degrees_fire_once_the_sum_passes_fifteen() {
    let (state, events) = turn(&RotationConfig::default(), &[0, 10, 20, 30, 40, 45]);
    assert_eq!(
        events,
        vec![
            JoystickRotation::NoRotation,
            JoystickRotation::NoRotation,
            JoystickRotation::Clockwise,
            JoystickRotation::NoRotation,
            JoystickRotation::Clockwise,
            JoystickRotation::NoRotation,
        ]
    );
    assert_eq!(state.accumulated_angle_delta, 5_000);
    assert_eq!(state.current_rotation, JoystickRotation::NoRotation);
}

#[test]
fn a_sum_of_exactly_the_threshold_does_not_fire() {
    let (state, events) = turn(&RotationConfig::default(), &[0, 15]);
    assert_eq!(events[1], JoystickRotation::NoRotation);
    assert_eq!(state.accumulated_angle_delta, 15_000);
}

#[test]
fn falling_angles_fire_counter_clockwise() {
    let (_, events) = turn(&RotationConfig::default(), &[0, -20, -28, -40]);
    assert_eq!(
        events,
        vec![
            JoystickRotation::NoRotation,
            JoystickRotation::CounterClockwise,
            JoystickRotation::NoRotation,
            JoystickRotation::CounterClockwise,
        ]
    );
}

#[test]
fn the_step_across_half_a_turn_is_taken_the_short_way() {
    let (_, events) = turn(&RotationConfig::default(), &[170, -170]);
    assert_eq!(events[1], JoystickRotation::Clockwise);
    let (_, events) = turn(&RotationConfig::default(), &[-170, 170]);
    assert_eq!(events[1], JoystickRotation::CounterClockwise);
}

#[test]
fn a_jump_at_the_jump_threshold_is_rejected() {
    let narrow = RotationConfig { rotation_threshold: 15_000, jump_threshold: 160_000 };
    let (state, events) = turn(&narrow, &[0, 10, 180]);
    assert_eq!(
        events,
        vec![
            JoystickRotation::NoRotation,
            JoystickRotation::NoRotation,
            JoystickRotation::NoRotation
        ]
    );
    assert_eq!(state.accumulated_angle_delta, 0);
    assert_eq!(state.last_angle, 180_000);
    let (state, events) = turn(&RotationConfig::default(), &[0, 10, -170]);
    assert_eq!(events[2], JoystickRotation::NoRotation);
    assert_eq!(state.accumulated_angle_delta, 0);
}

#[test]
fn a_jump_of_170_degrees_in_one_tick_is_rejected() {
    let (state, events) = turn(&RotationConfig::default(), &[0, 170]);
    assert_eq!(events, vec![JoystickRotation::NoRotation, JoystickRotation::NoRotation]);
    assert_eq!(state.accumulated_angle_delta, 0);
    assert_eq!(state.last_angle, 170_000);
    let (state, events) = turn(&RotationConfig::default(), &[0, 10, -160]);
    assert_eq!(events[2], JoystickRotation::NoRotation);
    assert_eq!(state.accumulated_angle_delta, 0);
    let (state, events) = turn(&RotationConfig::from_degrees(90), &[0, 60, -130]);
    assert_eq!(events[2], JoystickRotation::NoRotation);
    assert_eq!(state.accumulated_angle_delta, 0);
}

#[test]
fn a_step_just_short_of_the_jump_threshold_still_counts() {
    let (state, events) = turn(&RotationConfig::default(), &[0, 169]);
    assert_eq!(events[1], JoystickRotation::Clockwise);
    assert_eq!(state.accumulated_angle_delta, 0);
    let (state, events) = turn(&RotationConfig::from_degrees(175), &[0, 169]);
    assert_eq!(events[1], JoystickRotation::NoRotation);
    assert_eq!(state.accumulated_angle_delta, 169_000);
}

#[test]
fn a_stick_at_rest_clears_the_sum() {
    let config = RotationConfig::default();
    let mut state = JoystickRotationState::default();
    update_joystick_rotation_state(&mut state, 1, 0, 0, &config, 0);
    update_joystick_rotation_state(&mut state, 1, 0, 10_000, &config, 1);
    assert_eq!(state.accumulated_angle_delta, 10_000);
    let event = update_joystick_rotation_state(&mut state, 0, 0, 99_000, &config, 2);
    assert_eq!(event, JoystickRotation::NoRotation);
    assert!(!state.was_active);
    assert_eq!(state.accumulated_angle_delta, 0);
    assert_eq!(state.last_angle, 10_000);
    let event = update_joystick_rotation_state(&mut state, 0, -1, 90_000, &config, 3);
    assert_eq!(event, JoystickRotation::NoRotation);
    assert!(state.was_active);
    assert_eq!(state.last_angle, 90_000);
}

#[test]
fn thresholds_from_degrees() {
    assert_eq!(
        RotationConfig::from_degrees(30),
        RotationConfig { rotation_threshold: 30_000, jump_threshold: 170_000 }
    );
    assert_eq!(
        RotationConfig::default(),
        RotationConfig { rotation_threshold: 15_000, jump_threshold: 170_000 }
    );
}

#[test]
fn both_sticks_are_checked_and_written_into_the_snapshot() {
    let config = RotationConfig::default();
    let mut states = RotationStates::new();
    let mut datas = ControllerDatas::new();
    datas.left_stick.x = 500_000;
    datas.right_stick.y = -500_000;
    check_sticks_rotation(&mut datas, &mut states, 0, 0, &config, 1);
    assert_eq!(datas.left_stick_rotation, JoystickRotation::NoRotation);
    check_sticks_rotation(&mut datas, &mut states, 20_000, -20_000, &config, 2);
    assert_eq!(datas.left_stick_rotation, JoystickRotation::Clockwise);
    assert_eq!(datas.right_stick_rotation, JoystickRotation::CounterClockwise);
    assert!(datas.get_button(ControllerButtons::LeftStickCW));
    assert!(!datas.get_button(ControllerButtons::LeftStickCCW));
    assert!(!datas.get_button(ControllerButtons::RightStickCW));
    assert!(datas.get_button(ControllerButtons::RightStickCCW));
    assert_eq!(states.get(JoystickSource::LeftStick).last_angle, 20_000);
    assert_eq!(states.get(JoystickSource::RightStick).last_rotation_time, 2);
    check_sticks_rotation(&mut datas, &mut states, 20_000, -20_000, &config, 3);
    assert_eq!(datas.left_stick_rotation, JoystickRotation::NoRotation);
    assert!(!datas.get_button(ControllerButtons::LeftStickCW));
    assert!(!datas.get_button(ControllerButtons::RightStickCCW));
}
