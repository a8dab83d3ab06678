//! The rotation detector: turns the angle of a stick, tick by tick, into
//! one-shot clockwise and counter-clockwise events.
//!
//! Angles are thousandths of a degree, as the caller measures them from the
//! shaped stick position: the angle of the point `(x, -y)`, between minus
//! and plus half a turn.
//!
//! Of the two policies that such a detector can follow, comparing each step
//! with a fixed angle or summing the steps, this one sums: steps between
//! ticks are accumulated, and an event fires when the sum passes the
//! rotation threshold, which clears the sum. A slow turn therefore fires as
//! surely as a fast one, only later.
//!
//! A step is measured the short way round, so none is longer than half a
//! turn. A stick that is let go snaps through the centre and comes to rest
//! near the opposite direction, which shows as one step of nearly half a
//! turn. Steps of [`JUMP_THRESHOLD`] or more, that is within ten degrees of
//! the opposite direction, are taken for such a snap: they fire nothing and
//! clear the sum.

use vstd::prelude::*;
use crate::datas::{with_bit, ControllerButtons, ControllerDatas, JoystickRotation};
use crate::device::JoystickSource;
use crate::units::{FULL_TURN, HALF_TURN};

verus! {

/// Accumulated turn that makes an event, where the preset names none:
/// fifteen degrees.
pub const ROTATION_THRESHOLD: i32 = 15_000;

/// Step between two ticks from which on the step is taken for the stick
/// snapping back and not for a turn: 170 degrees, ten short of half a
/// turn.
pub const JUMP_THRESHOLD: i32 = 170_000;

/// The thresholds of the detector.
#[derive(Clone, Copy, Debug, PartialEq, Eq, Structural)]
pub struct RotationConfig {
    /// Accumulated turn above which an event fires.
    pub rotation_threshold: i32,
    /// Step from which on a step is rejected.
    pub jump_threshold: i32,
}

impl RotationConfig {
    /// The thresholds used where nothing else is configured.
    pub open spec fn standard() -> RotationConfig {
        RotationConfig { rotation_threshold: ROTATION_THRESHOLD, jump_threshold: JUMP_THRESHOLD }
    }

    /// The thresholds for a rotation threshold given in whole degrees.
    pub open spec fn for_degrees(degrees: i16) -> RotationConfig {
        RotationConfig {
            rotation_threshold: (degrees * 1000) as i32,
            jump_threshold: JUMP_THRESHOLD,
        }
    }

    /// Thresholds for a rotation threshold given in whole degrees, as a
    /// preset holds it.
    pub fn from_degrees(degrees: i16) -> (config: Self)
        ensures
            config == RotationConfig::for_degrees(degrees),
    {
        RotationConfig {
            rotation_threshold: (degrees as i32) * 1000,
            jump_threshold: JUMP_THRESHOLD,
        }
    }
}

impl Default for RotationConfig {
    fn default() -> (config: Self)
        ensures
            config == RotationConfig::standard(),
    {
        RotationConfig { rotation_threshold: ROTATION_THRESHOLD, jump_threshold: JUMP_THRESHOLD }
    }
}

/// What the detector remembers of one stick between ticks.
#[derive(Clone, Copy, Debug, PartialEq, Eq, Structural)]
pub struct JoystickRotationState {
    /// Angle at the latest tick at which the stick was off centre.
    pub last_angle: i32,
    /// Whether the stick was off centre at the latest tick.
    pub was_active: bool,
    /// What the latest tick reported.
    pub current_rotation: JoystickRotation,
    /// Time of the latest event.
    pub last_rotation_time: u64,
    /// Turn accumulated since the stick left the centre or the latest
    /// event.
    pub accumulated_angle_delta: i32,
}

impl JoystickRotationState {
    /// The state of a stick that has not been looked at yet.
    pub open spec fn resting() -> JoystickRotationState {
        JoystickRotationState {
            last_angle: 0,
            was_active: false,
            current_rotation: JoystickRotation::NoRotation,
            last_rotation_time: 0,
            accumulated_angle_delta: 0,
        }
    }
}

impl Default for JoystickRotationState {
    fn default() -> (state: Self)
        ensures
            state == JoystickRotationState::resting(),
    {
        JoystickRotationState {
            last_angle: 0,
            was_active: false,
            current_rotation: JoystickRotation::NoRotation,
            last_rotation_time: 0,
            accumulated_angle_delta: 0,
        }
    }
}

/// The step from one angle to the next by the shorter way round: a raw
/// difference of more than half a turn is taken the other way.
pub open spec fn shortest_step(from: int, to: int) -> int {
    let raw = to - from;
    if raw > HALF_TURN {
        raw - FULL_TURN
    } else if raw < -HALF_TURN {
        raw + FULL_TURN
    } else {
        raw
    }
}

/// The accumulated turn after a step: a step that reaches the jump
/// threshold clears it, any other is added.
pub open spec fn accumulated(sum: int, step: int, jump_threshold: int) -> int {
    if -jump_threshold < step < jump_threshold {
        sum + step
    } else {
        0
    }
}

/// The event for an accumulated turn.
pub open spec fn event_for(sum: int, rotation_threshold: int) -> JoystickRotation {
    if sum > rotation_threshold {
        JoystickRotation::Clockwise
    } else if sum < -rotation_threshold {
        JoystickRotation::CounterClockwise
    } else {
        JoystickRotation::NoRotation
    }
}

/// One tick of the detector for one stick: the state after it and the
/// event of this tick.
///
/// A stick at the centre clears the accumulated turn. A stick that has just
/// left the centre only has its angle noted. Otherwise the step from the
/// last angle is accumulated, and an accumulated turn beyond the rotation
/// threshold fires an event and is cleared.
pub open spec fn rotation_step(
    state: JoystickRotationState,
    x: i32,
    y: i32,
    angle: i32,
    config: RotationConfig,
    now: u64,
) -> (JoystickRotationState, JoystickRotation) {
    if x == 0 && y == 0 {
        (
            JoystickRotationState {
                was_active: false,
                current_rotation: JoystickRotation::NoRotation,
                accumulated_angle_delta: 0,
                ..state
            },
            JoystickRotation::NoRotation,
        )
    } else if !state.was_active {
        (
            JoystickRotationState {
                last_angle: angle,
                was_active: true,
                current_rotation: JoystickRotation::NoRotation,
                ..state
            },
            JoystickRotation::NoRotation,
        )
    } else {
        let sum = accumulated(
            state.accumulated_angle_delta as int,
            shortest_step(state.last_angle as int, angle as int),
            config.jump_threshold as int,
        );
        let event = event_for(sum, config.rotation_threshold as int);
        (
            JoystickRotationState {
                last_angle: angle,
                was_active: true,
                current_rotation: event,
                last_rotation_time: if event == JoystickRotation::NoRotation {
                    state.last_rotation_time
                } else {
                    now
                },
                accumulated_angle_delta: if event == JoystickRotation::NoRotation {
                    sum as i32
                } else {
                    0
                },
            },
            event,
        )
    }
}

/// Runs one tick of the detector for one stick and gives the event of this
/// tick. `angle` counts only while the stick is off centre.
pub fn update_joystick_rotation_state(
    state: &mut JoystickRotationState,
    x: i32,
    y: i32,
    angle: i32,
    config: &RotationConfig,
    now: u64,
) -> (rotation: JoystickRotation)
    ensures
        (*final(state), rotation) == rotation_step(*old(state), x, y, angle, *config, now),
{
    let is_active = x != 0 || y != 0;
    let mut rotation_this_frame = JoystickRotation::NoRotation;
    if is_active {
        if state.was_active {
            let mut delta: i64 = angle as i64 - state.last_angle as i64;
            if delta > 180_000 {
                delta = delta - 360_000;
            } else if delta < -180_000 {
                delta = delta + 360_000;
            }
            let jump = config.jump_threshold as i64;
            let sum: i64 = if -jump < delta && delta < jump {
                state.accumulated_angle_delta as i64 + delta
            } else {
                0
            };
            let threshold = config.rotation_threshold as i64;
            if sum > threshold {
                rotation_this_frame = JoystickRotation::Clockwise;
                state.accumulated_angle_delta = 0;
                state.last_rotation_time = now;
            } else if sum < -threshold {
                rotation_this_frame = JoystickRotation::CounterClockwise;
                state.accumulated_angle_delta = 0;
                state.last_rotation_time = now;
            } else {
                state.accumulated_angle_delta = sum as i32;
            }
        }
        state.last_angle = angle;
    } else {
        state.accumulated_angle_delta = 0;
    }
    state.was_active = is_active;
    state.current_rotation = rotation_this_frame;
    rotation_this_frame
}

/// The detector states of both sticks.
#[derive(Clone, Copy, Debug, PartialEq, Eq, Structural)]
pub struct RotationStates {
    pub left: JoystickRotationState,
    pub right: JoystickRotationState,
}

impl RotationStates {
    /// The state of the stick on the given side.
    pub open spec fn of(self, source: JoystickSource) -> JoystickRotationState {
        match source {
            JoystickSource::LeftStick => self.left,
            JoystickSource::RightStick => self.right,
        }
    }

    /// Both sticks not looked at yet.
    pub fn new() -> (states: Self)
        ensures
            states.left == JoystickRotationState::resting(),
            states.right == JoystickRotationState::resting(),
    {
        RotationStates {
            left: JoystickRotationState::default(),
            right: JoystickRotationState::default(),
        }
    }

    /// The state of the stick on the given side.
    pub fn get(&self, source: JoystickSource) -> (state: JoystickRotationState)
        ensures
            state == self.of(source),
    {
        match source {
            JoystickSource::LeftStick => self.left,
            JoystickSource::RightStick => self.right,
        }
    }
}

/// The button bits with the four turn buttons set from the events of the
/// two sticks.
pub open spec fn with_turn_buttons(
    buttons: u32,
    left: JoystickRotation,
    right: JoystickRotation,
) -> u32 {
    with_bit(
        with_bit(
            with_bit(
                with_bit(
                    buttons,
                    ControllerButtons::LeftStickCW.bit_spec(),
                    left == JoystickRotation::Clockwise,
                ),
                ControllerButtons::LeftStickCCW.bit_spec(),
                left == JoystickRotation::CounterClockwise,
            ),
            ControllerButtons::RightStickCW.bit_spec(),
            right == JoystickRotation::Clockwise,
        ),
        ControllerButtons::RightStickCCW.bit_spec(),
        right == JoystickRotation::CounterClockwise,
    )
}

/// Runs one tick of the detector for both sticks of a snapshot and writes
/// the events into it, as the two rotation fields and as the four turn
/// buttons. The angles are those of the two stick positions in the
/// snapshot.
pub fn check_sticks_rotation(
    controller_data: &mut ControllerDatas,
    states: &mut RotationStates,
    left_angle: i32,
    right_angle: i32,
    config: &RotationConfig,
    now: u64,
)
    ensures
        ({
            let left = rotation_step(
                old(states).left,
                old(controller_data).left_stick.x,
                old(controller_data).left_stick.y,
                left_angle,
                *config,
                now,
            );
            let right = rotation_step(
                old(states).right,
                old(controller_data).right_stick.x,
                old(controller_data).right_stick.y,
                right_angle,
                *config,
                now,
            );
            &&& *final(states) == (RotationStates { left: left.0, right: right.0 })
            &&& *final(controller_data) == (ControllerDatas {
                left_stick_rotation: left.1,
                right_stick_rotation: right.1,
                buttons: with_turn_buttons(old(controller_data).buttons, left.1, right.1),
                ..*old(controller_data)
            })
        }),
{
    let left = update_joystick_rotation_state(
        &mut states.left,
        controller_data.left_stick.x,
        controller_data.left_stick.y,
        left_angle,
        config,
        now,
    );
    let right = update_joystick_rotation_state(
        &mut states.right,
        controller_data.right_stick.x,
        controller_data.right_stick.y,
        right_angle,
        config,
        now,
    );
    controller_data.left_stick_rotation = left;
    controller_data.right_stick_rotation = right;
    controller_data.set_button(ControllerButtons::LeftStickCW, left == JoystickRotation::Clockwise);
    controller_data.set_button(
        ControllerButtons::LeftStickCCW,
        left == JoystickRotation::CounterClockwise,
    );
    controller_data.set_button(
        ControllerButtons::RightStickCW,
        right == JoystickRotation::Clockwise,
    );
    controller_data.set_button(
        ControllerButtons::RightStickCCW,
        right == JoystickRotation::CounterClockwise,
    );
}

/// The accumulated turn is zero after every tick at which the stick is at
/// the centre and after every tick that fires an event; a stick at the
/// centre fires none.
pub proof fn lemma_accumulator_cleared(
    state: JoystickRotationState,
    x: i32,
    y: i32,
    angle: i32,
    config: RotationConfig,
    now: u64,
)
    ensures
        ({
            let (after, event) = rotation_step(state, x, y, angle, config, now);
            &&& x == 0 && y == 0 ==> after.accumulated_angle_delta == 0 && !after.was_active
                && event == JoystickRotation::NoRotation
            &&& event != JoystickRotation::NoRotation ==> after.accumulated_angle_delta == 0
                && after.last_rotation_time == now
            &&& after.current_rotation == event
        }),
{
}

/// With the stick off centre at both ticks, a step short of the jump
/// threshold fires clockwise exactly when it takes the accumulated turn
/// above the rotation threshold, counter-clockwise exactly when it takes it
/// below the negative threshold, and is kept in the accumulated turn
/// otherwise.
pub proof fn lemma_turn_fires_past_threshold(
    state: JoystickRotationState,
    x: i32,
    y: i32,
    angle: i32,
    config: RotationConfig,
    now: u64,
)
    requires
        state.was_active,
        x != 0 || y != 0,
        -config.jump_threshold < shortest_step(state.last_angle as int, angle as int)
            < config.jump_threshold,
        config.rotation_threshold >= 0,
    ensures
        ({
            let step = shortest_step(state.last_angle as int, angle as int);
            let sum = state.accumulated_angle_delta + step;
            let (after, event) = rotation_step(state, x, y, angle, config, now);
            &&& event == JoystickRotation::Clockwise <==> sum > config.rotation_threshold
            &&& event == JoystickRotation::CounterClockwise <==> sum < -config.rotation_threshold
            &&& event == JoystickRotation::NoRotation ==> after.accumulated_angle_delta == sum
        }),
{
}

/// A step that reaches the jump threshold fires no event and clears the
/// accumulated turn.
pub proof fn lemma_jump_is_rejected(
    state: JoystickRotationState,
    x: i32,
    y: i32,
    angle: i32,
    config: RotationConfig,
    now: u64,
)
    requires
        state.was_active,
        x != 0 || y != 0,
        config.rotation_threshold >= 0,
        shortest_step(state.last_angle as int, angle as int) >= config.jump_threshold
            || shortest_step(state.last_angle as int, angle as int) <= -config.jump_threshold,
    ensures
        rotation_step(state, x, y, angle, config, now).1 == JoystickRotation::NoRotation,
        rotation_step(state, x, y, angle, config, now).0.accumulated_angle_delta == 0,
{
}

/// Under the thresholds that the engine uses, whatever rotation threshold
/// the preset names that is not below zero, a step of 170 degrees or more
/// either way round fires no event and clears the accumulated turn. (Under
/// a threshold below zero an accumulated turn of zero is already beyond
/// it.)
pub proof fn lemma_snap_back_is_rejected(
    state: JoystickRotationState,
    x: i32,
    y: i32,
    angle: i32,
    degrees: i16,
    now: u64,
)
    requires
        state.was_active,
        x != 0 || y != 0,
        degrees >= 0,
        shortest_step(state.last_angle as int, angle as int) >= 170_000 || shortest_step(
            state.last_angle as int,
            angle as int,
        ) <= -170_000,
    ensures
        rotation_step(state, x, y, angle, RotationConfig::for_degrees(degrees), now).1
            == JoystickRotation::NoRotation,
        rotation_step(
            state,
            x,
            y,
            angle,
            RotationConfig::for_degrees(degrees),
            now,
        ).0.accumulated_angle_delta == 0,
        rotation_step(state, x, y, angle, RotationConfig::standard(), now).1
            == JoystickRotation::NoRotation,
        rotation_step(state, x, y, angle, RotationConfig::standard(), now).0.accumulated_angle_delta
            == 0,
{
}

/// An event is reported for one tick only: at the tick after an event, a
/// stick that has not moved on reports none.
pub proof fn lemma_event_is_one_shot(
    state: JoystickRotationState,
    x: i32,
    y: i32,
    angle: i32,
    config: RotationConfig,
    now: u64,
    later: u64,
)
    requires
        x != 0 || y != 0,
        config.rotation_threshold >= 0,
        config.jump_threshold > 0,
        rotation_step(state, x, y, angle, config, now).1 != JoystickRotation::NoRotation,
    ensures
        rotation_step(rotation_step(state, x, y, angle, config, now).0, x, y, angle, config, later).1
            == JoystickRotation::NoRotation,
{
}

/// Whether a state is that of a stick off centre with nothing accumulated,
/// as it is after the tick at which the stick leaves the centre and after
/// every event.
pub open spec fn turning_from_zero(state: JoystickRotationState) -> bool {
    state.was_active && state.accumulated_angle_delta == 0
}

/// A stick that turns on in steps larger than the rotation threshold and
/// short of the jump threshold fires one clockwise event at each step and
/// clears the accumulated turn each time: from a state with nothing
/// accumulated, such a step fires and leads to a state with nothing
/// accumulated again. Steps the other way round fire counter-clockwise in
/// the same manner.
pub proof fn lemma_steady_turn_fires_at_each_step(
    state: JoystickRotationState,
    x: i32,
    y: i32,
    angle: i32,
    config: RotationConfig,
    now: u64,
)
    requires
        turning_from_zero(state),
        x != 0 || y != 0,
        config.rotation_threshold >= 0,
    ensures
        ({
            let step = shortest_step(state.last_angle as int, angle as int);
            let (after, event) = rotation_step(state, x, y, angle, config, now);
            &&& config.rotation_threshold < step < config.jump_threshold ==> event
                == JoystickRotation::Clockwise && turning_from_zero(after) && after.last_angle
                == angle
            &&& -config.jump_threshold < step < -config.rotation_threshold ==> event
                == JoystickRotation::CounterClockwise && turning_from_zero(after)
                && after.last_angle == angle
        }),
{
}

/// The first tick at which a stick is off centre fires nothing and leads
/// to a state with nothing accumulated, whatever was accumulated before the
/// stick went to the centre.
pub proof fn lemma_turn_begins_from_zero(
    state: JoystickRotationState,
    x: i32,
    y: i32,
    angle: i32,
    config: RotationConfig,
    now: u64,
    later: u64,
)
    requires
        x != 0 || y != 0,
    ensures
        ({
            let rested = rotation_step(state, 0, 0, angle, config, now).0;
            let (after, event) = rotation_step(rested, x, y, angle, config, later);
            event == JoystickRotation::NoRotation && turning_from_zero(after) && after.last_angle
                == angle
        }),
{
}

} // verus!
