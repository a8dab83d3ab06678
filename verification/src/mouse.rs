//! Moving the mouse pointer with a stick.
//!
//! At each tick the stick position times the speed of the preset is added
//! to what is left over from the ticks before; the whole pixels in the sum
//! are moved and the rest is kept.

use vstd::prelude::*;
use crate::datas::ControllerDatas;
use crate::fixed::toward_zero;
use crate::preset::{Preset, PresetItemsView};
use crate::text::str_eq;
use crate::units::UNIT;

verus! {

/// What is left over of the movement on each axis, in millionths of a
/// pixel.
#[derive(Clone, Copy, Debug, PartialEq, Eq, Structural)]
pub struct MouseMovementState {
    pub move_x_remainder: i32,
    pub move_y_remainder: i32,
}

impl MouseMovementState {
    /// Whether less than a pixel is left over on each axis.
    pub open spec fn wf(self) -> bool {
        -UNIT < self.move_x_remainder < UNIT && -UNIT < self.move_y_remainder < UNIT
    }
}

impl Default for MouseMovementState {
    fn default() -> (state: Self)
        ensures
            state == (MouseMovementState { move_x_remainder: 0, move_y_remainder: 0 }),
            state.wf(),
    {
        MouseMovementState { move_x_remainder: 0, move_y_remainder: 0 }
    }
}

/// The stick position that moves the pointer under a preset, where a stick
/// does so: that of the named stick, and the centre for the touchpad. The
/// vertical axis is turned over, so that up on the stick is up on the
/// screen.
pub open spec fn pointer_stick(items: PresetItemsView, datas: ControllerDatas) -> Option<
    (int, int),
> {
    if !items.use_stick_as_mouse || items.stick_as_mouse_simulation is None {
        None
    } else if items.stick_as_mouse_simulation->0 == "left"@ {
        Some((datas.left_stick.x as int, -datas.left_stick.y))
    } else if items.stick_as_mouse_simulation->0 == "right"@ {
        Some((datas.right_stick.x as int, -datas.right_stick.y))
    } else if items.stick_as_mouse_simulation->0 == "touchpad"@ {
        Some((0, 0))
    } else {
        None
    }
}

/// One axis of one tick: the whole pixels to move and what is left over.
pub open spec fn axis_step(remainder: int, stick: int, speed: int) -> (int, int) {
    let sum = remainder + stick * speed;
    let pixels = toward_zero(sum, UNIT as int);
    (pixels, sum - pixels * UNIT)
}

fn step_axis(remainder: i32, stick: i64, speed: u8) -> (moved: (i32, i32))
    requires
        -0x8000_0000 <= stick <= 0x8000_0000,
    ensures
        (moved.0 as int, moved.1 as int) == axis_step(remainder as int, stick as int, speed as int),
        -UNIT < moved.1 < UNIT,
{
    assert(-0x8000_0000 * 255 <= stick * speed <= 0x8000_0000 * 255) by (nonlinear_arith)
        requires
            -0x8000_0000 <= stick <= 0x8000_0000,
            0 <= speed <= 255,
    ;
    let sum: i64 = remainder as i64 + stick * (speed as i64);
    let pixels: i64 = if sum >= 0 {
        sum / 1_000_000
    } else {
        -((-sum) / 1_000_000)
    };
    let left: i64 = sum - pixels * 1_000_000;
    (pixels as i32, left as i32)
}

/// Works out how far the pointer moves at this tick.
///
/// Nothing moves, and nothing is kept, where the preset does not let a
/// stick move the pointer. Otherwise the result is the movement in whole
/// pixels, or nothing where it is less than a pixel on both axes, and less
/// than a pixel is left over on each axis.
pub fn handle_mouse_movement(
    state: &mut MouseMovementState,
    controller_datas: &ControllerDatas,
    preset: &Preset,
) -> (movement: Option<(i32, i32)>)
    ensures
        match pointer_stick(preset@.items, *controller_datas) {
            None => movement is None && *final(state) == *old(state),
            Some(stick) => {
                let x = axis_step(
                    old(state).move_x_remainder as int,
                    stick.0,
                    preset.items.move_speed as int,
                );
                let y = axis_step(
                    old(state).move_y_remainder as int,
                    stick.1,
                    preset.items.move_speed as int,
                );
                &&& final(state).move_x_remainder == x.1
                &&& final(state).move_y_remainder == y.1
                &&& final(state).wf()
                &&& movement == if x.0 != 0 || y.0 != 0 {
                    Some((x.0 as i32, y.0 as i32))
                } else {
                    None
                }
            },
        },
{
    if !preset.items.use_stick_as_mouse {
        return None;
    }
    let (stick_x, stick_y): (i64, i64) = match &preset.items.stick_as_mouse_simulation {
        Some(which_stick) => {
            if str_eq(which_stick.as_str(), "left") {
                (controller_datas.left_stick.x as i64, -(controller_datas.left_stick.y as i64))
            } else if str_eq(which_stick.as_str(), "right") {
                (controller_datas.right_stick.x as i64, -(controller_datas.right_stick.y as i64))
            } else if str_eq(which_stick.as_str(), "touchpad") {
                (0, 0)
            } else {
                return None;
            }
        },
        None => {
            return None;
        },
    };
    let x = step_axis(state.move_x_remainder, stick_x, preset.items.move_speed);
    let y = step_axis(state.move_y_remainder, stick_y, preset.items.move_speed);
    state.move_x_remainder = x.1;
    state.move_y_remainder = y.1;
    if x.0 != 0 || y.0 != 0 {
        Some((x.0, y.0))
    } else {
        None
    }
}

/// Nothing is lost: the pixels moved at a tick and what is left over after
/// it add up to what was left over before it and what the stick added.
pub proof fn lemma_movement_is_conserved(remainder: int, stick: int, speed: int)
    ensures
        axis_step(remainder, stick, speed).0 * UNIT + axis_step(remainder, stick, speed).1
            == remainder + stick * speed,
{
}

} // verus!
