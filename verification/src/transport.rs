//! From what a transport reads to the raw sample of a tick.

use vstd::prelude::*;
use crate::datas::{
    bit_is_set, lemma_bits_independent, with_bit, ControllerButtons, ControllerTrigger, StickPoint,
};
use crate::snapshot::{normalize, normalize_spec, RawSample};
use crate::units::UNIT;

verus! {

/// The levels of the fifteen sampled buttons of a controller.
#[derive(Clone, Copy, Debug, PartialEq, Eq, Structural)]
pub struct ButtonReadings {
    pub south: bool,
    pub east: bool,
    pub west: bool,
    pub north: bool,
    pub left_shoulder: bool,
    pub right_shoulder: bool,
    pub left_thumb: bool,
    pub right_thumb: bool,
    pub select: bool,
    pub start: bool,
    pub guide: bool,
    pub arrow_left: bool,
    pub arrow_right: bool,
    pub arrow_up: bool,
    pub arrow_down: bool,
}

impl ButtonReadings {
    /// The level that the readings give for a button; the derived buttons
    /// are up.
    pub open spec fn level(self, button: ControllerButtons) -> bool {
        match button {
            ControllerButtons::South => self.south,
            ControllerButtons::East => self.east,
            ControllerButtons::West => self.west,
            ControllerButtons::North => self.north,
            ControllerButtons::LB => self.left_shoulder,
            ControllerButtons::RB => self.right_shoulder,
            ControllerButtons::LStick => self.left_thumb,
            ControllerButtons::RStick => self.right_thumb,
            ControllerButtons::Back => self.select,
            ControllerButtons::Start => self.start,
            ControllerButtons::Guide => self.guide,
            ControllerButtons::Left => self.arrow_left,
            ControllerButtons::Right => self.arrow_right,
            ControllerButtons::Up => self.arrow_up,
            ControllerButtons::Down => self.arrow_down,
            _ => false,
        }
    }
}

/// The bitfield that holds the levels of the sampled buttons, each at the
/// place of its button, and nothing else.
pub open spec fn packed(readings: ButtonReadings) -> u32 {
    let b0 = with_bit(0, ControllerButtons::South.bit_spec(), readings.south);
    let b1 = with_bit(b0, ControllerButtons::East.bit_spec(), readings.east);
    let b2 = with_bit(b1, ControllerButtons::West.bit_spec(), readings.west);
    let b3 = with_bit(b2, ControllerButtons::North.bit_spec(), readings.north);
    let b4 = with_bit(b3, ControllerButtons::LB.bit_spec(), readings.left_shoulder);
    let b5 = with_bit(b4, ControllerButtons::RB.bit_spec(), readings.right_shoulder);
    let b6 = with_bit(b5, ControllerButtons::LStick.bit_spec(), readings.left_thumb);
    let b7 = with_bit(b6, ControllerButtons::RStick.bit_spec(), readings.right_thumb);
    let b8 = with_bit(b7, ControllerButtons::Back.bit_spec(), readings.select);
    let b9 = with_bit(b8, ControllerButtons::Start.bit_spec(), readings.start);
    let b10 = with_bit(b9, ControllerButtons::Guide.bit_spec(), readings.guide);
    let b11 = with_bit(b10, ControllerButtons::Left.bit_spec(), readings.arrow_left);
    let b12 = with_bit(b11, ControllerButtons::Right.bit_spec(), readings.arrow_right);
    let b13 = with_bit(b12, ControllerButtons::Up.bit_spec(), readings.arrow_up);
    with_bit(b13, ControllerButtons::Down.bit_spec(), readings.arrow_down)
}

fn put(bits: u32, button: ControllerButtons, level: bool) -> (put: u32)
    ensures
        put == with_bit(bits, button.bit_spec(), level),
{
    let place = button.bit();
    if level {
        bits | (1u32 << place)
    } else {
        bits & !(1u32 << place)
    }
}

/// Packs the levels of the sampled buttons into a bitfield.
pub fn pack_buttons(readings: &ButtonReadings) -> (buttons: u32)
    ensures
        buttons == packed(*readings),
{
    let b0 = put(0, ControllerButtons::South, readings.south);
    let b1 = put(b0, ControllerButtons::East, readings.east);
    let b2 = put(b1, ControllerButtons::West, readings.west);
    let b3 = put(b2, ControllerButtons::North, readings.north);
    let b4 = put(b3, ControllerButtons::LB, readings.left_shoulder);
    let b5 = put(b4, ControllerButtons::RB, readings.right_shoulder);
    let b6 = put(b5, ControllerButtons::LStick, readings.left_thumb);
    let b7 = put(b6, ControllerButtons::RStick, readings.right_thumb);
    let b8 = put(b7, ControllerButtons::Back, readings.select);
    let b9 = put(b8, ControllerButtons::Start, readings.start);
    let b10 = put(b9, ControllerButtons::Guide, readings.guide);
    let b11 = put(b10, ControllerButtons::Left, readings.arrow_left);
    let b12 = put(b11, ControllerButtons::Right, readings.arrow_right);
    let b13 = put(b12, ControllerButtons::Up, readings.arrow_up);
    put(b13, ControllerButtons::Down, readings.arrow_down)
}

/// In the packed bitfield every button reads as the readings give it, and
/// the derived buttons read as up.
#[verifier::rlimit(80)]
pub proof fn lemma_packed_levels(readings: ButtonReadings, button: ControllerButtons)
    ensures
        bit_is_set(packed(readings), button.bit_spec()) == readings.level(button),
{
    let p = button.bit_spec();
    let b0 = with_bit(0, ControllerButtons::South.bit_spec(), readings.south);
    let b1 = with_bit(b0, ControllerButtons::East.bit_spec(), readings.east);
    let b2 = with_bit(b1, ControllerButtons::West.bit_spec(), readings.west);
    let b3 = with_bit(b2, ControllerButtons::North.bit_spec(), readings.north);
    let b4 = with_bit(b3, ControllerButtons::LB.bit_spec(), readings.left_shoulder);
    let b5 = with_bit(b4, ControllerButtons::RB.bit_spec(), readings.right_shoulder);
    let b6 = with_bit(b5, ControllerButtons::LStick.bit_spec(), readings.left_thumb);
    let b7 = with_bit(b6, ControllerButtons::RStick.bit_spec(), readings.right_thumb);
    let b8 = with_bit(b7, ControllerButtons::Back.bit_spec(), readings.select);
    let b9 = with_bit(b8, ControllerButtons::Start.bit_spec(), readings.start);
    let b10 = with_bit(b9, ControllerButtons::Guide.bit_spec(), readings.guide);
    let b11 = with_bit(b10, ControllerButtons::Left.bit_spec(), readings.arrow_left);
    let b12 = with_bit(b11, ControllerButtons::Right.bit_spec(), readings.arrow_right);
    let b13 = with_bit(b12, ControllerButtons::Up.bit_spec(), readings.arrow_up);
    assert(0u32 & (1u32 << p) == 0) by (bit_vector);
    lemma_bits_independent(0, ControllerButtons::South.bit_spec(), readings.south, p);
    lemma_bits_independent(b0, ControllerButtons::East.bit_spec(), readings.east, p);
    lemma_bits_independent(b1, ControllerButtons::West.bit_spec(), readings.west, p);
    lemma_bits_independent(b2, ControllerButtons::North.bit_spec(), readings.north, p);
    lemma_bits_independent(b3, ControllerButtons::LB.bit_spec(), readings.left_shoulder, p);
    lemma_bits_independent(b4, ControllerButtons::RB.bit_spec(), readings.right_shoulder, p);
    lemma_bits_independent(b5, ControllerButtons::LStick.bit_spec(), readings.left_thumb, p);
    lemma_bits_independent(b6, ControllerButtons::RStick.bit_spec(), readings.right_thumb, p);
    lemma_bits_independent(b7, ControllerButtons::Back.bit_spec(), readings.select, p);
    lemma_bits_independent(b8, ControllerButtons::Start.bit_spec(), readings.start, p);
    lemma_bits_independent(b9, ControllerButtons::Guide.bit_spec(), readings.guide, p);
    lemma_bits_independent(b10, ControllerButtons::Left.bit_spec(), readings.arrow_left, p);
    lemma_bits_independent(b11, ControllerButtons::Right.bit_spec(), readings.arrow_right, p);
    lemma_bits_independent(b12, ControllerButtons::Up.bit_spec(), readings.arrow_up, p);
    lemma_bits_independent(b13, ControllerButtons::Down.bit_spec(), readings.arrow_down, p);
}

/// What the console-pad interface reads of a pad: the buttons, the sticks
/// as sixteen-bit numbers and the triggers as eight-bit numbers.
#[derive(Clone, Copy, Debug, PartialEq, Eq)]
pub struct XInputState {
    pub buttons: ButtonReadings,
    pub left_stick_raw: (i16, i16),
    pub right_stick_raw: (i16, i16),
    pub left_trigger: u8,
    pub right_trigger: u8,
    pub left_trigger_bool: bool,
    pub right_trigger_bool: bool,
}

/// A sixteen-bit stick coordinate brought to the range of a full
/// deflection.
pub open spec fn stick_value(raw: i16) -> int {
    normalize_spec(raw as int, -32768, 32767, -UNIT, UNIT as int)->0
}

/// An eight-bit trigger pressure brought to the range from rest to full
/// pressure.
pub open spec fn trigger_value(raw: u8) -> int {
    crate::fixed::toward_zero(raw as int * UNIT, 255)
}

fn stick_axis(raw: i16) -> (value: i32)
    ensures
        value == stick_value(raw),
        -UNIT <= value <= UNIT,
{
    let scaled = normalize(raw, -32768, 32767, -1_000_000, 1_000_000);
    let ghost offset = raw as int + 32768;
    assert(0 <= offset * 2_000_000 <= 65535 * 2_000_000 && 0 <= (offset * 2_000_000) / 65535
        <= 2_000_000) by (nonlinear_arith)
        requires
            0 <= offset <= 65535,
    ;
    match scaled {
        Some(value) => value as i32,
        None => 0,
    }
}

fn trigger_axis(raw: u8) -> (value: i32)
    ensures
        value == trigger_value(raw),
        0 <= value <= UNIT,
{
    assert(0 <= raw * 1_000_000 <= 255 * 1_000_000 && 0 <= (raw * 1_000_000) / 255 <= 1_000_000)
        by (nonlinear_arith)
        requires
            0 <= raw <= 255,
    ;
    ((raw as u32) * 1_000_000 / 255) as i32
}

/// Turns what the console-pad interface reads into a raw sample. The
/// triggers of such a pad report analog pressure.
pub fn _poll_xbox_controller_state(state: &XInputState) -> (sample: RawSample)
    ensures
        sample.left_stick == (StickPoint {
            x: stick_value(state.left_stick_raw.0) as i32,
            y: stick_value(state.left_stick_raw.1) as i32,
        }),
        sample.right_stick == (StickPoint {
            x: stick_value(state.right_stick_raw.0) as i32,
            y: stick_value(state.right_stick_raw.1) as i32,
        }),
        sample.left_trigger == (ControllerTrigger {
            value: trigger_value(state.left_trigger) as i32,
            has_pressure: true,
            is_pressed: state.left_trigger_bool,
        }),
        sample.right_trigger == (ControllerTrigger {
            value: trigger_value(state.right_trigger) as i32,
            has_pressure: true,
            is_pressed: state.right_trigger_bool,
        }),
        sample.raw_buttons == packed(state.buttons),
{
    RawSample {
        left_stick: StickPoint {
            x: stick_axis(state.left_stick_raw.0),
            y: stick_axis(state.left_stick_raw.1),
        },
        right_stick: StickPoint {
            x: stick_axis(state.right_stick_raw.0),
            y: stick_axis(state.right_stick_raw.1),
        },
        left_trigger: ControllerTrigger {
            value: trigger_axis(state.left_trigger),
            has_pressure: true,
            is_pressed: state.left_trigger_bool,
        },
        right_trigger: ControllerTrigger {
            value: trigger_axis(state.right_trigger),
            has_pressure: true,
            is_pressed: state.right_trigger_bool,
        },
        raw_buttons: pack_buttons(&state.buttons),
    }
}

/// Turns what the gamepad-event library reads into a raw sample: the
/// buttons, and the sticks and triggers as it delivers them, already in the
/// range of a full deflection.
pub fn _poll_other_controllers(
    buttons: &ButtonReadings,
    left_stick: StickPoint,
    right_stick: StickPoint,
    left_trigger: i32,
    right_trigger: i32,
) -> (sample: RawSample)
    ensures
        sample.left_stick == left_stick,
        sample.right_stick == right_stick,
        sample.left_trigger == (ControllerTrigger {
            value: left_trigger,
            has_pressure: false,
            is_pressed: false,
        }),
        sample.right_trigger == (ControllerTrigger {
            value: right_trigger,
            has_pressure: false,
            is_pressed: false,
        }),
        sample.raw_buttons == packed(*buttons),
{
    RawSample {
        left_stick,
        right_stick,
        left_trigger: ControllerTrigger {
            value: left_trigger,
            has_pressure: false,
            is_pressed: false,
        },
        right_trigger: ControllerTrigger {
            value: right_trigger,
            has_pressure: false,
            is_pressed: false,
        },
        raw_buttons: pack_buttons(buttons),
    }
}

} // verus!
