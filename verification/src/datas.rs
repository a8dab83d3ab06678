//! The canonical controller snapshot and its parts.
//!
//! Stick and trigger values are fixed-point numbers in which [`UNIT`] stands
//! for a full deflection.

use vstd::prelude::*;
use crate::units::UNIT;

verus! {

/// Turning direction that a stick reported at one tick.
#[derive(Clone, Copy, Debug, PartialEq, Eq, Structural)]
pub enum JoystickRotation {
    NoRotation,
    Clockwise,
    CounterClockwise,
}

impl Default for JoystickRotation {
    fn default() -> (rotation: Self)
        ensures
            rotation == JoystickRotation::NoRotation,
    {
        JoystickRotation::NoRotation
    }
}

/// A point in the plane of a stick.
#[derive(Clone, Copy, Debug, PartialEq, Eq, Structural)]
pub struct StickPoint {
    pub x: i32,
    pub y: i32,
}

/// Position of one stick.
#[derive(Clone, Copy, Debug, PartialEq, Eq, Structural)]
pub struct ControllerStick {
    pub x: i32,
    pub y: i32,
    /// Whether the stick is pushed in.
    pub is_pressed: bool,
}

/// Pressure on one analog trigger.
#[derive(Clone, Copy, Debug, PartialEq, Eq, Structural)]
pub struct ControllerTrigger {
    pub value: i32,
    /// Whether the device reports analog pressure for this trigger.
    pub has_pressure: bool,
    /// Whether the trigger counts as pressed.
    pub is_pressed: bool,
}

/// Ranges of the raw values that a transport delivers.
#[derive(Clone, Copy, Debug, PartialEq, Eq, Structural)]
pub struct ControllerLimits {
    pub sticks_value_min: i32,
    pub sticks_value_max: i32,
    pub triggers_value_min: i32,
    pub triggers_value_max: i32,
}

impl ControllerLimits {
    /// The ranges of a sixteen-bit stick and an eight-bit trigger.
    pub open spec fn raw_ranges() -> ControllerLimits {
        ControllerLimits {
            sticks_value_min: (-32768) as i32,
            sticks_value_max: 32767,
            triggers_value_min: 0,
            triggers_value_max: 255,
        }
    }

    /// Replaces all four limits.
    pub fn set_limits(
        &mut self,
        sticks_value_min: i32,
        sticks_value_max: i32,
        triggers_value_min: i32,
        triggers_value_max: i32,
    )
        ensures
            *final(self) == (ControllerLimits {
                sticks_value_min,
                sticks_value_max,
                triggers_value_min,
                triggers_value_max,
            }),
    {
        self.sticks_value_min = sticks_value_min;
        self.sticks_value_max = sticks_value_max;
        self.triggers_value_min = triggers_value_min;
        self.triggers_value_max = triggers_value_max;
    }
}

impl Default for ControllerLimits {
    fn default() -> (limits: Self)
        ensures
            limits == ControllerLimits::raw_ranges(),
    {
        ControllerLimits {
            sticks_value_min: -32768,
            sticks_value_max: 32767,
            triggers_value_min: 0,
            triggers_value_max: 255,
        }
    }
}

/// The logical buttons of a controller. The last six are not sampled but
/// derived: one per trigger once it passes its threshold, and two per stick
/// for a turn in either direction.
#[derive(Clone, Copy, Debug, PartialEq, Eq, Hash, Structural)]
pub enum ControllerButtons {
    South,
    East,
    West,
    North,
    LB,
    RB,
    LStick,
    RStick,
    Back,
    Start,
    Guide,
    Left,
    Right,
    Up,
    Down,
    LT,
    RT,
    LeftStickCW,
    LeftStickCCW,
    RightStickCW,
    RightStickCCW,
}

impl ControllerButtons {
    /// The place of the button's bit in the bitfield.
    pub open spec fn bit_spec(self) -> u32 {
        match self {
            ControllerButtons::South => 0,
            ControllerButtons::East => 1,
            ControllerButtons::West => 2,
            ControllerButtons::North => 3,
            ControllerButtons::LB => 4,
            ControllerButtons::RB => 5,
            ControllerButtons::LStick => 6,
            ControllerButtons::RStick => 7,
            ControllerButtons::Back => 8,
            ControllerButtons::Start => 9,
            ControllerButtons::Guide => 10,
            ControllerButtons::Left => 11,
            ControllerButtons::Right => 12,
            ControllerButtons::Up => 13,
            ControllerButtons::Down => 14,
            ControllerButtons::LT => 15,
            ControllerButtons::RT => 16,
            ControllerButtons::LeftStickCW => 17,
            ControllerButtons::LeftStickCCW => 18,
            ControllerButtons::RightStickCW => 19,
            ControllerButtons::RightStickCCW => 20,
        }
    }

    /// The place of the button's bit in the bitfield.
    pub fn bit(self) -> (place: u32)
        ensures
            place == self.bit_spec(),
            place < 21,
    {
        match self {
            ControllerButtons::South => 0,
            ControllerButtons::East => 1,
            ControllerButtons::West => 2,
            ControllerButtons::North => 3,
            ControllerButtons::LB => 4,
            ControllerButtons::RB => 5,
            ControllerButtons::LStick => 6,
            ControllerButtons::RStick => 7,
            ControllerButtons::Back => 8,
            ControllerButtons::Start => 9,
            ControllerButtons::Guide => 10,
            ControllerButtons::Left => 11,
            ControllerButtons::Right => 12,
            ControllerButtons::Up => 13,
            ControllerButtons::Down => 14,
            ControllerButtons::LT => 15,
            ControllerButtons::RT => 16,
            ControllerButtons::LeftStickCW => 17,
            ControllerButtons::LeftStickCCW => 18,
            ControllerButtons::RightStickCW => 19,
            ControllerButtons::RightStickCCW => 20,
        }
    }
}

/// Whether bit `place` of `bits` is set.
pub open spec fn bit_is_set(bits: u32, place: u32) -> bool {
    bits & (1u32 << place) != 0
}

/// `bits` with bit `place` set or cleared.
pub open spec fn with_bit(bits: u32, place: u32, value: bool) -> u32 {
    if value {
        bits | (1u32 << place)
    } else {
        bits & !(1u32 << place)
    }
}

/// Writing one bit makes that bit read as written and leaves every other
/// bit as it was.
pub proof fn lemma_bits_independent(bits: u32, place: u32, value: bool, other: u32)
    requires
        place < 32,
        other < 32,
    ensures
        bit_is_set(with_bit(bits, place, value), other) == if other == place {
            value
        } else {
            bit_is_set(bits, other)
        },
{
    if value {
        assert((bits | (1u32 << place)) & (1u32 << place) != 0) by (bit_vector)
            requires
                place < 32,
        ;
        assert(other != place ==> (((bits | (1u32 << place)) & (1u32 << other) != 0) == (bits & (
        1u32 << other) != 0))) by (bit_vector)
            requires
                place < 32,
                other < 32,
        ;
    } else {
        assert((bits & !(1u32 << place)) & (1u32 << place) == 0) by (bit_vector)
            requires
                place < 32,
        ;
        assert(other != place ==> (((bits & !(1u32 << place)) & (1u32 << other) != 0) == (bits & (
        1u32 << other) != 0))) by (bit_vector)
            requires
                place < 32,
                other < 32,
        ;
    }
}

/// The canonical state of a controller at one tick.
#[derive(Clone, Copy, Debug, PartialEq, Eq, Structural)]
pub struct ControllerDatas {
    /// One bit per logical button, at the place that `ControllerButtons::bit`
    /// gives.
    pub buttons: u32,
    pub left_stick: ControllerStick,
    pub right_stick: ControllerStick,
    pub left_trigger: ControllerTrigger,
    pub right_trigger: ControllerTrigger,
    pub left_stick_rotation: JoystickRotation,
    pub right_stick_rotation: JoystickRotation,
    pub left_stick_center: StickPoint,
    pub right_stick_center: StickPoint,
    pub limits: ControllerLimits,
}

impl ControllerDatas {
    /// The snapshot of a controller at rest.
    pub open spec fn at_rest() -> ControllerDatas {
        ControllerDatas {
            buttons: 0,
            left_stick: ControllerStick { x: 0, y: 0, is_pressed: false },
            right_stick: ControllerStick { x: 0, y: 0, is_pressed: false },
            left_trigger: ControllerTrigger { value: 0, has_pressure: false, is_pressed: false },
            right_trigger: ControllerTrigger { value: 0, has_pressure: false, is_pressed: false },
            left_stick_rotation: JoystickRotation::NoRotation,
            right_stick_rotation: JoystickRotation::NoRotation,
            left_stick_center: StickPoint { x: 0, y: 0 },
            right_stick_center: StickPoint { x: 0, y: 0 },
            limits: ControllerLimits {
                sticks_value_min: (-UNIT) as i32,
                sticks_value_max: UNIT,
                triggers_value_min: 0,
                triggers_value_max: 255,
            },
        }
    }

    /// Whether `button` is down in this snapshot.
    pub open spec fn pressed(self, button: ControllerButtons) -> bool {
        bit_is_set(self.buttons, button.bit_spec())
    }

    /// Whether both sticks lie within a full deflection on each axis and both
    /// triggers between rest and full pressure.
    pub open spec fn in_range(self) -> bool {
        &&& -UNIT <= self.left_stick.x <= UNIT
        &&& -UNIT <= self.left_stick.y <= UNIT
        &&& -UNIT <= self.right_stick.x <= UNIT
        &&& -UNIT <= self.right_stick.y <= UNIT
        &&& 0 <= self.left_trigger.value <= UNIT
        &&& 0 <= self.right_trigger.value <= UNIT
    }

    /// A snapshot of a controller at rest.
    pub fn new() -> (datas: ControllerDatas)
        ensures
            datas == ControllerDatas::at_rest(),
            datas.in_range(),
            forall|button: ControllerButtons| !datas.pressed(button),
    {
        assert forall|button: ControllerButtons|
            !ControllerDatas::at_rest().pressed(button) by {
            let place = button.bit_spec();
            assert(0u32 & (1u32 << place) == 0) by (bit_vector);
        }
        ControllerDatas {
            buttons: 0,
            left_stick: ControllerStick { x: 0, y: 0, is_pressed: false },
            right_stick: ControllerStick { x: 0, y: 0, is_pressed: false },
            left_trigger: ControllerTrigger { value: 0, has_pressure: false, is_pressed: false },
            right_trigger: ControllerTrigger { value: 0, has_pressure: false, is_pressed: false },
            left_stick_rotation: JoystickRotation::NoRotation,
            right_stick_rotation: JoystickRotation::NoRotation,
            left_stick_center: StickPoint { x: 0, y: 0 },
            right_stick_center: StickPoint { x: 0, y: 0 },
            limits: ControllerLimits {
                sticks_value_min: -UNIT,
                sticks_value_max: UNIT,
                triggers_value_min: 0,
                triggers_value_max: 255,
            },
        }
    }

    fn set_button_bit(&mut self, bit: u32, value: bool)
        requires
            bit < 32,
        ensures
            *final(self) == (ControllerDatas {
                buttons: with_bit(old(self).buttons, bit, value),
                ..*old(self)
            }),
    {
        if value {
            self.buttons = self.buttons | (1u32 << bit);
        } else {
            self.buttons = self.buttons & !(1u32 << bit);
        }
    }

    /// Sets or clears `button`; every other button stays as it was.
    pub fn set_button(&mut self, button: ControllerButtons, is_pressed: bool)
        ensures
            *final(self) == (ControllerDatas {
                buttons: with_bit(old(self).buttons, button.bit_spec(), is_pressed),
                ..*old(self)
            }),
            forall|other: ControllerButtons|
                final(self).pressed(other) == if other == button {
                    is_pressed
                } else {
                    old(self).pressed(other)
                },
    {
        let ghost before = self.buttons;
        self.set_button_bit(button.bit(), is_pressed);
        assert forall|other: ControllerButtons|
            self.pressed(other) == if other == button {
                is_pressed
            } else {
                bit_is_set(before, other.bit_spec())
            } by {
            lemma_bits_independent(before, button.bit_spec(), is_pressed, other.bit_spec());
        }
    }

    fn get_button_bit(&self, bit: u32) -> (set: bool)
        requires
            bit < 32,
        ensures
            set == bit_is_set(self.buttons, bit),
    {
        (self.buttons & (1u32 << bit)) != 0
    }

    /// Says whether `button` is down.
    pub fn get_button(&self, button: ControllerButtons) -> (down: bool)
        ensures
            down == self.pressed(button),
    {
        self.get_button_bit(button.bit())
    }

    /// Says whether `button` is down.
    pub fn button_is_pressed(&self, button: ControllerButtons) -> (down: bool)
        ensures
            down == self.pressed(button),
    {
        self.get_button(button)
    }

    /// The buttons and the six analog values of this snapshot.
    pub fn as_compact(self) -> (compact: CompactControllerDatas)
        ensures
            compact.buttons == self.buttons,
            compact.pressure == self.pressure_spec(),
    {
        CompactControllerDatas { buttons: self.buttons, pressure: self.as_compact_pressure() }
    }

    /// The six analog values of this snapshot.
    pub open spec fn pressure_spec(self) -> CompactPressureDatas {
        CompactPressureDatas {
            left_stick_x: self.left_stick.x,
            left_stick_y: self.left_stick.y,
            right_stick_x: self.right_stick.x,
            right_stick_y: self.right_stick.y,
            left_trigger: self.left_trigger.value,
            right_trigger: self.right_trigger.value,
        }
    }

    /// The six analog values of this snapshot.
    pub fn as_compact_pressure(self) -> (pressure: CompactPressureDatas)
        ensures
            pressure == self.pressure_spec(),
    {
        CompactPressureDatas {
            left_stick_x: self.left_stick.x,
            left_stick_y: self.left_stick.y,
            right_stick_x: self.right_stick.x,
            right_stick_y: self.right_stick.y,
            left_trigger: self.left_trigger.value,
            right_trigger: self.right_trigger.value,
        }
    }
}

/// The analog values of a snapshot.
#[derive(Clone, Copy, Debug, PartialEq, Eq, Structural)]
pub struct CompactPressureDatas {
    pub left_stick_x: i32,
    pub left_stick_y: i32,
    pub right_stick_x: i32,
    pub right_stick_y: i32,
    pub left_trigger: i32,
    pub right_trigger: i32,
}

impl CompactPressureDatas {
    /// All six values at rest.
    pub fn new() -> (pressure: CompactPressureDatas)
        ensures
            pressure == ControllerDatas::at_rest().pressure_spec(),
    {
        CompactPressureDatas {
            left_stick_x: 0,
            left_stick_y: 0,
            right_stick_x: 0,
            right_stick_y: 0,
            left_trigger: 0,
            right_trigger: 0,
        }
    }
}

/// The part of a snapshot that is sent on when it changes.
#[derive(Clone, Copy, Debug, PartialEq, Eq, Structural)]
pub struct CompactControllerDatas {
    pub buttons: u32,
    pub pressure: CompactPressureDatas,
}

impl CompactControllerDatas {
    /// No button down and all analog values at rest.
    pub fn new() -> (compact: CompactControllerDatas)
        ensures
            compact.buttons == 0,
            compact.pressure == ControllerDatas::at_rest().pressure_spec(),
    {
        CompactControllerDatas { buttons: 0, pressure: CompactPressureDatas::new() }
    }
}

} // verus!
