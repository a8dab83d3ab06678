//! The canonical state builder: from the raw sample of a transport to the
//! canonical snapshot of a tick.
//!
//! Every stick position that reaches the snapshot has been through the
//! deadzone of the preset exactly once. For a calibrated stick the
//! calibration transform shapes it, in the mode of the calibration. A stick
//! that was never calibrated has no mode; its raw position is shaped in
//! circle mode.

use vstd::prelude::*;
use crate::calibrate::{
    apply_calibration, apply_calibration_spec, ControllerCalibration, StickCalibration,
};
use crate::datas::{
    bit_is_set, CompactControllerDatas, ControllerButtons, ControllerDatas, ControllerStick,
    ControllerTrigger, StickPoint,
};
use crate::deadzone::{
    apply_deadzone_for_stick, deadzone_from_percent, deadzone_of, shape_circle_spec,
};
use crate::fixed::{scale_toward_zero, toward_zero};
use crate::preset::{Preset, PresetItemsView};
use crate::units::{clamp_i32, clamp_spec, UNIT};

verus! {

/// The bits of the buttons that a transport samples.
pub const SAMPLED_BUTTONS: u32 = 0x7fff;

/// The bits of the two buttons that are derived from the analog triggers.
pub const TRIGGER_BUTTONS: u32 = 0x1_8000;

/// What a transport delivers at one tick: stick positions and trigger
/// pressures already brought to the range of a full deflection, and the
/// sampled buttons as a bitfield.
#[derive(Clone, Copy, Debug, PartialEq, Eq, Structural)]
pub struct RawSample {
    pub left_stick: StickPoint,
    pub right_stick: StickPoint,
    pub left_trigger: ControllerTrigger,
    pub right_trigger: ControllerTrigger,
    pub raw_buttons: u32,
}

/// Brings a raw value from the range of its source to a target range, in
/// proportion. A source range without extent gives nothing.
pub open spec fn normalize_spec(
    value: int,
    source_min: int,
    source_max: int,
    target_min: int,
    target_max: int,
) -> Option<int> {
    if source_max == source_min {
        None
    } else if source_max > source_min {
        Some(
            toward_zero((value - source_min) * (target_max - target_min), source_max - source_min)
                + target_min,
        )
    } else {
        Some(
            toward_zero(-((value - source_min) * (target_max - target_min)), source_min - source_max)
                + target_min,
        )
    }
}

/// Brings a raw value from the range of its source to a target range, in
/// proportion, rounding toward the lower end of the target range for values
/// inside the source range.
pub fn normalize(
    value: i16,
    source_min: i16,
    source_max: i16,
    target_min: i32,
    target_max: i32,
) -> (scaled: Option<i64>)
    ensures
        scaled.is_some() == (source_max != source_min),
        match scaled {
            Some(v) => Some(v as int) == normalize_spec(
                value as int,
                source_min as int,
                source_max as int,
                target_min as int,
                target_max as int,
            ),
            None => true,
        },
{
    if source_max == source_min {
        return None;
    }
    let offset: i64 = value as i64 - source_min as i64;
    let span: i64 = target_max as i64 - target_min as i64;
    assert(-0x1_0000 * 0x1_0000_0000 <= offset * span <= 0x1_0000 * 0x1_0000_0000)
        by (nonlinear_arith)
        requires
            -0x1_0000 <= offset <= 0x1_0000,
            -0x1_0000_0000 <= span <= 0x1_0000_0000,
    ;
    let product: i64 = offset * span;
    let bound: i64 = 0x1_0000_0000_0000;
    if source_max > source_min {
        let extent: u64 = (source_max as i64 - source_min as i64) as u64;
        let ghost distance = crate::fixed::magnitude(product as int) as int;
        assert(distance * 1 / (extent as int) <= bound) by (nonlinear_arith)
            requires
                0 <= distance <= 0x1_0000_0000_0000,
                extent >= 1,
                bound == 0x1_0000_0000_0000,
        ;
        assert(product * 1 == product) by (nonlinear_arith);
        Some(scale_toward_zero(product, 1, extent, bound) + target_min as i64)
    } else {
        let extent: u64 = (source_min as i64 - source_max as i64) as u64;
        let negated: i64 = -product;
        let ghost distance = crate::fixed::magnitude(negated as int) as int;
        assert(distance * 1 / (extent as int) <= bound) by (nonlinear_arith)
            requires
                0 <= distance <= 0x1_0000_0000_0000,
                extent >= 1,
                bound == 0x1_0000_0000_0000,
        ;
        assert(negated * 1 == negated) by (nonlinear_arith);
        Some(scale_toward_zero(negated, 1, extent, bound) + target_min as i64)
    }
}

/// The calibrated positions of both sticks: the left one with the left
/// deadzone of the preset, the right one with the other.
pub open spec fn calibrated_sticks(
    raw_left: StickPoint,
    raw_right: StickPoint,
    items: PresetItemsView,
    calibration: ControllerCalibration,
) -> (int, int, int, int) {
    let left = apply_calibration_spec(
        raw_left.x as int,
        raw_left.y as int,
        items.deadzone_left,
        calibration.left_stick,
    );
    let right = apply_calibration_spec(
        raw_right.x as int,
        raw_right.y as int,
        items.deadzone,
        calibration.right_stick,
    );
    (left.0, left.1, right.0, right.1)
}

/// Calibrates the raw positions of both sticks. A stick that was never
/// calibrated keeps its raw position; a calibrated one comes to lie within
/// a full deflection.
pub fn get_calibrated_stick_values(
    raw_lx: i32,
    raw_ly: i32,
    raw_rx: i32,
    raw_ry: i32,
    preset: &Preset,
    cali_data: &ControllerCalibration,
) -> (sticks: (i32, i32, i32, i32))
    ensures
        (sticks.0 as int, sticks.1 as int, sticks.2 as int, sticks.3 as int) == calibrated_sticks(
            StickPoint { x: raw_lx, y: raw_ly },
            StickPoint { x: raw_rx, y: raw_ry },
            preset@.items,
            *cali_data,
        ),
        !cali_data.left_stick.stick_range.untouched() ==> -UNIT <= sticks.0 <= UNIT && -UNIT
            <= sticks.1 <= UNIT,
        !cali_data.right_stick.stick_range.untouched() ==> -UNIT <= sticks.2 <= UNIT && -UNIT
            <= sticks.3 <= UNIT,
{
    let left = apply_calibration(raw_lx, raw_ly, preset.items.deadzone_left, &cali_data.left_stick);
    let right = apply_calibration(raw_rx, raw_ry, preset.items.deadzone, &cali_data.right_stick);
    (left.0, left.1, right.0, right.1)
}

/// The position of one stick that a tick works on.
///
/// A stick that was never calibrated gives its raw position shaped in
/// circle mode with the deadzone given in percent. A calibrated stick gives
/// what the calibration transform makes of the raw position, which shapes
/// it with the same deadzone in the mode of the calibration.
pub open spec fn resolved_stick(
    x: int,
    y: int,
    deadzone_percent: u8,
    calibration: StickCalibration,
) -> (int, int) {
    if calibration.stick_range.untouched() {
        shape_circle_spec(x, y, deadzone_of(deadzone_percent) as int)
    } else {
        apply_calibration_spec(x, y, deadzone_percent, calibration)
    }
}

/// The positions of both sticks that a tick works on: the left one with
/// the left deadzone of the preset, the right one with the other.
pub open spec fn resolved_sticks(
    raw_left: StickPoint,
    raw_right: StickPoint,
    items: PresetItemsView,
    calibration: ControllerCalibration,
) -> (int, int, int, int) {
    let left = resolved_stick(
        raw_left.x as int,
        raw_left.y as int,
        items.deadzone_left,
        calibration.left_stick,
    );
    let right = resolved_stick(
        raw_right.x as int,
        raw_right.y as int,
        items.deadzone,
        calibration.right_stick,
    );
    (left.0, left.1, right.0, right.1)
}

/// Shapes a position in circle mode where the stick was never calibrated,
/// and leaves it as it is where the calibration has shaped it already.
fn shape_uncalibrated(
    x: i32,
    y: i32,
    deadzone_percent: u8,
    calibration: &StickCalibration,
) -> (shaped: (i32, i32))
    ensures
        (shaped.0 as int, shaped.1 as int) == if calibration.stick_range.untouched() {
            shape_circle_spec(x as int, y as int, deadzone_of(deadzone_percent) as int)
        } else {
            (x as int, y as int)
        },
        calibration.stick_range.untouched() ==> -UNIT <= shaped.0 <= UNIT && -UNIT <= shaped.1
            <= UNIT,
{
    if calibration.stick_range.x_min == i32::MAX || calibration.stick_range.x_max == i32::MIN {
        let mut stick = ControllerStick { x, y, is_pressed: false };
        apply_deadzone_for_stick(&mut stick, deadzone_from_percent(deadzone_percent));
        (stick.x, stick.y)
    } else {
        (x, y)
    }
}

/// Calibrates and shapes the raw positions of both sticks. Every
/// coordinate of the result lies within a full deflection.
pub fn resolve_sticks(
    raw_left: StickPoint,
    raw_right: StickPoint,
    preset: &Preset,
    cali_data: &ControllerCalibration,
) -> (sticks: (i32, i32, i32, i32))
    ensures
        (sticks.0 as int, sticks.1 as int, sticks.2 as int, sticks.3 as int) == resolved_sticks(
            raw_left,
            raw_right,
            preset@.items,
            *cali_data,
        ),
        -UNIT <= sticks.0 <= UNIT,
        -UNIT <= sticks.1 <= UNIT,
        -UNIT <= sticks.2 <= UNIT,
        -UNIT <= sticks.3 <= UNIT,
{
    let calibrated = get_calibrated_stick_values(
        raw_left.x,
        raw_left.y,
        raw_right.x,
        raw_right.y,
        preset,
        cali_data,
    );
    let left = shape_uncalibrated(
        calibrated.0,
        calibrated.1,
        preset.items.deadzone_left,
        &cali_data.left_stick,
    );
    let right = shape_uncalibrated(
        calibrated.2,
        calibrated.3,
        preset.items.deadzone,
        &cali_data.right_stick,
    );
    (left.0, left.1, right.0, right.1)
}

/// A stick that was never calibrated still has its deadzone: a raw
/// position nearer to the centre than the deadzone of the preset is
/// resolved to the centre.
pub proof fn lemma_deadzone_holds_without_calibration(
    x: int,
    y: int,
    deadzone_percent: u8,
    calibration: StickCalibration,
)
    requires
        calibration.stick_range.untouched(),
        x * x + y * y < deadzone_of(deadzone_percent) * deadzone_of(deadzone_percent),
    ensures
        resolved_stick(x, y, deadzone_percent, calibration) == (0int, 0int),
{
}

/// A trigger with its pressure cut off at rest and at full pressure.
pub open spec fn trigger_in_range(trigger: ControllerTrigger) -> ControllerTrigger {
    ControllerTrigger { value: clamp_spec(trigger.value as int, 0, UNIT as int) as i32, ..trigger }
}

/// The snapshot of a tick before rotation and dispatch.
///
/// The sampled buttons come from the raw sample, the two trigger buttons
/// stay as the previous tick left them, and the turn buttons are clear. The
/// sticks take the calibrated positions, cut off at a full deflection, and
/// are pushed in exactly when their button is down. Everything else is as
/// in the previous snapshot.
pub open spec fn snapshot_of(
    raw: RawSample,
    sticks: (int, int, int, int),
    previous: ControllerDatas,
) -> ControllerDatas {
    let buttons = (raw.raw_buttons & SAMPLED_BUTTONS) | (previous.buttons & TRIGGER_BUTTONS);
    ControllerDatas {
        buttons,
        left_stick: ControllerStick {
            x: clamp_spec(sticks.0, -UNIT, UNIT as int) as i32,
            y: clamp_spec(sticks.1, -UNIT, UNIT as int) as i32,
            is_pressed: bit_is_set(buttons, ControllerButtons::LStick.bit_spec()),
        },
        right_stick: ControllerStick {
            x: clamp_spec(sticks.2, -UNIT, UNIT as int) as i32,
            y: clamp_spec(sticks.3, -UNIT, UNIT as int) as i32,
            is_pressed: bit_is_set(buttons, ControllerButtons::RStick.bit_spec()),
        },
        left_trigger: trigger_in_range(raw.left_trigger),
        right_trigger: trigger_in_range(raw.right_trigger),
        ..previous
    }
}

/// Builds the snapshot of a tick from the raw sample and the calibrated
/// stick positions. The sticks and triggers of the result lie within a
/// full deflection.
pub fn build_snapshot(
    raw: &RawSample,
    sticks: (i32, i32, i32, i32),
    previous: &ControllerDatas,
) -> (datas: ControllerDatas)
    ensures
        datas == snapshot_of(
            *raw,
            (sticks.0 as int, sticks.1 as int, sticks.2 as int, sticks.3 as int),
            *previous,
        ),
        datas.in_range(),
{
    let buttons: u32 = (raw.raw_buttons & SAMPLED_BUTTONS) | (previous.buttons & TRIGGER_BUTTONS);
    let mut datas = *previous;
    datas.buttons = buttons;
    let left_pressed = datas.get_button(ControllerButtons::LStick);
    let right_pressed = datas.get_button(ControllerButtons::RStick);
    datas.left_stick = ControllerStick {
        x: clamp_i32(sticks.0, -1_000_000, 1_000_000),
        y: clamp_i32(sticks.1, -1_000_000, 1_000_000),
        is_pressed: left_pressed,
    };
    datas.right_stick = ControllerStick {
        x: clamp_i32(sticks.2, -1_000_000, 1_000_000),
        y: clamp_i32(sticks.3, -1_000_000, 1_000_000),
        is_pressed: right_pressed,
    };
    datas.left_trigger = ControllerTrigger {
        value: clamp_i32(raw.left_trigger.value, 0, 1_000_000),
        has_pressure: raw.left_trigger.has_pressure,
        is_pressed: raw.left_trigger.is_pressed,
    };
    datas.right_trigger = ControllerTrigger {
        value: clamp_i32(raw.right_trigger.value, 0, 1_000_000),
        has_pressure: raw.right_trigger.has_pressure,
        is_pressed: raw.right_trigger.is_pressed,
    };
    datas
}

/// Says what is to be sent on for a snapshot: its compact form where it
/// differs from the previous snapshot, which it then replaces, and nothing
/// where it does not.
pub fn pack_and_send_data(
    controller_data: &ControllerDatas,
    prev_controller_data: &mut ControllerDatas,
) -> (update: Option<CompactControllerDatas>)
    ensures
        *final(prev_controller_data) == *controller_data,
        *controller_data == *old(prev_controller_data) ==> update is None,
        *controller_data != *old(prev_controller_data) ==> update == Some(
            CompactControllerDatas {
                buttons: controller_data.buttons,
                pressure: controller_data.pressure_spec(),
            },
        ),
{
    if *controller_data == *prev_controller_data {
        return None;
    }
    *prev_controller_data = *controller_data;
    Some(controller_data.as_compact())
}

} // verus!
