//! Stick calibration: the record of one stick, the steps in which it is
//! taken, and the transform from a raw position to a calibrated one.

use vstd::prelude::*;
use crate::datas::StickPoint;
use crate::deadzone::{
    deadzone_from_percent, deadzone_of, lemma_circle_full_deflection, shape_circle,
    shape_circle_spec, shape_square, shape_square_spec,
};
use crate::fixed::{magnitude, scale_toward_zero, toward_zero};
use crate::units::UNIT;

verus! {

/// No coordinate scaled by a calibration lies farther from zero than this.
pub const WIDE: i64 = 0x10_0000_0000_0000;

/// How the deadzone of a stick is shaped.
#[derive(Clone, Copy, Debug, PartialEq, Eq, Structural)]
pub enum StickCaliMode {
    Circle,
    Square,
}

/// Step of the calibration of one stick.
#[derive(Clone, Copy, Debug, PartialEq, Eq, Structural)]
pub enum StickTestSteps {
    Idle,
    CenterCheck,
    RangeDetection,
    Complete,
}

/// The rectangle that a stick was seen to reach. Before any position has
/// been folded in, each lower edge is the largest number and each upper
/// edge the smallest.
#[derive(Clone, Copy, Debug, PartialEq, Eq, Structural)]
pub struct StickRange {
    pub x_min: i32,
    pub x_max: i32,
    pub y_min: i32,
    pub y_max: i32,
}

impl StickRange {
    /// The rectangle that no position has been folded into.
    pub open spec fn unseen() -> StickRange {
        StickRange { x_min: i32::MAX, x_max: i32::MIN, y_min: i32::MAX, y_max: i32::MIN }
    }

    /// Whether the rectangle shows that the stick was never calibrated.
    pub open spec fn untouched(self) -> bool {
        self.x_min == i32::MAX || self.x_max == i32::MIN
    }

    /// The rectangle with one more position folded in.
    pub open spec fn folded(self, x: i32, y: i32) -> StickRange {
        StickRange {
            x_min: if x < self.x_min {
                x
            } else {
                self.x_min
            },
            x_max: if x > self.x_max {
                x
            } else {
                self.x_max
            },
            y_min: if y < self.y_min {
                y
            } else {
                self.y_min
            },
            y_max: if y > self.y_max {
                y
            } else {
                self.y_max
            },
        }
    }

    /// A rectangle that no position has been folded into.
    pub fn new() -> (range: Self)
        ensures
            range == StickRange::unseen(),
            range.untouched(),
    {
        StickRange { x_min: i32::MAX, x_max: i32::MIN, y_min: i32::MAX, y_max: i32::MIN }
    }

    /// Forgets every position.
    pub fn reset(&mut self)
        ensures
            *final(self) == StickRange::unseen(),
    {
        *self = StickRange::new();
    }
}

/// The calibration record of one stick.
#[derive(Clone, Copy, Debug, PartialEq, Eq, Structural)]
pub struct StickCalibration {
    pub step: StickTestSteps,
    pub mode: StickCaliMode,
    /// Where the stick rests.
    pub stick_center: StickPoint,
    pub stick_range: StickRange,
}

impl StickCalibration {
    /// The record of a stick that was never calibrated.
    pub open spec fn blank() -> StickCalibration {
        StickCalibration {
            step: StickTestSteps::Idle,
            mode: StickCaliMode::Square,
            stick_center: StickPoint { x: 0, y: 0 },
            stick_range: StickRange::unseen(),
        }
    }

    /// The record of a stick that was never calibrated.
    pub fn new() -> (calibration: StickCalibration)
        ensures
            calibration == StickCalibration::blank(),
    {
        StickCalibration {
            step: StickTestSteps::Idle,
            mode: StickCaliMode::Square,
            stick_center: StickPoint { x: 0, y: 0 },
            stick_range: StickRange::new(),
        }
    }

    /// Goes back to the record of a stick that was never calibrated.
    pub fn reset(&mut self)
        ensures
            *final(self) == StickCalibration::blank(),
    {
        self.step = StickTestSteps::Idle;
        self.mode = StickCaliMode::Square;
        self.stick_center = StickPoint { x: 0, y: 0 };
        self.stick_range.reset();
    }

    /// Takes a position as the centre; the latest one counts.
    pub fn record_center(&mut self, x: i32, y: i32)
        ensures
            *final(self) == (StickCalibration { stick_center: StickPoint { x, y }, ..*old(self) }),
    {
        self.stick_center = StickPoint { x, y };
    }

    /// Folds a position into the rectangle that the stick reaches. From
    /// then on each lower edge is at most its upper edge.
    pub fn update_range(&mut self, x: i32, y: i32)
        ensures
            *final(self) == (StickCalibration {
                stick_range: old(self).stick_range.folded(x, y),
                ..*old(self)
            }),
            final(self).stick_range.x_min <= x <= final(self).stick_range.x_max,
            final(self).stick_range.y_min <= y <= final(self).stick_range.y_max,
    {
        if x < self.stick_range.x_min {
            self.stick_range.x_min = x;
        }
        if x > self.stick_range.x_max {
            self.stick_range.x_max = x;
        }
        if y < self.stick_range.y_min {
            self.stick_range.y_min = y;
        }
        if y > self.stick_range.y_max {
            self.stick_range.y_max = y;
        }
    }

    /// Puts the calibration at the given step.
    pub fn update_step_to(&mut self, step: StickTestSteps)
        ensures
            *final(self) == (StickCalibration { step, ..*old(self) }),
    {
        self.step = step;
    }
}

/// The calibration records of both sticks of a controller.
#[derive(Clone, Copy, Debug, PartialEq, Eq, Structural)]
pub struct ControllerCalibration {
    pub left_stick: StickCalibration,
    pub right_stick: StickCalibration,
}

impl ControllerCalibration {
    /// The records of a controller that was never calibrated.
    pub open spec fn blank() -> ControllerCalibration {
        ControllerCalibration {
            left_stick: StickCalibration::blank(),
            right_stick: StickCalibration::blank(),
        }
    }

    /// The records of a controller that was never calibrated.
    pub fn new() -> (calibration: Self)
        ensures
            calibration == ControllerCalibration::blank(),
    {
        ControllerCalibration {
            left_stick: StickCalibration::new(),
            right_stick: StickCalibration::new(),
        }
    }

    /// Goes back to the records of a controller that was never calibrated.
    pub fn reset(&mut self)
        ensures
            *final(self) == ControllerCalibration::blank(),
    {
        self.left_stick.reset();
        self.right_stick.reset();
    }
}

/// What is stored of the calibration of a controller.
#[derive(Clone, Copy, Debug, PartialEq, Eq, Structural)]
pub struct CalibrationFile {
    pub left_stick_calibration: StickCalibration,
    pub right_stick_calibration: StickCalibration,
}

/// A raw coordinate moved to the recorded centre and scaled by the recorded
/// half-range on its side of the centre, so that the recorded edge becomes
/// a full deflection. A half-range of zero gives zero.
pub open spec fn scaled_axis(v: int, center: int, min: int, max: int) -> int {
    let corrected = v - center;
    let half_range = if corrected > 0 {
        max - center
    } else {
        center - min
    };
    if corrected == 0 || half_range <= 0 {
        0
    } else {
        toward_zero(corrected * UNIT, half_range)
    }
}

/// The calibrated position of a raw position.
///
/// A stick that was never calibrated gives the raw position back. For any
/// other, each axis is scaled by its recorded half-range and the result is
/// shaped in the mode of the stick with the deadzone given in percent.
pub open spec fn apply_calibration_spec(
    x: int,
    y: int,
    deadzone_percent: u8,
    calibration: StickCalibration,
) -> (int, int) {
    if calibration.stick_range.untouched() {
        (x, y)
    } else {
        let sx = scaled_axis(
            x,
            calibration.stick_center.x as int,
            calibration.stick_range.x_min as int,
            calibration.stick_range.x_max as int,
        );
        let sy = scaled_axis(
            y,
            calibration.stick_center.y as int,
            calibration.stick_range.y_min as int,
            calibration.stick_range.y_max as int,
        );
        match calibration.mode {
            StickCaliMode::Circle => shape_circle_spec(sx, sy, deadzone_of(deadzone_percent) as int),
            StickCaliMode::Square => shape_square_spec(sx, sy, deadzone_of(deadzone_percent) as int),
        }
    }
}

fn scale_axis(v: i32, center: i32, min: i32, max: i32) -> (scaled: i64)
    ensures
        scaled == scaled_axis(v as int, center as int, min as int, max as int),
        -WIDE <= scaled <= WIDE,
{
    let corrected: i64 = v as i64 - center as i64;
    let half_range: i64 = if corrected > 0 {
        max as i64 - center as i64
    } else {
        center as i64 - min as i64
    };
    if corrected == 0 || half_range <= 0 {
        return 0;
    }
    let ghost distance = magnitude(corrected as int) as int;
    assert(distance * 1_000_000 / (half_range as int) <= WIDE) by (nonlinear_arith)
        requires
            0 <= distance <= 0xffff_ffff,
            half_range >= 1,
            WIDE == 0x10_0000_0000_0000,
    ;
    scale_toward_zero(corrected, 1_000_000, half_range as u64, WIDE)
}

/// Turns a raw stick position into the calibrated one.
///
/// A stick whose calibration was never taken passes the raw position
/// through unchanged, so that the controller can be used before any
/// calibration. A calibrated stick gives a position within a full
/// deflection on both axes.
pub fn apply_calibration(
    normalized_x: i32,
    normalized_y: i32,
    deadzone_percent: u8,
    calibration: &StickCalibration,
) -> (calibrated: (i32, i32))
    ensures
        (calibrated.0 as int, calibrated.1 as int) == apply_calibration_spec(
            normalized_x as int,
            normalized_y as int,
            deadzone_percent,
            *calibration,
        ),
        calibration.stick_range.untouched() ==> calibrated == (normalized_x, normalized_y),
        !calibration.stick_range.untouched() ==> -UNIT <= calibrated.0 <= UNIT && -UNIT
            <= calibrated.1 <= UNIT,
{
    if calibration.stick_range.x_min == i32::MAX || calibration.stick_range.x_max == i32::MIN {
        return (normalized_x, normalized_y);
    }
    let scaled_x = scale_axis(
        normalized_x,
        calibration.stick_center.x,
        calibration.stick_range.x_min,
        calibration.stick_range.x_max,
    );
    let scaled_y = scale_axis(
        normalized_y,
        calibration.stick_center.y,
        calibration.stick_range.y_min,
        calibration.stick_range.y_max,
    );
    let deadzone = deadzone_from_percent(deadzone_percent);
    match calibration.mode {
        StickCaliMode::Circle => shape_circle(scaled_x, scaled_y, deadzone),
        StickCaliMode::Square => shape_square(scaled_x, scaled_y, deadzone),
    }
}

/// Whether a raw position lies on a recorded edge of the calibration, on
/// the side of the centre on which that edge lies.
pub open spec fn on_recorded_edge(x: int, y: int, calibration: StickCalibration) -> bool {
    ||| (x == calibration.stick_range.x_max && x > calibration.stick_center.x)
    ||| (x == calibration.stick_range.x_min && x < calibration.stick_center.x)
    ||| (y == calibration.stick_range.y_max && y > calibration.stick_center.y)
    ||| (y == calibration.stick_range.y_min && y < calibration.stick_center.y)
}

/// A stick that was never calibrated passes every raw position through
/// unchanged.
pub proof fn lemma_uncalibrated_is_identity(
    x: int,
    y: int,
    deadzone_percent: u8,
    calibration: StickCalibration,
)
    requires
        calibration.stick_range.untouched(),
    ensures
        apply_calibration_spec(x, y, deadzone_percent, calibration) == (x, y),
{
}

/// A coordinate on its recorded edge is scaled to exactly a full
/// deflection.
pub proof fn lemma_edge_scales_to_full(v: int, center: int, min: int, max: int)
    ensures
        v == max && v > center ==> scaled_axis(v, center, min, max) == UNIT,
        v == min && v < center ==> scaled_axis(v, center, min, max) == -UNIT,
{
    if v == max && v > center {
        let half = max - center;
        assert(half * UNIT > 0 && (half * UNIT) / half == UNIT) by (nonlinear_arith)
            requires
                half > 0,
        ;
    }
    if v == min && v < center {
        let half = center - min;
        assert((v - center) * UNIT < 0 && -((v - center) * UNIT) == half * UNIT && (half * UNIT)
            / half == UNIT) by (nonlinear_arith)
            requires
                half > 0,
                v - center == -half,
        ;
    }
}

/// In circle mode, with a deadzone of less than the whole travel, a raw
/// position on a recorded edge of the calibration comes out on the unit
/// circle, up to the rounding of one unit on each axis.
pub proof fn lemma_recorded_edge_reaches_unit_circle(
    x: int,
    y: int,
    deadzone_percent: u8,
    calibration: StickCalibration,
)
    requires
        !calibration.stick_range.untouched(),
        calibration.mode == StickCaliMode::Circle,
        deadzone_percent < 100,
        on_recorded_edge(x, y, calibration),
    ensures
        ({
            let (cx, cy) = apply_calibration_spec(x, y, deadzone_percent, calibration);
            &&& cx * cx + cy * cy < (UNIT + 1) * (UNIT + 1)
            &&& (magnitude(cx) + 1) * (magnitude(cx) + 1) + (magnitude(cy) + 1) * (magnitude(cy)
                + 1) > UNIT * UNIT
        }),
{
    let c = calibration;
    let sx = scaled_axis(x, c.stick_center.x as int, c.stick_range.x_min as int, c.stick_range.x_max as int);
    let sy = scaled_axis(y, c.stick_center.y as int, c.stick_range.y_min as int, c.stick_range.y_max as int);
    lemma_edge_scales_to_full(x, c.stick_center.x as int, c.stick_range.x_min as int, c.stick_range.x_max as int);
    lemma_edge_scales_to_full(y, c.stick_center.y as int, c.stick_range.y_min as int, c.stick_range.y_max as int);
    assert(sx * sx + sy * sy >= UNIT * UNIT) by (nonlinear_arith)
        requires
            sx == UNIT || sx == -UNIT || sy == UNIT || sy == -UNIT,
    ;
    lemma_circle_full_deflection(sx, sy, deadzone_of(deadzone_percent) as int);
}

/// A calibration whose half-range is zero on the side on which a coordinate
/// lies gives zero for that coordinate instead of failing, in either mode.
pub proof fn lemma_degenerate_half_range_gives_zero(
    x: int,
    y: int,
    deadzone_percent: u8,
    calibration: StickCalibration,
)
    requires
        !calibration.stick_range.untouched(),
        x > calibration.stick_center.x ==> calibration.stick_range.x_max
            <= calibration.stick_center.x,
        x < calibration.stick_center.x ==> calibration.stick_range.x_min
            >= calibration.stick_center.x,
    ensures
        apply_calibration_spec(x, y, deadzone_percent, calibration).0 == 0,
{
    let c = calibration;
    let sx = scaled_axis(
        x,
        c.stick_center.x as int,
        c.stick_range.x_min as int,
        c.stick_range.x_max as int,
    );
    let sy = scaled_axis(
        y,
        c.stick_center.y as int,
        c.stick_range.y_min as int,
        c.stick_range.y_max as int,
    );
    assert(sx == 0);
    let d = deadzone_of(deadzone_percent) as int;
    let wanted = crate::deadzone::stretched(crate::deadzone::length(sx, sy), d);
    assert(sx * wanted == 0) by (nonlinear_arith)
        requires
            sx == 0,
    ;
}

} // verus!
