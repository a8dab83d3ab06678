//! The deadzone shaper: stick positions near the centre become zero, and
//! the rest of the travel is stretched to the full range.
//!
//! Positions and the deadzone are fixed-point numbers in which [`UNIT`]
//! stands for a full deflection. A deadzone of a full deflection or more
//! lets nothing through.

use vstd::prelude::*;
use crate::datas::{ControllerDatas, ControllerStick};
use crate::fixed::{
    abs_i64, floor_sqrt, isqrt, lemma_floor_sqrt, lemma_floor_sqrt_order, magnitude,
    scale_toward_zero, toward_zero,
};
use crate::units::UNIT;

verus! {

/// One hundredth of a full deflection: the step of a deadzone given in
/// percent.
pub const PERCENT: u32 = 10_000;

/// The deadzone that a percentage stands for.
pub open spec fn deadzone_of(percent: u8) -> u32 {
    (percent * PERCENT) as u32
}

/// The deadzone that a percentage stands for.
pub fn deadzone_from_percent(percent: u8) -> (deadzone: u32)
    ensures
        deadzone == deadzone_of(percent),
{
    (percent as u32) * PERCENT
}

/// The length of a vector, rounded down.
pub open spec fn length(x: int, y: int) -> int {
    floor_sqrt((x * x + y * y) as nat) as int
}

/// A length outside the deadzone stretched from the travel between the
/// deadzone and a full deflection onto the travel between zero and a full
/// deflection, and cut off at a full deflection.
pub open spec fn stretched(length: int, deadzone: int) -> int {
    let scaled = (length - deadzone) * UNIT / (UNIT - deadzone);
    if scaled > UNIT {
        UNIT as int
    } else {
        scaled
    }
}

/// Circle-mode shaping: a vector shorter than the deadzone becomes zero;
/// any other keeps its direction and gets the stretched length, which is at
/// most a full deflection.
pub open spec fn shape_circle_spec(x: int, y: int, deadzone: int) -> (int, int) {
    let len = length(x, y);
    if x * x + y * y < deadzone * deadzone || deadzone >= UNIT || len == 0 {
        (0, 0)
    } else {
        let wanted = stretched(len, deadzone);
        (toward_zero(x * wanted, len), toward_zero(y * wanted, len))
    }
}

/// Shaping of one axis by itself: a value nearer to zero than the deadzone
/// becomes zero; any other keeps its sign and gets the stretched distance.
pub open spec fn shape_axis_spec(v: int, deadzone: int) -> int {
    if magnitude(v) < deadzone || deadzone >= UNIT {
        0
    } else if v >= 0 {
        stretched(magnitude(v) as int, deadzone)
    } else {
        -stretched(magnitude(v) as int, deadzone)
    }
}

/// Square-mode shaping: each axis by itself, so that a diagonal can reach a
/// full deflection on both axes at once.
pub open spec fn shape_square_spec(x: int, y: int, deadzone: int) -> (int, int) {
    (shape_axis_spec(x, deadzone), shape_axis_spec(y, deadzone))
}

proof fn lemma_stretched_bounds(length: int, deadzone: int)
    requires
        0 <= deadzone <= length,
        deadzone < UNIT,
    ensures
        0 <= stretched(length, deadzone) <= UNIT,
        deadzone == 0 && length <= UNIT ==> stretched(length, deadzone) == length,
        length >= UNIT ==> stretched(length, deadzone) == UNIT,
{
    let span = UNIT - deadzone;
    let scaled = (length - deadzone) * UNIT / span;
    assert(scaled >= 0) by (nonlinear_arith)
        requires
            length - deadzone >= 0,
            span > 0,
            scaled == (length - deadzone) * UNIT / span,
    ;
    if deadzone == 0 {
        assert(length * UNIT / (UNIT as int) == length) by (nonlinear_arith);
    }
    if length >= UNIT {
        assert((length - deadzone) * UNIT / span >= UNIT) by (nonlinear_arith)
            requires
                length - deadzone >= span,
                span > 0,
        ;
    }
}

fn stretch(length: u64, deadzone: u32) -> (wanted: u64)
    requires
        deadzone <= length,
        deadzone < UNIT,
    ensures
        wanted == stretched(length as int, deadzone as int),
        wanted <= UNIT,
{
    proof {
        lemma_stretched_bounds(length as int, deadzone as int);
    }
    let over: u64 = length - deadzone as u64;
    assert(over * 1_000_000 <= u64::MAX * 1_000_000) by (nonlinear_arith)
        requires
            0 <= over <= u64::MAX,
    ;
    let product: u128 = (over as u128) * 1_000_000u128;
    let span: u128 = (1_000_000u32 - deadzone) as u128;
    let scaled: u128 = product / span;
    if scaled > 1_000_000u128 {
        1_000_000u64
    } else {
        scaled as u64
    }
}

/// Shapes a vector in circle mode.
pub fn shape_circle(x: i64, y: i64, deadzone: u32) -> (shaped: (i32, i32))
    ensures
        (shaped.0 as int, shaped.1 as int) == shape_circle_spec(x as int, y as int, deadzone as int),
        -UNIT <= shaped.0 <= UNIT,
        -UNIT <= shaped.1 <= UNIT,
{
    let ax = abs_i64(x);
    let ay = abs_i64(y);
    assert(ax * ax <= 0x8000_0000_0000_0000 * 0x8000_0000_0000_0000 && ay * ay
        <= 0x8000_0000_0000_0000 * 0x8000_0000_0000_0000) by (nonlinear_arith)
        requires
            0 <= ax <= 0x8000_0000_0000_0000,
            0 <= ay <= 0x8000_0000_0000_0000,
    ;
    assert(ax * ax == x * x && ay * ay == y * y) by (nonlinear_arith)
        requires
            ax == x || ax == -x,
            ay == y || ay == -y,
    ;
    let sum: u128 = (ax as u128) * (ax as u128) + (ay as u128) * (ay as u128);
    assert(deadzone * deadzone <= u32::MAX * u32::MAX) by (nonlinear_arith)
        requires
            0 <= deadzone <= u32::MAX,
    ;
    let edge: u128 = (deadzone as u128) * (deadzone as u128);
    if sum < edge || deadzone >= 1_000_000u32 {
        return (0, 0);
    }
    let len = isqrt(sum);
    if len == 0 {
        return (0, 0);
    }
    proof {
        lemma_floor_sqrt_order(sum as nat, deadzone as nat);
        lemma_floor_sqrt_order(sum as nat, ax as nat);
        lemma_floor_sqrt_order(sum as nat, ay as nat);
        assert(ax * ax <= sum && ay * ay <= sum) by (nonlinear_arith)
            requires
                sum == ax * ax + ay * ay,
        ;
    }
    let wanted = stretch(len, deadzone);
    assert(ax * wanted / (len as int) <= UNIT && ay * wanted / (len as int) <= UNIT)
        by (nonlinear_arith)
        requires
            0 <= ax <= len,
            0 <= ay <= len,
            0 <= wanted <= UNIT,
            len > 0,
    ;
    let sx = scale_toward_zero(x, wanted, len, 1_000_000);
    let sy = scale_toward_zero(y, wanted, len, 1_000_000);
    (sx as i32, sy as i32)
}

/// Shapes one axis by itself.
pub fn shape_axis(v: i64, deadzone: u32) -> (shaped: i32)
    ensures
        shaped == shape_axis_spec(v as int, deadzone as int),
        -UNIT <= shaped <= UNIT,
{
    let distance = abs_i64(v);
    if distance < deadzone as u64 || deadzone >= 1_000_000u32 {
        return 0;
    }
    let wanted = stretch(distance, deadzone);
    if v >= 0 {
        wanted as i32
    } else {
        -(wanted as i32)
    }
}

/// Shapes a vector in square mode.
pub fn shape_square(x: i64, y: i64, deadzone: u32) -> (shaped: (i32, i32))
    ensures
        (shaped.0 as int, shaped.1 as int) == shape_square_spec(x as int, y as int, deadzone as int),
        -UNIT <= shaped.0 <= UNIT,
        -UNIT <= shaped.1 <= UNIT,
{
    (shape_axis(x, deadzone), shape_axis(y, deadzone))
}

/// Shapes the position of a stick in circle mode. Whether the stick is
/// pushed in stays as it was.
pub fn apply_deadzone_for_stick(controller_stick: &mut ControllerStick, deadzone: u32)
    ensures
        (final(controller_stick).x as int, final(controller_stick).y as int) == shape_circle_spec(
            old(controller_stick).x as int,
            old(controller_stick).y as int,
            deadzone as int,
        ),
        final(controller_stick).is_pressed == old(controller_stick).is_pressed,
        -UNIT <= final(controller_stick).x <= UNIT,
        -UNIT <= final(controller_stick).y <= UNIT,
{
    let shaped = shape_circle(controller_stick.x as i64, controller_stick.y as i64, deadzone);
    controller_stick.x = shaped.0;
    controller_stick.y = shaped.1;
}

/// Shapes both sticks of a snapshot in circle mode, each with its own
/// deadzone given in percent. Nothing else in the snapshot changes.
pub fn apply_deadzone(
    controller_data: &mut ControllerDatas,
    deadzone_left: u8,
    deadzone_right: u8,
)
    ensures
        (final(controller_data).left_stick.x as int, final(controller_data).left_stick.y as int)
            == shape_circle_spec(
            old(controller_data).left_stick.x as int,
            old(controller_data).left_stick.y as int,
            deadzone_of(deadzone_left) as int,
        ),
        (final(controller_data).right_stick.x as int, final(controller_data).right_stick.y as int)
            == shape_circle_spec(
            old(controller_data).right_stick.x as int,
            old(controller_data).right_stick.y as int,
            deadzone_of(deadzone_right) as int,
        ),
        *final(controller_data) == (ControllerDatas {
            left_stick: final(controller_data).left_stick,
            right_stick: final(controller_data).right_stick,
            ..*old(controller_data)
        }),
        final(controller_data).left_stick.is_pressed == old(controller_data).left_stick.is_pressed,
        final(controller_data).right_stick.is_pressed == old(
            controller_data,
        ).right_stick.is_pressed,
{
    let mut left = controller_data.left_stick;
    let mut right = controller_data.right_stick;
    apply_deadzone_for_stick(&mut left, deadzone_from_percent(deadzone_left));
    apply_deadzone_for_stick(&mut right, deadzone_from_percent(deadzone_right));
    controller_data.left_stick = left;
    controller_data.right_stick = right;
}

/// In circle mode a vector shorter than the deadzone is shaped to zero.
pub proof fn lemma_circle_inside_deadzone_is_zero(x: int, y: int, deadzone: int)
    requires
        x * x + y * y < deadzone * deadzone,
    ensures
        shape_circle_spec(x, y, deadzone) == (0int, 0int),
{
}

/// Without a deadzone, circle-mode shaping leaves every vector that is no
/// longer than a full deflection exactly as it is.
pub proof fn lemma_circle_identity_without_deadzone(x: int, y: int)
    requires
        x * x + y * y <= UNIT * UNIT,
    ensures
        shape_circle_spec(x, y, 0) == (x, y),
{
    let sum = (x * x + y * y) as nat;
    let len = length(x, y);
    assert(x * x >= 0 && y * y >= 0) by (nonlinear_arith);
    lemma_floor_sqrt(sum);
    lemma_floor_sqrt_order(sum, (UNIT + 1) as nat);
    assert((UNIT + 1) * (UNIT + 1) > UNIT * UNIT) by (nonlinear_arith);
    assert(len <= UNIT);
    if len == 0 {
        assert((0nat + 1) * (0nat + 1) == 1) by (nonlinear_arith);
        assert(x == 0 && y == 0) by (nonlinear_arith)
            requires
                x * x + y * y < 1,
        ;
    } else {
        lemma_stretched_bounds(len, 0);
        lemma_toward_zero_cancels(x, len);
        lemma_toward_zero_cancels(y, len);
    }
}

/// A value times a positive number, divided by that number toward zero,
/// is the value.
pub proof fn lemma_toward_zero_cancels(v: int, m: int)
    requires
        m > 0,
    ensures
        toward_zero(v * m, m) == v,
{
    if v >= 0 {
        assert(v * m >= 0 && (v * m) / m == v) by (nonlinear_arith)
            requires
                v >= 0,
                m > 0,
        ;
    } else {
        assert(v * m < 0 && (-(v * m)) / m == -v) by (nonlinear_arith)
            requires
                v < 0,
                m > 0,
        ;
    }
}

/// In circle mode a vector that reaches or passes a full deflection is
/// shaped to a vector on the unit circle, up to the rounding of one unit on
/// each axis: the shaped vector is shorter than a full deflection and one
/// unit, and moving each coordinate one unit outwards takes it past a full
/// deflection.
pub proof fn lemma_circle_full_deflection(x: int, y: int, deadzone: int)
    requires
        0 <= deadzone < UNIT,
        x * x + y * y >= UNIT * UNIT,
    ensures
        ({
            let (sx, sy) = shape_circle_spec(x, y, deadzone);
            &&& sx * sx + sy * sy < (UNIT + 1) * (UNIT + 1)
            &&& (magnitude(sx) + 1) * (magnitude(sx) + 1) + (magnitude(sy) + 1) * (magnitude(sy)
                + 1) > UNIT * UNIT
        }),
{
    let sum = (x * x + y * y) as nat;
    let len = length(x, y);
    let (sx, sy) = shape_circle_spec(x, y, deadzone);
    lemma_floor_sqrt(sum);
    lemma_floor_sqrt_order(sum, UNIT as nat);
    assert(len >= UNIT);
    assert(deadzone * deadzone < UNIT * UNIT) by (nonlinear_arith)
        requires
            0 <= deadzone < UNIT,
    ;
    lemma_stretched_bounds(len, deadzone);
    assert(stretched(len, deadzone) == UNIT);
    let a = magnitude(x) as int;
    let b = magnitude(y) as int;
    let p = magnitude(sx) as int;
    let q = magnitude(sy) as int;
    lemma_toward_zero_magnitude(x, UNIT as int, len);
    lemma_toward_zero_magnitude(y, UNIT as int, len);
    assert(p == a * UNIT / len);
    assert(q == b * UNIT / len);
    assert(a * a + b * b == sum) by (nonlinear_arith)
        requires
            a == x || a == -x,
            b == y || b == -y,
            sum == x * x + y * y,
    ;
    assert(sx * sx == p * p && sy * sy == q * q) by (nonlinear_arith)
        requires
            p == sx || p == -sx,
            q == sy || q == -sy,
    ;
    // Rounding down loses less than one unit on each axis.
    assert(p * len <= a * UNIT && a * UNIT < (p + 1) * len) by (nonlinear_arith)
        requires
            p == a * UNIT / len,
            len > 0,
            a >= 0,
    ;
    assert(q * len <= b * UNIT && b * UNIT < (q + 1) * len) by (nonlinear_arith)
        requires
            q == b * UNIT / len,
            len > 0,
            b >= 0,
    ;
    lemma_square_order(p * len, a * UNIT);
    lemma_square_order(q * len, b * UNIT);
    lemma_square_order_strict(a * UNIT, (p + 1) * len);
    lemma_square_order_strict(b * UNIT, (q + 1) * len);
    let ll = len * len;
    let uu = UNIT * UNIT;
    assert(ll > 0) by (nonlinear_arith)
        requires
            ll == len * len,
            len >= 1,
    ;
    assert((p * len) * (p * len) == (p * p) * ll && (q * len) * (q * len) == (q * q) * ll && ((p
        + 1) * len) * ((p + 1) * len) == ((p + 1) * (p + 1)) * ll && ((q + 1) * len) * ((q + 1)
        * len) == ((q + 1) * (q + 1)) * ll && (a * UNIT) * (a * UNIT) == (a * a) * uu && (b * UNIT)
        * (b * UNIT) == (b * b) * uu) by (nonlinear_arith)
        requires
            ll == len * len,
            uu == UNIT * UNIT,
    ;
    // Outwards: the square of the length is at most the sum of squares.
    assert(((p + 1) * (p + 1) + (q + 1) * (q + 1)) * ll > uu * ll) by (nonlinear_arith)
        requires
            ((p + 1) * (p + 1)) * ll > (a * a) * uu,
            ((q + 1) * (q + 1)) * ll > (b * b) * uu,
            a * a + b * b >= ll,
            uu >= 0,
    ;
    assert((p + 1) * (p + 1) + (q + 1) * (q + 1) > uu) by (nonlinear_arith)
        requires
            ((p + 1) * (p + 1) + (q + 1) * (q + 1)) * ll > uu * ll,
            ll > 0,
    ;
    // Inwards: the sum of squares is below the square of the length plus one.
    let r = p * p + q * q;
    assert(r * ll < uu * ((len + 1) * (len + 1))) by (nonlinear_arith)
        requires
            (p * p) * ll <= (a * a) * uu,
            (q * q) * ll <= (b * b) * uu,
            a * a + b * b < (len + 1) * (len + 1),
            r == p * p + q * q,
            uu > 0,
    ;
    if r >= (UNIT + 1) * (UNIT + 1) {
        assert(((UNIT + 1) * (UNIT + 1)) * ll >= uu * ((len + 1) * (len + 1))) by (nonlinear_arith)
            requires
                len >= UNIT,
                UNIT > 0,
                ll == len * len,
                uu == UNIT * UNIT,
        ;
        assert(r * ll >= ((UNIT + 1) * (UNIT + 1)) * ll) by (nonlinear_arith)
            requires
                r >= (UNIT + 1) * (UNIT + 1),
                ll >= 0,
        ;
    }
}

/// The distance from zero of a quotient toward zero is the quotient of the
/// distances.
pub proof fn lemma_toward_zero_magnitude(v: int, num: int, den: int)
    requires
        num >= 0,
        den > 0,
    ensures
        magnitude(toward_zero(v * num, den)) == magnitude(v) * num / den,
{
    if v >= 0 {
        assert(v * num >= 0 && (v * num) / den >= 0) by (nonlinear_arith)
            requires
                v >= 0,
                num >= 0,
                den > 0,
        ;
    } else {
        assert(-(v * num) == (-v) * num && (-v) * num >= 0 && ((-v) * num) / den >= 0)
            by (nonlinear_arith)
            requires
                v < 0,
                num >= 0,
                den > 0,
        ;
        if v * num == 0 {
            assert(0int / den == 0) by (nonlinear_arith)
                requires
                    den > 0,
            ;
        }
    }
}

proof fn lemma_square_order(a: int, b: int)
    requires
        0 <= a <= b,
    ensures
        a * a <= b * b,
{
    assert(a * a <= b * b) by (nonlinear_arith)
        requires
            0 <= a <= b,
    ;
}

proof fn lemma_square_order_strict(a: int, b: int)
    requires
        0 <= a < b,
    ensures
        a * a < b * b,
{
    assert(a * a < b * b) by (nonlinear_arith)
        requires
            0 <= a < b,
    ;
}

} // verus!
