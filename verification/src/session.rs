//! The calibration of a controller as the user drives it: begin, advance,
//! cancel, and the samples taken while a step is active.
//!
//! The library decides what each command and each sample does to the
//! calibration; when to advance is up to the caller, and so is the loop that
//! reads samples while `is_calibrating` holds.

use vstd::prelude::*;
use vstd::string::*;
use crate::calibrate::{
    CalibrationFile, ControllerCalibration, StickCaliMode, StickCalibration, StickTestSteps,
};
use crate::datas::StickPoint;
use crate::device::DeviceInfo;
use crate::text::str_eq;

verus! {

/// The calibration of the controller in use and whether one of its sticks
/// is being calibrated.
#[derive(Clone, Copy, Debug, PartialEq, Eq, Structural)]
pub struct CalibrationSession {
    pub calibration: ControllerCalibration,
    /// Whether samples are to be taken.
    pub is_calibrating: bool,
}

/// The mode that a name stands for: `square` for the square mode, anything
/// else for the circle mode.
pub open spec fn mode_named(name: Seq<char>) -> StickCaliMode {
    if name == "square"@ {
        StickCaliMode::Square
    } else {
        StickCaliMode::Circle
    }
}

/// The step that follows a step when the user advances.
pub open spec fn step_after(step: StickTestSteps) -> StickTestSteps {
    match step {
        StickTestSteps::CenterCheck => StickTestSteps::RangeDetection,
        StickTestSteps::RangeDetection => StickTestSteps::Complete,
        _ => step,
    }
}

/// The calibration with the stick on the named side replaced: `left` names
/// the left stick, anything else the right one.
pub open spec fn with_stick(
    calibration: ControllerCalibration,
    stick_side: Seq<char>,
    stick: StickCalibration,
) -> ControllerCalibration {
    if stick_side == "left"@ {
        ControllerCalibration { left_stick: stick, ..calibration }
    } else {
        ControllerCalibration { right_stick: stick, ..calibration }
    }
}

/// The stick on the named side.
pub open spec fn stick_on(
    calibration: ControllerCalibration,
    stick_side: Seq<char>,
) -> StickCalibration {
    if stick_side == "left"@ {
        calibration.left_stick
    } else {
        calibration.right_stick
    }
}

/// What one sample does to the record of a stick: at the centre check it
/// becomes the centre, at the range detection it is folded into the range,
/// at any other step it is ignored.
pub open spec fn sampled(stick: StickCalibration, at: StickPoint) -> StickCalibration {
    match stick.step {
        StickTestSteps::CenterCheck => StickCalibration { stick_center: at, ..stick },
        StickTestSteps::RangeDetection => StickCalibration {
            stick_range: stick.stick_range.folded(at.x, at.y),
            ..stick
        },
        _ => stick,
    }
}

/// The record that begins the calibration of a stick.
pub open spec fn begun() -> StickCalibration {
    StickCalibration { step: StickTestSteps::CenterCheck, ..StickCalibration::blank() }
}

/// The session after a cancel: while a calibration is under way, the stick
/// on the named side is blank again and no more samples are taken;
/// otherwise nothing changes.
pub open spec fn after_cancel(
    session: CalibrationSession,
    stick_side: Seq<char>,
) -> CalibrationSession {
    if session.is_calibrating {
        CalibrationSession {
            calibration: with_stick(session.calibration, stick_side, StickCalibration::blank()),
            is_calibrating: false,
        }
    } else {
        session
    }
}

/// The session after one round of the sampling loop: while a calibration
/// is under way, each stick has taken its sample; otherwise nothing
/// changes.
pub open spec fn after_sample(
    session: CalibrationSession,
    raw_left: StickPoint,
    raw_right: StickPoint,
) -> CalibrationSession {
    if session.is_calibrating {
        CalibrationSession {
            calibration: ControllerCalibration {
                left_stick: sampled(session.calibration.left_stick, raw_left),
                right_stick: sampled(session.calibration.right_stick, raw_right),
            },
            ..session
        }
    } else {
        session
    }
}

/// After a cancel the sampling loop is told to stop at its next round, and
/// that round takes no sample.
pub proof fn lemma_cancel_stops_sampling(
    session: CalibrationSession,
    stick_side: Seq<char>,
    raw_left: StickPoint,
    raw_right: StickPoint,
)
    ensures
        !after_cancel(session, stick_side).is_calibrating,
        after_sample(after_cancel(session, stick_side), raw_left, raw_right) == after_cancel(
            session,
            stick_side,
        ),
{
}

impl CalibrationSession {
    /// The session of a controller that was never calibrated.
    pub open spec fn idle() -> CalibrationSession {
        CalibrationSession { calibration: ControllerCalibration::blank(), is_calibrating: false }
    }

    /// The session of a controller that was never calibrated.
    pub fn new() -> (session: Self)
        ensures
            session == CalibrationSession::idle(),
    {
        CalibrationSession { calibration: ControllerCalibration::new(), is_calibrating: false }
    }
}

fn mode_of(name: &str) -> (mode: StickCaliMode)
    ensures
        mode == mode_named(name@),
{
    if str_eq(name, "square") {
        StickCaliMode::Square
    } else {
        StickCaliMode::Circle
    }
}

/// Begins the calibration of the stick on the named side, unless the loop
/// that takes samples for an earlier calibration is still running.
///
/// The stick starts from a blank record at the centre check. The result
/// says whether the calibration began, and so whether the caller is to
/// start taking samples.
pub fn start_stick_calibration(
    session: &mut CalibrationSession,
    stick_side: &str,
    listener_running: bool,
) -> (started: bool)
    ensures
        started == !listener_running,
        listener_running ==> *final(session) == *old(session),
        !listener_running ==> *final(session) == (CalibrationSession {
            calibration: with_stick(old(session).calibration, stick_side@, begun()),
            is_calibrating: true,
        }),
{
    if listener_running {
        return false;
    }
    if str_eq(stick_side, "left") {
        session.calibration.left_stick.reset();
        session.calibration.left_stick.update_step_to(StickTestSteps::CenterCheck);
    } else {
        session.calibration.right_stick.reset();
        session.calibration.right_stick.update_step_to(StickTestSteps::CenterCheck);
    }
    session.is_calibrating = true;
    true
}

/// Advances the calibration of the stick on the named side by one step.
///
/// Nothing happens while no calibration is under way. Reaching the last
/// step ends the taking of samples.
pub fn next_stick_calibration_step(session: &mut CalibrationSession, stick_side: &str)
    ensures
        !old(session).is_calibrating ==> *final(session) == *old(session),
        old(session).is_calibrating ==> ({
            let stick = stick_on(old(session).calibration, stick_side@);
            let next = step_after(stick.step);
            *final(session) == (CalibrationSession {
                calibration: with_stick(
                    old(session).calibration,
                    stick_side@,
                    StickCalibration { step: next, ..stick },
                ),
                is_calibrating: next != StickTestSteps::Complete,
            })
        }),
{
    if !session.is_calibrating {
        return ;
    }
    let left = str_eq(stick_side, "left");
    let step = if left {
        session.calibration.left_stick.step
    } else {
        session.calibration.right_stick.step
    };
    let next_step = match step {
        StickTestSteps::CenterCheck => StickTestSteps::RangeDetection,
        StickTestSteps::RangeDetection => StickTestSteps::Complete,
        _ => step,
    };
    if left {
        session.calibration.left_stick.update_step_to(next_step);
    } else {
        session.calibration.right_stick.update_step_to(next_step);
    }
    if next_step == StickTestSteps::Complete {
        session.is_calibrating = false;
    }
}

/// Cancels the calibration of the stick on the named side: its record goes
/// back to blank and the taking of samples ends. Nothing happens while no
/// calibration is under way.
pub fn cancel_stick_calibration(session: &mut CalibrationSession, stick_side: &str)
    ensures
        *final(session) == after_cancel(*old(session), stick_side@),
{
    if !session.is_calibrating {
        return ;
    }
    if str_eq(stick_side, "left") {
        session.calibration.left_stick.reset();
    } else {
        session.calibration.right_stick.reset();
    }
    session.is_calibrating = false;
}

/// Sets the shaping mode of both sticks.
pub fn set_calibration_mode(session: &mut CalibrationSession, mode: &str)
    ensures
        *final(session) == (CalibrationSession {
            calibration: ControllerCalibration {
                left_stick: StickCalibration {
                    mode: mode_named(mode@),
                    ..old(session).calibration.left_stick
                },
                right_stick: StickCalibration {
                    mode: mode_named(mode@),
                    ..old(session).calibration.right_stick
                },
            },
            ..*old(session)
        }),
{
    let new_mode = mode_of(mode);
    session.calibration.left_stick.mode = new_mode;
    session.calibration.right_stick.mode = new_mode;
}

/// Takes one sample of the raw positions of both sticks, if a calibration
/// is under way, and says whether the caller is to take another.
pub fn calibration_listener(
    session: &mut CalibrationSession,
    raw_left: StickPoint,
    raw_right: StickPoint,
) -> (go_on: bool)
    ensures
        go_on == old(session).is_calibrating,
        *final(session) == after_sample(*old(session), raw_left, raw_right),
{
    if !session.is_calibrating {
        return false;
    }
    match session.calibration.left_stick.step {
        StickTestSteps::CenterCheck => {
            session.calibration.left_stick.record_center(raw_left.x, raw_left.y);
        },
        StickTestSteps::RangeDetection => {
            session.calibration.left_stick.update_range(raw_left.x, raw_left.y);
        },
        _ => {},
    }
    match session.calibration.right_stick.step {
        StickTestSteps::CenterCheck => {
            session.calibration.right_stick.record_center(raw_right.x, raw_right.y);
        },
        StickTestSteps::RangeDetection => {
            session.calibration.right_stick.update_range(raw_right.x, raw_right.y);
        },
        _ => {},
    }
    true
}

/// The calibration that a device starts with: what was stored for it, with
/// the mode that the settings name, or the blank calibration where nothing
/// could be read.
pub open spec fn loaded(
    calibration_mode: Seq<char>,
    stored: Option<CalibrationFile>,
) -> ControllerCalibration {
    match stored {
        Some(file) => ControllerCalibration {
            left_stick: StickCalibration {
                mode: mode_named(calibration_mode),
                ..file.left_stick_calibration
            },
            right_stick: StickCalibration {
                mode: mode_named(calibration_mode),
                ..file.right_stick_calibration
            },
        },
        None => ControllerCalibration::blank(),
    }
}

/// Takes the calibration stored for a device, if any could be read. A
/// missing or unreadable record leaves the device uncalibrated.
pub fn load_calibration(
    session: &mut CalibrationSession,
    calibration_mode: &str,
    stored: Option<CalibrationFile>,
)
    ensures
        *final(session) == (CalibrationSession {
            calibration: loaded(calibration_mode@, stored),
            ..*old(session)
        }),
{
    match stored {
        Some(file) => {
            let mode = mode_of(calibration_mode);
            session.calibration.left_stick = file.left_stick_calibration;
            session.calibration.right_stick = file.right_stick_calibration;
            session.calibration.left_stick.mode = mode;
            session.calibration.right_stick.mode = mode;
        },
        None => {
            reset_calibration(session);
        },
    }
}

/// Makes both sticks uncalibrated.
pub fn reset_calibration(session: &mut CalibrationSession)
    ensures
        *final(session) == (CalibrationSession {
            calibration: ControllerCalibration::blank(),
            ..*old(session)
        }),
{
    session.calibration.reset();
}

/// Makes both sticks uncalibrated, once the stored record is gone.
pub fn reset_calibration_to_default(session: &mut CalibrationSession)
    ensures
        *final(session) == (CalibrationSession {
            calibration: ControllerCalibration::blank(),
            ..*old(session)
        }),
{
    reset_calibration(session);
}

/// The calibration as it stands.
pub fn get_current_calibration(session: &CalibrationSession) -> (calibration:
    ControllerCalibration)
    ensures
        calibration == session.calibration,
{
    session.calibration
}

/// The calibration as it stands.
pub fn get_calibration_state(session: &CalibrationSession) -> (calibration: ControllerCalibration)
    ensures
        calibration == session.calibration,
{
    session.calibration
}

/// What is stored of a calibration.
pub fn save_calibration(cali_data: &ControllerCalibration) -> (file: CalibrationFile)
    ensures
        file.left_stick_calibration == cali_data.left_stick,
        file.right_stick_calibration == cali_data.right_stick,
{
    CalibrationFile {
        left_stick_calibration: cali_data.left_stick,
        right_stick_calibration: cali_data.right_stick,
    }
}

/// Puts both sticks at the idle step and gives what is to be stored: the
/// finished calibration, not a step on the way to it.
pub fn save_current_calibration(session: &mut CalibrationSession) -> (file: CalibrationFile)
    ensures
        *final(session) == (CalibrationSession {
            calibration: ControllerCalibration {
                left_stick: StickCalibration {
                    step: StickTestSteps::Idle,
                    ..old(session).calibration.left_stick
                },
                right_stick: StickCalibration {
                    step: StickTestSteps::Idle,
                    ..old(session).calibration.right_stick
                },
            },
            ..*old(session)
        }),
        file.left_stick_calibration == final(session).calibration.left_stick,
        file.right_stick_calibration == final(session).calibration.right_stick,
{
    session.calibration.left_stick.step = StickTestSteps::Idle;
    session.calibration.right_stick.step = StickTestSteps::Idle;
    save_calibration(&session.calibration)
}

/// The id of a device part, or four zeros where it is not known.
pub open spec fn id_or_zeros(id: Option<Seq<char>>) -> Seq<char> {
    match id {
        Some(text) => text,
        None => "0000"@,
    }
}

/// The name of the file that holds the calibration of a device.
pub open spec fn calibration_file_name(device: crate::device::DeviceInfoView) -> Seq<char> {
    "cali_"@ + device.vendor_id + "_"@ + id_or_zeros(device.product_id) + "_"@ + id_or_zeros(
        device.sub_product_id,
    ) + ".toml"@
}

/// The name of the file that holds the calibration of a device, within the
/// directory of calibrations.
pub fn get_calibration_filepath(device: &DeviceInfo) -> (name: String)
    ensures
        name@ == calibration_file_name(device@),
{
    let mut name = String::from_str("cali_");
    name.append(device.vendor_id.as_str());
    name.append("_");
    match &device.product_id {
        Some(id) => name.append(id.as_str()),
        None => name.append("0000"),
    }
    name.append("_");
    match &device.sub_product_id {
        Some(id) => name.append(id.as_str()),
        None => name.append("0000"),
    }
    name.append(".toml");
    name
}

/// A calibration that is begun and advanced twice is complete, and the
/// taking of samples has ended; one that is cancelled on the way is blank
/// again.
pub proof fn lemma_calibration_steps()
    ensures
        step_after(step_after(begun().step)) == StickTestSteps::Complete,
        step_after(begun().step) == StickTestSteps::RangeDetection,
        step_after(StickTestSteps::Complete) == StickTestSteps::Complete,
        step_after(StickTestSteps::Idle) == StickTestSteps::Idle,
{
}

/// Samples taken at the range detection keep each lower edge of the range
/// at or below its upper edge from the first sample on.
pub proof fn lemma_range_is_ordered_once_sampled(stick: StickCalibration, at: StickPoint)
    requires
        stick.step == StickTestSteps::RangeDetection,
    ensures
        sampled(stick, at).stick_range.x_min <= at.x <= sampled(stick, at).stick_range.x_max,
        sampled(stick, at).stick_range.y_min <= at.y <= sampled(stick, at).stick_range.y_max,
        stick.stick_range.x_min <= stick.stick_range.x_max ==> sampled(stick, at).stick_range.x_min
            <= stick.stick_range.x_min && stick.stick_range.x_max <= sampled(
            stick,
            at,
        ).stick_range.x_max,
{
}

/// A device whose stored calibration is missing or cannot be read is used
/// uncalibrated: both sticks pass every raw position through unchanged.
pub proof fn lemma_unreadable_calibration_is_identity(
    calibration_mode: Seq<char>,
    x: int,
    y: int,
    deadzone_percent: u8,
)
    ensures
        crate::calibrate::apply_calibration_spec(
            x,
            y,
            deadzone_percent,
            loaded(calibration_mode, None).left_stick,
        ) == (x, y),
        crate::calibrate::apply_calibration_spec(
            x,
            y,
            deadzone_percent,
            loaded(calibration_mode, None).right_stick,
        ) == (x, y),
{
}

} // verus!
