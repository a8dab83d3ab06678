//! Verified core of a game-controller input mapper.
//!
//! The library turns the raw samples of a controller into a calibrated,
//! deadzone-shaped, rotation-aware snapshot, and dispatches that snapshot
//! through a table of mappings into commands for the keyboard and the mouse.
//! It owns no thread, no clock and no device: the caller reads the
//! controller and the clock, hands both to [`engine::tick`], and carries out
//! the commands that come back.
//!
//! Analog values are fixed-point numbers. Stick positions, trigger
//! pressures and deadzones count in millionths of a full deflection
//! ([`units::UNIT`]), angles in thousandths of a degree, frequencies in
//! thousandths of a hertz, factors in thousandths, and time in milliseconds
//! on a monotonic clock.
//!
//! The parts, from the leaves up:
//!
//! - [`sampler`]: the sampling rate for a signal frequency;
//! - [`deadzone`]: shaping of stick positions in circle and square mode;
//! - [`rotation`]: one-shot events from the turning of a stick;
//! - [`calibrate`] and [`session`]: the calibration record of a stick, the
//!   steps in which it is taken, and the transform it defines;
//! - [`snapshot`] and [`transport`]: from raw readings to the snapshot;
//! - [`press`] and [`trigger`]: press patterns and repeat policies;
//! - [`parse`], [`action`], [`mapping`] and [`table`]: action strings, the
//!   actions they describe, and the table of mappings;
//! - [`dispatch`]: one tick of every mapping against a snapshot;
//! - [`engine`]: all of the state in one value, and the tick.

pub mod action;
pub mod app_state;
pub mod calibrate;
pub mod datas;
pub mod deadzone;
pub mod device;
pub mod discovery;
pub mod dispatch;
pub mod engine;
pub mod fixed;
pub mod ids;
pub mod layout;
pub mod mapping;
pub mod mouse;
pub mod parse;
pub mod preset;
pub mod press;
pub mod rotation;
pub mod sampler;
pub mod session;
pub mod setting;
pub mod snapshot;
pub mod table;
pub mod text;
pub mod transport;
pub mod trigger;
pub mod units;
