//! The input engine: all the state of the core in one value, and the tick
//! that takes it from one raw sample to the next.
//!
//! The caller owns the loop. At each tick it reads a raw sample from the
//! transport, asks [`shape_sticks`] for the shaped stick positions, measures
//! their angles, and hands sample and angles to [`tick`]. What comes back is
//! what it has to pass on: the snapshot, if it changed, and the commands for
//! the queue of the executor.

use vstd::prelude::*;
use crate::action::EnigoCommand;
use crate::calibrate::CalibrationFile;
use crate::datas::{CompactControllerDatas, ControllerDatas, StickPoint};
use crate::device::{unknown_device, DeviceInfo, DeviceInfoView};
use crate::dispatch::{active_mappings, command_views, dispatch_all, tick_start};
use crate::layout::{get_current_controller_layout_map, layout_of};
use crate::preset::{
    handle_preset_switching_decision, switch_step, PresetManager, SubPresetSwitch,
};
use crate::rotation::{check_sticks_rotation, rotation_step, with_turn_buttons, RotationConfig, RotationStates};
use crate::sampler::AdaptiveSampler;
use crate::session::{load_calibration, loaded, reset_calibration, CalibrationSession};
use crate::setting::{AppSettings, MAX_POLLING_FREQUENCY, MIN_POLLING_FREQUENCY};
use crate::snapshot::{
    build_snapshot, pack_and_send_data, resolve_sticks, resolved_sticks, snapshot_of, RawSample,
};
use crate::table::{MappingTable, TableView};

verus! {

/// How often the engine polls, and what follows from it.
#[derive(Clone, Copy, Debug, PartialEq, Eq, Structural)]
pub struct PollTiming {
    /// Polling frequency in hertz.
    pub frequency: u32,
    /// Advisory rate at which the transport is to be sampled, in
    /// thousandths of a hertz.
    pub sampling_rate: u64,
    /// Time between two ticks in microseconds.
    pub time_interval: u32,
}

/// A polling frequency brought into the accepted range of 1 to 8000 hertz.
pub open spec fn accepted_frequency(freq: u32) -> u32 {
    if freq < MIN_POLLING_FREQUENCY {
        MIN_POLLING_FREQUENCY
    } else if freq > MAX_POLLING_FREQUENCY {
        MAX_POLLING_FREQUENCY
    } else {
        freq
    }
}

/// The timing for a polling frequency.
pub open spec fn timing_for(sampler: AdaptiveSampler, freq: u32, low_band_log: u32) -> PollTiming {
    let frequency = accepted_frequency(freq);
    PollTiming {
        frequency,
        sampling_rate: sampler.rate((frequency * 1000) as u32, low_band_log) as u64,
        time_interval: (1_000_000int / frequency as int) as u32,
    }
}

/// Sets the polling frequency, brought into the range of 1 to 8000 hertz,
/// and with it the advisory sampling rate and the time between two ticks.
pub fn set_frequency(
    timing: &mut PollTiming,
    sampler: &AdaptiveSampler,
    freq: u32,
    low_band_log: u32,
)
    ensures
        *final(timing) == timing_for(*sampler, freq, low_band_log),
        1 <= final(timing).frequency <= 8000,
        125 <= final(timing).time_interval <= 1_000_000,
{
    let frequency = if freq < MIN_POLLING_FREQUENCY {
        MIN_POLLING_FREQUENCY
    } else if freq > MAX_POLLING_FREQUENCY {
        MAX_POLLING_FREQUENCY
    } else {
        freq
    };
    assert(125 <= 1_000_000int / (frequency as int) <= 1_000_000) by (nonlinear_arith)
        requires
            1 <= frequency <= 8000,
    ;
    timing.frequency = frequency;
    timing.sampling_rate = sampler.compute_sampling_rate(frequency * 1000, low_band_log);
    timing.time_interval = 1_000_000 / frequency;
}

/// The state of the core.
#[derive(Debug)]
pub struct InputEngine {
    /// The device in use; the first default device while none is.
    pub current_device: DeviceInfo,
    pub session: CalibrationSession,
    pub rotation: RotationStates,
    pub presets: PresetManager,
    pub switch: SubPresetSwitch,
    pub table: MappingTable,
    /// The snapshot of the latest tick.
    pub controller_data: ControllerDatas,
    /// The snapshot that was sent on last.
    pub prev_controller_data: ControllerDatas,
    pub sampler: AdaptiveSampler,
    pub timing: PollTiming,
}

/// What a tick hands back.
#[derive(Debug)]
pub struct TickOutput {
    /// The compact form of the snapshot, where it differs from the one sent
    /// on last.
    pub update: Option<CompactControllerDatas>,
    /// Whether the tick went through the mappings of the sub-preset.
    pub use_sub_preset: bool,
    /// The commands for the queue of the executor, oldest first.
    pub commands: Vec<EnigoCommand>,
}

/// What a tick comes to, as a mathematical value.
pub struct TickView {
    pub rotation: RotationStates,
    pub switch: SubPresetSwitch,
    pub table: TableView,
    pub controller_data: ControllerDatas,
    pub prev_controller_data: ControllerDatas,
    pub changed: bool,
    pub use_sub_preset: bool,
    pub commands: Seq<crate::action::CommandView>,
}

impl InputEngine {
    /// The thresholds of the rotation detector under the preset in use.
    pub open spec fn rotation_config(&self) -> RotationConfig {
        RotationConfig::for_degrees(self.presets.current@.items.stick_rotate_trigger_threshold)
    }

    /// The snapshot of a tick after calibration, deadzone and rotation, and
    /// the detector states after it.
    pub open spec fn resolved(
        &self,
        raw: RawSample,
        left_angle: i32,
        right_angle: i32,
        now: u64,
    ) -> (RotationStates, ControllerDatas) {
        let sticks = resolved_sticks(
            raw.left_stick,
            raw.right_stick,
            self.presets.current@.items,
            self.session.calibration,
        );
        let built = snapshot_of(raw, sticks, self.controller_data);
        let left = rotation_step(
            self.rotation.left,
            built.left_stick.x,
            built.left_stick.y,
            left_angle,
            self.rotation_config(),
            now,
        );
        let right = rotation_step(
            self.rotation.right,
            built.right_stick.x,
            built.right_stick.y,
            right_angle,
            self.rotation_config(),
            now,
        );
        (
            RotationStates { left: left.0, right: right.0 },
            ControllerDatas {
                left_stick_rotation: left.1,
                right_stick_rotation: right.1,
                buttons: with_turn_buttons(built.buttons, left.1, right.1),
                ..built
            },
        )
    }

    /// What a tick comes to.
    ///
    /// Calibration, deadzone and rotation are resolved first. The resolved
    /// snapshot is compared with the one sent on last. Then the switch
    /// between preset and sub-preset is consulted, the keys held by
    /// mappings of the list at rest are let go, and then the mappings of
    /// the active list are dispatched against the resolved snapshot.
    pub open spec fn tick_spec(
        &self,
        raw: RawSample,
        left_angle: i32,
        right_angle: i32,
        now: u64,
    ) -> TickView {
        let (rotation, resolved) = self.resolved(raw, left_angle, right_angle, now);
        let layout = layout_of(self.current_device.controller_type);
        let (switch, use_sub_preset) = switch_step(
            self.switch,
            self.presets.current@.items,
            self.presets.sub_preset is Some,
            layout,
            resolved,
        );
        let end = dispatch_all(
            active_mappings(self.table@, use_sub_preset),
            layout,
            tick_start(self.table@, resolved, use_sub_preset),
            now,
        );
        TickView {
            rotation,
            switch,
            table: TableView {
                trigger_states: end.trigger_states,
                button_check_states: end.button_check_states,
                ..self.table@
            },
            controller_data: end.datas,
            prev_controller_data: resolved,
            changed: resolved != self.prev_controller_data,
            use_sub_preset,
            commands: end.commands,
        }
    }
}

/// The deadzone of the preset holds in every tick, calibrated or not: where
/// the left stick was never calibrated and its raw position is nearer to
/// the centre than the left deadzone of the preset, the snapshot of the
/// tick has the left stick at the centre; and likewise for the right stick.
pub proof fn lemma_tick_applies_the_deadzone(
    engine: InputEngine,
    raw: RawSample,
    left_angle: i32,
    right_angle: i32,
    now: u64,
)
    ensures
        ({
            let deadzone = crate::deadzone::deadzone_of(engine.presets.current@.items.deadzone_left);
            let stick = engine.resolved(raw, left_angle, right_angle, now).1.left_stick;
            engine.session.calibration.left_stick.stick_range.untouched() && raw.left_stick.x
                * raw.left_stick.x + raw.left_stick.y * raw.left_stick.y < deadzone * deadzone
                ==> stick.x == 0 && stick.y == 0
        }),
        ({
            let deadzone = crate::deadzone::deadzone_of(engine.presets.current@.items.deadzone);
            let stick = engine.resolved(raw, left_angle, right_angle, now).1.right_stick;
            engine.session.calibration.right_stick.stick_range.untouched() && raw.right_stick.x
                * raw.right_stick.x + raw.right_stick.y * raw.right_stick.y < deadzone * deadzone
                ==> stick.x == 0 && stick.y == 0
        }),
{
}

/// Makes the engine for the given settings: no device in use, no
/// calibration, the default preset, an empty mapping table, and the polling
/// frequency of the settings.
pub fn initialize(settings: &AppSettings, low_band_log: u32) -> (engine: InputEngine)
    ensures
        engine.timing == timing_for(
            AdaptiveSampler::with_rates(200_000_000, 10_000),
            settings.polling_frequency,
            low_band_log,
        ),
        engine.sampler == AdaptiveSampler::with_rates(200_000_000, 10_000),
        engine.session == CalibrationSession::idle(),
        engine.controller_data == ControllerDatas::at_rest(),
        engine.prev_controller_data == ControllerDatas::at_rest(),
        engine.table@ == MappingTable::empty_at("mappings.toml"@),
        engine.switch == (SubPresetSwitch { active: false, last_button_state: false }),
        engine.current_device@ == crate::device::default_devices_spec()[0],
        engine.rotation.left == crate::rotation::JoystickRotationState::resting(),
        engine.rotation.right == crate::rotation::JoystickRotationState::resting(),
        engine.presets.current@ == (crate::preset::PresetView {
            name: "default"@,
            items: crate::preset::PresetItems::standard(),
        }),
        engine.presets.sub_preset is None,
        engine.presets.listed() == Seq::<crate::preset::PresetView>::empty(),
{
    let sampler = AdaptiveSampler::new(200_000_000, 10_000);
    let mut timing = PollTiming { frequency: 125, sampling_rate: 1_000_000, time_interval: 8000 };
    set_frequency(&mut timing, &sampler, settings.polling_frequency, low_band_log);
    InputEngine {
        current_device: unknown_device(),
        session: CalibrationSession::new(),
        rotation: RotationStates::new(),
        presets: PresetManager::new(),
        switch: SubPresetSwitch { active: false, last_button_state: false },
        table: MappingTable::new(),
        controller_data: ControllerDatas::new(),
        prev_controller_data: ControllerDatas::new(),
        sampler,
        timing,
    }
}

/// The shaped positions of both sticks for a raw sample: what calibration
/// and deadzone make of it, cut off at a full deflection. These are the
/// positions whose angles `tick` asks for.
pub fn shape_sticks(engine: &InputEngine, raw: &RawSample) -> (sticks: (StickPoint, StickPoint))
    ensures
        ({
            let built = snapshot_of(
                *raw,
                resolved_sticks(
                    raw.left_stick,
                    raw.right_stick,
                    engine.presets.current@.items,
                    engine.session.calibration,
                ),
                engine.controller_data,
            );
            &&& sticks.0 == (StickPoint { x: built.left_stick.x, y: built.left_stick.y })
            &&& sticks.1 == (StickPoint { x: built.right_stick.x, y: built.right_stick.y })
        }),
{
    let calibrated = resolve_sticks(
        raw.left_stick,
        raw.right_stick,
        &engine.presets.current,
        &engine.session.calibration,
    );
    let built = build_snapshot(raw, calibrated, &engine.controller_data);
    (
        StickPoint { x: built.left_stick.x, y: built.left_stick.y },
        StickPoint { x: built.right_stick.x, y: built.right_stick.y },
    )
}

/// Runs one tick at `now`.
///
/// `left_angle` and `right_angle` are the angles of the shaped stick
/// positions that `shape_sticks` gives for the same sample, in thousandths
/// of a degree; the angle of a stick at the centre does not count. Within
/// the tick, calibration, deadzone and rotation come before dispatch, and
/// no command is carried out: the commands are handed back in the order of
/// the mapping table.
pub fn tick(
    engine: &mut InputEngine,
    raw: &RawSample,
    left_angle: i32,
    right_angle: i32,
    now: u64,
) -> (output: TickOutput)
    ensures
        ({
            let spec = old(engine).tick_spec(*raw, left_angle, right_angle, now);
            &&& final(engine).rotation == spec.rotation
            &&& final(engine).switch == spec.switch
            &&& final(engine).table@ == spec.table
            &&& final(engine).controller_data == spec.controller_data
            &&& final(engine).prev_controller_data == spec.prev_controller_data
            &&& output.update is Some == spec.changed
            &&& output.update is Some ==> output.update->0 == (CompactControllerDatas {
                buttons: spec.prev_controller_data.buttons,
                pressure: spec.prev_controller_data.pressure_spec(),
            })
            &&& output.use_sub_preset == spec.use_sub_preset
            &&& command_views(output.commands@) == spec.commands
            &&& final(engine).current_device@ == old(engine).current_device@
            &&& final(engine).session == old(engine).session
            &&& final(engine).sampler == old(engine).sampler
            &&& final(engine).timing == old(engine).timing
            &&& final(engine).presets == old(engine).presets
        }),
        final(engine).controller_data.in_range(),
        final(engine).prev_controller_data.in_range(),
{
    let calibrated = resolve_sticks(
        raw.left_stick,
        raw.right_stick,
        &engine.presets.current,
        &engine.session.calibration,
    );
    let mut datas = build_snapshot(raw, calibrated, &engine.controller_data);
    let config = RotationConfig::from_degrees(
        engine.presets.current.items.stick_rotate_trigger_threshold,
    );
    check_sticks_rotation(&mut datas, &mut engine.rotation, left_angle, right_angle, &config, now);
    let update = pack_and_send_data(&datas, &mut engine.prev_controller_data);
    let layout = get_current_controller_layout_map(engine.current_device.controller_type);
    let use_sub_preset = handle_preset_switching_decision(
        &mut engine.switch,
        &engine.presets.current,
        engine.presets.sub_preset.is_some(),
        layout,
        &datas,
    );
    proof {
        crate::dispatch::lemma_dispatch_touches_only_buttons(
            active_mappings(engine.table@, use_sub_preset),
            layout,
            tick_start(engine.table@, datas, use_sub_preset),
            now,
        );
    }
    let commands = crate::dispatch::map(
        &mut engine.table,
        &mut datas,
        use_sub_preset,
        layout,
        now,
    );
    engine.controller_data = datas;
    TickOutput { update, use_sub_preset, commands }
}

/// Whether two states of the engine agree in what a tick runs on: the
/// rotation detectors, the switch between preset and sub-preset, the two
/// snapshots, the sampler and the timing.
pub open spec fn same_running_state(before: InputEngine, after: InputEngine) -> bool {
    &&& after.rotation == before.rotation
    &&& after.switch == before.switch
    &&& after.controller_data == before.controller_data
    &&& after.prev_controller_data == before.prev_controller_data
    &&& after.sampler == before.sampler
    &&& after.timing == before.timing
}

/// Takes the named device into use, if it is among the connected ones, and
/// with it the calibration stored for it.
pub fn use_device(
    engine: &mut InputEngine,
    devices: &Vec<DeviceInfo>,
    device_name: &str,
    calibration_mode: &str,
    stored: Option<CalibrationFile>,
) -> (found: bool)
    ensures
        found == exists|i: int|
            crate::discovery::is_first_named(
                crate::device::device_views(devices@),
                device_name@,
                i,
            ),
        !found ==> final(engine).current_device@ == old(engine).current_device@
            && final(engine).session == old(engine).session,
        found ==> (exists|i: int|
            crate::discovery::is_first_named(
                crate::device::device_views(devices@),
                device_name@,
                i,
            ) && final(engine).current_device@ == crate::device::device_views(devices@)[i])
            && final(engine).session == (CalibrationSession {
            calibration: loaded(calibration_mode@, stored),
            ..old(engine).session
        }),
        final(engine).table@ == old(engine).table@,
        final(engine).presets == old(engine).presets,
        same_running_state(*old(engine), *final(engine)),
{
    match crate::discovery::_find_device_by_name(devices, device_name) {
        Some(device) => {
            engine.current_device = device;
            load_calibration(&mut engine.session, calibration_mode, stored);
            true
        },
        None => {
            assert forall|i: int|
                !crate::discovery::is_first_named(
                    crate::device::device_views(devices@),
                    device_name@,
                    i,
                ) by {}
            false
        },
    }
}

/// Lets go of the device in use: the first default device takes its place
/// and the calibration is blank again.
pub fn disconnect_device(engine: &mut InputEngine) -> (done: bool)
    ensures
        done,
        final(engine).current_device@ == crate::device::default_devices_spec()[0],
        final(engine).session == (CalibrationSession {
            calibration: crate::calibrate::ControllerCalibration::blank(),
            ..old(engine).session
        }),
        final(engine).table@ == old(engine).table@,
        final(engine).presets == old(engine).presets,
        same_running_state(*old(engine), *final(engine)),
{
    engine.current_device = unknown_device();
    reset_calibration(&mut engine.session);
    true
}

/// What the comparison of the device polled last with the device in use
/// shows.
#[derive(Clone, Copy, Debug, PartialEq, Eq, Structural)]
pub enum ConnectionEvent {
    /// A device came into use where none was.
    Connected,
    /// Another device came into use.
    Switched,
    /// The device went out of use.
    Disconnected,
    /// Nothing changed.
    Unchanged,
}

/// The event for the device polled last and the device in use. A device
/// counts as in use once its path is known.
pub open spec fn connection_event(
    last: Option<DeviceInfoView>,
    current: DeviceInfoView,
) -> ConnectionEvent {
    match (last, current.device_path) {
        (None, Some(_)) => ConnectionEvent::Connected,
        (Some(device), Some(path)) => if device.device_path != Some(path) {
            ConnectionEvent::Switched
        } else {
            ConnectionEvent::Unchanged
        },
        (Some(_), None) => ConnectionEvent::Disconnected,
        (None, None) => ConnectionEvent::Unchanged,
    }
}

/// The view of an optional device.
pub open spec fn device_view_of(device: Option<DeviceInfo>) -> Option<DeviceInfoView> {
    match device {
        Some(d) => Some(d@),
        None => None,
    }
}

/// Compares the device polled last with the device in use, says what
/// changed, and notes the device to poll from now on: the device in use
/// while its path is known, none otherwise.
pub fn track_connection(last_device: &mut Option<DeviceInfo>, current_device: &DeviceInfo) -> (event:
    ConnectionEvent)
    ensures
        event == connection_event(device_view_of(*old(last_device)), current_device@),
        event == ConnectionEvent::Unchanged ==> device_view_of(*final(last_device))
            == device_view_of(*old(last_device)),
        event == ConnectionEvent::Disconnected ==> *final(last_device) is None,
        event == ConnectionEvent::Connected || event == ConnectionEvent::Switched
            ==> device_view_of(*final(last_device)) == Some(current_device@),
{
    let same_path = match (&*last_device, &current_device.device_path) {
        (Some(device), Some(path)) => match &device.device_path {
            Some(known) => crate::text::str_eq(known.as_str(), path.as_str()),
            None => false,
        },
        _ => false,
    };
    let last_has_device = last_device.is_some();
    let current_has_device = current_device.device_path.is_some();
    if !last_has_device && current_has_device {
        *last_device = Some(current_device.duplicate());
        ConnectionEvent::Connected
    } else if last_has_device && current_has_device && !same_path {
        *last_device = Some(current_device.duplicate());
        ConnectionEvent::Switched
    } else if last_has_device && !current_has_device {
        *last_device = None;
        ConnectionEvent::Disconnected
    } else {
        ConnectionEvent::Unchanged
    }
}

/// The snapshot of the latest tick.
pub fn get_controller_data(engine: &InputEngine) -> (datas: ControllerDatas)
    ensures
        datas == engine.controller_data,
{
    engine.controller_data
}

/// Lets go of the device in use because it was unplugged, and gives its
/// name for the notice to the user.
pub fn physical_disconnect_device(engine: &mut InputEngine) -> (name: String)
    ensures
        name@ == old(engine).current_device@.name,
        final(engine).current_device@ == crate::device::default_devices_spec()[0],
        final(engine).session == (CalibrationSession {
            calibration: crate::calibrate::ControllerCalibration::blank(),
            ..old(engine).session
        }),
        final(engine).table@ == old(engine).table@,
        final(engine).presets == old(engine).presets,
        same_running_state(*old(engine), *final(engine)),
{
    let name = engine.current_device.name.clone();
    disconnect_device(engine);
    name
}

/// The place of the mapping table of a preset, relative to the directory
/// of settings.
pub open spec fn mapping_path_of(preset: crate::preset::PresetView) -> Seq<char> {
    "presets/"@ + preset.name + "/"@ + preset.items.mappings_file_name
}

/// The place of the mapping table of a preset, relative to the directory
/// of settings.
pub fn mapping_path(preset: &crate::preset::Preset) -> (path: String)
    ensures
        path@ == mapping_path_of(preset@),
{
    let mut path = String::from_str("presets/");
    path.append(preset.name.as_str());
    path.append("/");
    path.append(preset.items.mappings_file_name.as_str());
    path
}

/// Takes a preset that was read from storage into use, together with its
/// sub-preset where that could be read too, and points the mapping table at
/// the file of the preset. The result is a copy of the preset.
///
/// The mappings themselves are loaded by the caller, from the paths that
/// `mapping_path` gives.
pub fn switch_to_preset(
    engine: &mut InputEngine,
    preset: crate::preset::Preset,
    sub_preset: Option<crate::preset::Preset>,
) -> (current: crate::preset::Preset)
    ensures
        current@ == preset@,
        final(engine).presets.current@ == preset@,
        final(engine).presets.sub_preset == sub_preset,
        final(engine).presets.listed() == old(engine).presets.listed(),
        final(engine).table@ == (TableView {
            file_path: mapping_path_of(preset@),
            ..old(engine).table@
        }),
        final(engine).session == old(engine).session,
        final(engine).current_device@ == old(engine).current_device@,
        same_running_state(*old(engine), *final(engine)),
{
    let path = mapping_path(&preset);
    crate::table::set_mapping_file_path(&mut engine.table, path);
    let current = preset.duplicate();
    engine.presets.current = preset;
    engine.presets.sub_preset = sub_preset;
    current
}

/// Replaces the items of the preset in use, and the sub-preset by the one
/// that the new items name, where it could be read.
pub fn update_preset_items(
    engine: &mut InputEngine,
    items: crate::preset::PresetItems,
    sub_preset: Option<crate::preset::Preset>,
)
    ensures
        final(engine).presets.current@ == (crate::preset::PresetView {
            items: items@,
            ..old(engine).presets.current@
        }),
        final(engine).presets.sub_preset == if items.sub_preset_name is Some {
            sub_preset
        } else {
            None
        },
        final(engine).presets.listed() == old(engine).presets.listed(),
        final(engine).table@ == old(engine).table@,
        final(engine).session == old(engine).session,
        final(engine).current_device@ == old(engine).current_device@,
        same_running_state(*old(engine), *final(engine)),
{
    engine.presets.sub_preset = if items.sub_preset_name.is_some() {
        sub_preset
    } else {
        None
    };
    engine.presets.current.items = items;
}

} // verus!
