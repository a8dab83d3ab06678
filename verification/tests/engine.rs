use xiallocontrol::calibrate::{
    CalibrationFile, ControllerCalibration, StickCaliMode, StickCalibration, StickRange,
    StickTestSteps,
};
use xiallocontrol::datas::{
    CompactControllerDatas, CompactPressureDatas, ControllerButtons, ControllerDatas,
    ControllerLimits, ControllerTrigger, JoystickRotation, StickPoint,
};
use xiallocontrol::device::{ControllerType, DeviceInfo};
use xiallocontrol::engine::{
    disconnect_device, initialize, set_frequency, shape_sticks, tick, track_connection,
    use_device, ConnectionEvent, PollTiming,
};
use xiallocontrol::layout::ButtonLayout;
use xiallocontrol::mapping::MappingUpdateConfig;
use xiallocontrol::preset::{
    create_preset, default_deadzone, delete_preset, get_current_preset,
    handle_preset_switching_decision, load_presets_from_list_to_global, update_deadzone,
    update_stick_as_mouse, update_stick_rotation_threshold, Preset, PresetError, PresetManager,
    SubPresetSwitch,
};
use xiallocontrol::sampler::AdaptiveSampler;
use xiallocontrol::session::{
    calibration_listener, cancel_stick_calibration, get_calibration_filepath,
    get_calibration_state, get_current_calibration, load_calibration,
    next_stick_calibration_step, reset_calibration, reset_calibration_to_default,
    save_calibration, save_current_calibration, set_calibration_mode, start_stick_calibration,
    CalibrationSession,
};
use xiallocontrol::setting::{
    bool_false, bool_true, default_polling_frequency, default_theme, get_config_path,
    get_setting, load_settings, load_settings_internal, save_settings, update_settings,
    AppSettings, SettingsChange, SettingsError,
};
use xiallocontrol::snapshot::{build_snapshot, pack_and_send_data, RawSample};
use xiallocontrol::table::add_mapping;

fn point(x: i32, y: i32) -> StickPoint {
    StickPoint { x, y }
}

fn raw(left: (i32, i32), right: (i32, i32), buttons: u32) -> RawSample {
    let trigger = ControllerTrigger { value: 0, has_pressure: false, is_pressed: false };
    RawSample {
        left_stick: point(left.0, left.1),
        right_stick: point(right.0, right.1),
        left_trigger: trigger,
        right_trigger: trigger,
        raw_buttons: buttons,
    }
}

#[test]
fn calibration_runs_through_its_steps() {
    let mut session = CalibrationSession::new();
    assert!(!session.is_calibrating);
    next_stick_calibration_step(&mut session, "left");
    assert_eq!(session, CalibrationSession::new());
    assert!(!calibration_listener(&mut session, point(1, 1), point(2, 2)));
    assert_eq!(session, CalibrationSession::new());

    session.calibration.left_stick.mode = StickCaliMode::Circle;
    session.calibration.left_stick.update_range(1, 2);
    assert!(start_stick_calibration(&mut session, "left", false));
    assert!(session.is_calibrating);
    assert_eq!(session.calibration.left_stick.step, StickTestSteps::CenterCheck);
    assert_eq!(session.calibration.left_stick.mode, StickCaliMode::Square);
    assert_eq!(session.calibration.left_stick.stick_range, StickRange::new());
    assert_eq!(session.calibration.right_stick, StickCalibration::new());

    assert!(calibration_listener(&mut session, point(10, -10), point(5, 5)));
    assert!(calibration_listener(&mut session, point(12, -8), point(6, 6)));
    assert_eq!(session.calibration.left_stick.stick_center, point(12, -8));
    assert_eq!(session.calibration.left_stick.stick_range, StickRange::new());
    assert_eq!(session.calibration.right_stick, StickCalibration::new());

    next_stick_calibration_step(&mut session, "left");
    assert_eq!(session.calibration.left_stick.step, StickTestSteps::RangeDetection);
    assert!(session.is_calibrating);
    calibration_listener(&mut session, point(900, -700), point(0, 0));
    calibration_listener(&mut session, point(-800, 600), point(0, 0));
    assert_eq!(
        session.calibration.left_stick.stick_range,
        StickRange { x_min: -800, x_max: 900, y_min: -700, y_max: 600 }
    );
    assert_eq!(session.calibration.left_stick.stick_center, point(12, -8));

    next_stick_calibration_step(&mut session, "left");
    assert_eq!(session.calibration.left_stick.step, StickTestSteps::Complete);
    assert!(!session.is_calibrating);
    assert!(!calibration_listener(&mut session, point(5000, 5000), point(0, 0)));
    assert_eq!(session.calibration.left_stick.stick_range.x_max, 900);
    next_stick_calibration_step(&mut session, "left");
    assert_eq!(session.calibration.left_stick.step, StickTestSteps::Complete);
}

#[test]
fn calibration_is_not_begun_while_the_listener_runs() {
    let mut session = CalibrationSession::new();
    assert!(!start_stick_calibration(&mut session, "right", true));
    assert_eq!(session, CalibrationSession::new());
    assert!(start_stick_calibration(&mut session, "right", false));
    assert_eq!(session.calibration.right_stick.step, StickTestSteps::CenterCheck);
    assert_eq!(session.calibration.left_stick.step, StickTestSteps::Idle);
    assert!(start_stick_calibration(&mut session, "anything else", false));
    assert_eq!(session.calibration.right_stick.step, StickTestSteps::CenterCheck);
}

#[test]
fn cancel_makes_the_stick_blank_again() {
    let mut session = CalibrationSession::new();
    cancel_stick_calibration(&mut session, "left");
    assert_eq!(session, CalibrationSession::new());
    start_stick_calibration(&mut session, "left", false);
    calibration_listener(&mut session, point(7, 7), point(0, 0));
    next_stick_calibration_step(&mut session, "left");
    calibration_listener(&mut session, point(70, 70), point(0, 0));
    cancel_stick_calibration(&mut session, "left");
    assert_eq!(session, CalibrationSession::new());
}

#[test]
fn calibration_mode_load_save_and_reset() {
    let mut session = CalibrationSession::new();
    set_calibration_mode(&mut session, "circle");
    assert_eq!(session.calibration.left_stick.mode, StickCaliMode::Circle);
    assert_eq!(session.calibration.right_stick.mode, StickCaliMode::Circle);
    set_calibration_mode(&mut session, "square");
    assert_eq!(session.calibration.right_stick.mode, StickCaliMode::Square);
    set_calibration_mode(&mut session, "Square");
    assert_eq!(session.calibration.right_stick.mode, StickCaliMode::Circle);

    let mut stored = StickCalibration::new();
    stored.update_range(-5, 5);
    stored.step = StickTestSteps::RangeDetection;
    let file = CalibrationFile { left_stick_calibration: stored, right_stick_calibration: stored };
    load_calibration(&mut session, "square", Some(file));
    assert_eq!(session.calibration.left_stick.stick_range.x_min, -5);
    assert_eq!(session.calibration.left_stick.mode, StickCaliMode::Square);
    load_calibration(&mut session, "whatever", Some(file));
    assert_eq!(session.calibration.right_stick.mode, StickCaliMode::Circle);
    assert_eq!(get_current_calibration(&session), session.calibration);
    assert_eq!(get_calibration_state(&session), session.calibration);

    let saved = save_current_calibration(&mut session);
    assert_eq!(saved.left_stick_calibration.step, StickTestSteps::Idle);
    assert_eq!(saved.left_stick_calibration.stick_range.x_min, -5);
    assert_eq!(session.calibration.right_stick.step, StickTestSteps::Idle);
    assert_eq!(save_calibration(&session.calibration), saved);

    load_calibration(&mut session, "circle", None);
    assert_eq!(session.calibration, ControllerCalibration::new());
    session.calibration.left_stick.update_range(1, 1);
    reset_calibration(&mut session);
    assert_eq!(session.calibration, ControllerCalibration::new());
    session.calibration.left_stick.update_range(1, 1);
    reset_calibration_to_default(&mut session);
    assert_eq!(session.calibration, ControllerCalibration::new());
}

#[test]
fn calibration_file_is_named_after_the_ids() {
    let mut device = DeviceInfo::new("d".to_string(), "045e".to_string(), ControllerType::Xbox);
    assert_eq!(get_calibration_filepath(&device), "cali_045e_0000_0000.toml");
    device.product_id = Some("028e".to_string());
    device.sub_product_id = Some("0b12".to_string());
    assert_eq!(get_calibration_filepath(&device), "cali_045e_028e_0b12.toml");
}

#[test]
fn settings_defaults_and_updates() {
    let settings = AppSettings::default();
    assert!(settings.auto_start);
    assert!(settings.minimize_to_tray);
    assert_eq!(settings.theme, "light");
    assert_eq!(settings.polling_frequency, 125);
    assert_eq!(settings.previous_preset, "default");
    assert!(bool_true());
    assert!(!bool_false());
    assert_eq!(default_theme(), "light");
    assert_eq!(default_polling_frequency(), 125);
    assert_eq!(get_config_path("settings.toml"), "xc_datas/settings.toml");

    let mut current = load_settings_internal(None);
    assert_eq!(current.polling_frequency, 125);
    let mut stored = AppSettings::default();
    stored.polling_frequency = 250;
    load_settings(&mut current, Some(stored.clone()));
    assert_eq!(get_setting(&current).polling_frequency, 250);
    assert_eq!(save_settings(&current).theme, "light");
    load_settings(&mut current, None);
    assert_eq!(current.polling_frequency, 125);

    let mut wanted = AppSettings::default();
    wanted.polling_frequency = 0;
    assert_eq!(
        update_settings(&mut current, wanted.clone()),
        Err(SettingsError::PollingFrequencyOutOfRange)
    );
    wanted.polling_frequency = 8001;
    assert_eq!(
        update_settings(&mut current, wanted.clone()),
        Err(SettingsError::PollingFrequencyOutOfRange)
    );
    assert_eq!(current.polling_frequency, 125);
    wanted.polling_frequency = 8000;
    assert_eq!(update_settings(&mut current, wanted.clone()), Ok(SettingsChange { auto_start: None }));
    assert_eq!(current.polling_frequency, 8000);
    wanted.polling_frequency = 1;
    wanted.auto_start = false;
    assert_eq!(
        update_settings(&mut current, wanted.clone()),
        Ok(SettingsChange { auto_start: Some(false) })
    );
    assert!(!current.auto_start);
}

#[test]
fn presets_are_listed_created_and_deleted() {
    let mut manager = PresetManager::new();
    assert_eq!(get_current_preset(&manager).name, "default");
    assert_eq!(default_deadzone(), 5);
    let preset = Preset::new("fps".to_string());
    assert_eq!(preset.items.mappings_file_name, "mappings.toml");
    assert_eq!(preset.items.deadzone, 5);
    assert_eq!(preset.items.deadzone_left, 5);
    assert_eq!(preset.items.stick_rotate_trigger_threshold, 15);
    assert!(!preset.items.use_stick_as_mouse);

    assert_eq!(create_preset(&mut manager, "").unwrap_err(), PresetError::EmptyName);
    assert_eq!(create_preset(&mut manager, "fps").unwrap().name, "fps");
    assert_eq!(create_preset(&mut manager, "fps").unwrap_err(), PresetError::NameTaken);
    assert_eq!(create_preset(&mut manager, "racing").unwrap().name, "racing");
    assert_eq!(manager.presets.len(), 2);
    assert_eq!(delete_preset(&mut manager, "default"), Err(PresetError::DefaultPreset));
    assert_eq!(delete_preset(&mut manager, "fps"), Ok(()));
    assert_eq!(manager.presets.len(), 1);
    assert_eq!(manager.presets[0].name, "racing");
    assert_eq!(delete_preset(&mut manager, "missing"), Ok(()));
    assert_eq!(manager.presets.len(), 1);

    load_presets_from_list_to_global(&mut manager, vec![]);
    assert_eq!(manager.presets.len(), 1);
    assert_eq!(manager.presets[0].name, "racing");
    load_presets_from_list_to_global(
        &mut manager,
        vec![Some(Preset::new("a".to_string())), None, Some(Preset::new("b".to_string()))],
    );
    assert_eq!(manager.presets.len(), 2);
    assert_eq!(manager.presets[0].name, "a");
    assert_eq!(manager.presets[1].name, "b");

    update_deadzone(&mut manager, 12, 34);
    update_stick_rotation_threshold(&mut manager, 25);
    update_stick_as_mouse(&mut manager, true, Some("right".to_string()));
    let current = get_current_preset(&manager);
    assert_eq!(current.items.deadzone, 12);
    assert_eq!(current.items.deadzone_left, 34);
    assert_eq!(current.items.stick_rotate_trigger_threshold, 25);
    assert!(current.items.use_stick_as_mouse);
    assert_eq!(current.items.stick_as_mouse_simulation.as_deref(), Some("right"));
    let mut preset = current;
    preset.set_mappings("other.toml".to_string());
    preset.set_deadzone(1);
    preset.set_deadzone_left(2);
    assert_eq!(preset.items.mappings_file_name, "other.toml");
    assert_eq!((preset.items.deadzone, preset.items.deadzone_left), (1, 2));
}

#[test]
fn sub_preset_is_switched_by_hold_or_toggle() {
    let mut preset = Preset::new("p".to_string());
    let mut state = SubPresetSwitch { active: false, last_button_state: false };
    let mut datas = ControllerDatas::new();
    let layout = ButtonLayout::Xbox;
    let mut decide = |state: &mut SubPresetSwitch, preset: &Preset, has: bool, datas: &ControllerDatas| {
        handle_preset_switching_decision(state, preset, has, layout, datas)
    };
    datas.set_button(ControllerButtons::LB, true);
    assert!(!decide(&mut state, &preset, true, &datas));
    preset.items.sub_preset_switch_button = Some("LB".to_string());
    assert!(!decide(&mut state, &preset, true, &datas));
    preset.items.sub_preset_switch_mode = Some("Hold".to_string());
    assert!(decide(&mut state, &preset, true, &datas));
    assert!(!decide(&mut state, &preset, false, &datas));
    datas.set_button(ControllerButtons::LB, false);
    assert!(!decide(&mut state, &preset, true, &datas));

    preset.items.sub_preset_switch_mode = Some("Toggle".to_string());
    assert!(!decide(&mut state, &preset, true, &datas));
    datas.set_button(ControllerButtons::LB, true);
    assert!(decide(&mut state, &preset, true, &datas));
    assert!(decide(&mut state, &preset, true, &datas));
    datas.set_button(ControllerButtons::LB, false);
    assert!(decide(&mut state, &preset, true, &datas));
    datas.set_button(ControllerButtons::LB, true);
    assert!(!decide(&mut state, &preset, true, &datas));
    datas.set_button(ControllerButtons::LB, false);
    decide(&mut state, &preset, true, &datas);
    datas.set_button(ControllerButtons::LB, true);
    assert!(decide(&mut state, &preset, true, &datas));
    assert!(!decide(&mut state, &preset, false, &datas));
    assert!(!state.active);

    preset.items.sub_preset_switch_mode = Some("hold".to_string());
    assert!(!decide(&mut state, &preset, true, &datas));
    preset.items.sub_preset_switch_mode = Some("Hold".to_string());
    preset.items.sub_preset_switch_button = Some("Nowhere".to_string());
    assert!(!decide(&mut state, &preset, true, &datas));
}

#[test]
fn buttons_are_independent() {
    let all = [
        ControllerButtons::South,
        ControllerButtons::East,
        ControllerButtons::West,
        ControllerButtons::North,
        ControllerButtons::LB,
        ControllerButtons::RB,
        ControllerButtons::LStick,
        ControllerButtons::RStick,
        ControllerButtons::Back,
        ControllerButtons::Start,
        ControllerButtons::Guide,
        ControllerButtons::Left,
        ControllerButtons::Right,
        ControllerButtons::Up,
        ControllerButtons::Down,
        ControllerButtons::LT,
        ControllerButtons::RT,
        ControllerButtons::LeftStickCW,
        ControllerButtons::LeftStickCCW,
        ControllerButtons::RightStickCW,
        ControllerButtons::RightStickCCW,
    ];
    for (i, button) in all.iter().enumerate() {
        assert_eq!(button.bit(), i as u32);
        let mut datas = ControllerDatas::new();
        datas.set_button(*button, true);
        assert_eq!(datas.buttons, 1 << i);
        for other in all {
            assert_eq!(datas.get_button(other), other == *button);
            assert_eq!(datas.button_is_pressed(other), other == *button);
        }
        datas.buttons = u32::MAX;
        datas.set_button(*button, false);
        assert_eq!(datas.buttons, !(1 << i));
    }
}

#[test]
fn snapshot_at_rest_and_compact_forms() {
    let datas = ControllerDatas::new();
    assert_eq!(datas.buttons, 0);
    assert_eq!(datas.left_stick_rotation, JoystickRotation::NoRotation);
    assert_eq!(datas.limits.sticks_value_min, -1_000_000);
    assert_eq!(datas.limits.sticks_value_max, 1_000_000);
    assert_eq!(datas.limits.triggers_value_max, 255);
    let mut limits = ControllerLimits::default();
    assert_eq!(limits.sticks_value_min, -32768);
    assert_eq!(limits.triggers_value_max, 255);
    limits.set_limits(1, 2, 3, 4);
    assert_eq!(
        limits,
        ControllerLimits {
            sticks_value_min: 1,
            sticks_value_max: 2,
            triggers_value_min: 3,
            triggers_value_max: 4
        }
    );
    let mut moved = datas;
    moved.buttons = 9;
    moved.left_stick.x = 1;
    moved.left_stick.y = 2;
    moved.right_stick.x = 3;
    moved.right_stick.y = 4;
    moved.left_trigger.value = 5;
    moved.right_trigger.value = 6;
    let pressure = CompactPressureDatas {
        left_stick_x: 1,
        left_stick_y: 2,
        right_stick_x: 3,
        right_stick_y: 4,
        left_trigger: 5,
        right_trigger: 6,
    };
    assert_eq!(moved.as_compact_pressure(), pressure);
    assert_eq!(moved.as_compact(), CompactControllerDatas { buttons: 9, pressure });
    assert_eq!(CompactControllerDatas::new(), datas.as_compact());
    assert_eq!(CompactPressureDatas::new(), datas.as_compact_pressure());
}

#[test]
fn snapshot_is_built_within_range_and_sent_only_when_changed() {
    let previous = ControllerDatas::new();
    let mut sample = raw((0, 0), (0, 0), 0xffff_ffff);
    sample.left_trigger.value = 2_000_000;
    sample.right_trigger.value = -5;
    sample.right_trigger.has_pressure = true;
    let built = build_snapshot(&sample, (2_000_000, -2_000_000, 5, -5), &previous);
    assert_eq!(built.buttons, 0x7fff);
    assert_eq!((built.left_stick.x, built.left_stick.y), (1_000_000, -1_000_000));
    assert_eq!((built.right_stick.x, built.right_stick.y), (5, -5));
    assert!(built.left_stick.is_pressed && built.right_stick.is_pressed);
    assert_eq!(built.left_trigger.value, 1_000_000);
    assert_eq!(built.right_trigger.value, 0);
    assert!(built.right_trigger.has_pressure);
    let mut with_trigger = previous;
    with_trigger.set_button(ControllerButtons::LT, true);
    with_trigger.set_button(ControllerButtons::LeftStickCW, true);
    let kept = build_snapshot(&raw((0, 0), (0, 0), 1), (0, 0, 0, 0), &with_trigger);
    assert_eq!(kept.buttons, 1 | (1 << 15));

    let mut sent = previous;
    assert_eq!(pack_and_send_data(&previous, &mut sent), None);
    assert_eq!(pack_and_send_data(&built, &mut sent), Some(built.as_compact()));
    assert_eq!(sent, built);
    assert_eq!(pack_and_send_data(&built, &mut sent), None);
}

#[test]
fn frequency_is_brought_into_range() {
    let sampler = AdaptiveSampler::new(200_000_000, 10_000);
    let mut timing = PollTiming { frequency: 0, sampling_rate: 0, time_interval: 0 };
    set_frequency(&mut timing, &sampler, 125, 0);
    assert_eq!(
        timing,
        PollTiming { frequency: 125, sampling_rate: 1_118_000, time_interval: 8_000 }
    );
    set_frequency(&mut timing, &sampler, 0, 0);
    assert_eq!(timing, PollTiming { frequency: 1, sampling_rate: 10_000, time_interval: 1_000_000 });
    set_frequency(&mut timing, &sampler, 9_000, 0);
    assert_eq!(
        timing,
        PollTiming { frequency: 8_000, sampling_rate: 32_000_000, time_interval: 125 }
    );
    set_frequency(&mut timing, &sampler, 400, 0);
    assert_eq!(timing.sampling_rate, 2_000_000);
}

#[test]
fn engine_ticks_from_raw_sample_to_commands() {
    let mut engine = initialize(&AppSettings::default(), 0);
    assert_eq!(engine.timing.frequency, 125);
    assert_eq!(engine.current_device.name, "UNKNOWN CONTROLLER");
    let request = |button: &str, key: &str| {
        MappingUpdateConfig::new(0)
            .with_composed_button(button.to_string())
            .with_composed_shortcut_key(key.to_string())
    };
    add_mapping(&mut engine.table, &request("A", "Ctrl+C"), 1).unwrap();
    add_mapping(&mut engine.table, &request("LeftStickCW", "MouseWheelDown"), 2).unwrap();

    let idle = raw((0, 0), (0, 0), 0);
    let out = tick(&mut engine, &idle, 0, 0, 0);
    assert!(out.update.is_none());
    assert!(out.commands.is_empty());
    assert!(!out.use_sub_preset);

    let pressed = raw((600_000, 0), (0, 0), 1);
    assert_eq!(shape_sticks(&engine, &pressed), (point(578_947, 0), point(0, 0)));
    let out = tick(&mut engine, &pressed, 0, 0, 8);
    let update = out.update.expect("the snapshot changed");
    assert_eq!(update.buttons, 1);
    assert_eq!(update.pressure.left_stick_x, 578_947);
    assert_eq!(out.commands.len(), 1);
    assert_eq!(engine.controller_data.left_stick.x, 578_947);

    let out = tick(&mut engine, &pressed, 0, 0, 16);
    assert!(out.update.is_none());
    assert!(out.commands.is_empty());

    let turned = raw((560_000, -200_000), (0, 0), 1);
    let out = tick(&mut engine, &turned, 20_000, 0, 24);
    let update = out.update.expect("the snapshot changed");
    assert_eq!(update.buttons, 1 | (1 << 17));
    assert_eq!(engine.controller_data.left_stick_rotation, JoystickRotation::Clockwise);
    assert_eq!(out.commands.len(), 1);

    let out = tick(&mut engine, &idle, 0, 0, 32);
    assert_eq!(out.commands.len(), 2);
    assert_eq!(engine.controller_data.buttons, 0);
    assert_eq!(engine.rotation.left.accumulated_angle_delta, 0);
}

#[test]
fn presets_that_cannot_be_read_clear_the_list_and_no_names_keep_it() {
    let mut manager = PresetManager::new();
    load_presets_from_list_to_global(&mut manager, vec![Some(Preset::new("a".to_string()))]);
    assert_eq!(manager.presets.len(), 1);
    load_presets_from_list_to_global(&mut manager, vec![]);
    assert_eq!(manager.presets.len(), 1);
    assert_eq!(manager.presets[0].name, "a");
    load_presets_from_list_to_global(&mut manager, vec![None, None]);
    assert!(manager.presets.is_empty());
    assert_eq!(get_current_preset(&manager).name, "default");
}

#[test]
fn engine_shapes_a_stick_that_was_never_calibrated() {
    let mut engine = initialize(&AppSettings::default(), 0);
    assert_eq!(engine.session.calibration, ControllerCalibration::new());
    let inside = raw((30_000, 30_000), (0, -49_999), 0);
    assert_eq!(shape_sticks(&engine, &inside), (point(0, 0), point(0, 0)));
    let out = tick(&mut engine, &inside, 45_000, 90_000, 0);
    assert!(out.update.is_none());
    assert_eq!(engine.controller_data.left_stick.x, 0);
    assert_eq!(engine.controller_data.right_stick.y, 0);

    let edge = raw((50_000, 0), (0, -1_000_000), 0);
    assert_eq!(shape_sticks(&engine, &edge), (point(0, 0), point(0, -1_000_000)));
    let beyond = raw((1_000_000, 1_000_000), (525_000, 0), 0);
    assert_eq!(shape_sticks(&engine, &beyond), (point(707_107, 707_107), point(500_000, 0)));

    update_deadzone(&mut engine.presets, 0, 50);
    let sample = raw((600_000, 0), (300_000, -400_000), 0);
    assert_eq!(shape_sticks(&engine, &sample), (point(200_000, 0), point(300_000, -400_000)));
    tick(&mut engine, &sample, 0, 53_130, 8);
    assert_eq!(engine.controller_data.left_stick.x, 200_000);
    assert_eq!(engine.controller_data.right_stick.y, -400_000);
}

#[test]
fn engine_shapes_sticks_with_the_deadzones_of_the_preset() {
    let mut engine = initialize(&AppSettings::default(), 0);
    let mut record = StickCalibration::new();
    record.mode = StickCaliMode::Circle;
    record.update_range(-1_000_000, -1_000_000);
    record.update_range(1_000_000, 1_000_000);
    engine.session.calibration.left_stick = record;
    engine.session.calibration.right_stick = record;
    update_deadzone(&mut engine.presets, 20, 10);
    let sample = raw((-300_000, -400_000), (0, 500_000), 0);
    assert_eq!(
        shape_sticks(&engine, &sample),
        (point(-266_666, -355_555), point(0, 375_000))
    );
    let small = raw((50_000, 50_000), (100_000, 100_000), 0);
    assert_eq!(shape_sticks(&engine, &small), (point(0, 0), point(0, 0)));
}

#[test]
fn device_is_taken_into_use_and_let_go() {
    let mut engine = initialize(&AppSettings::default(), 0);
    let mut pad = DeviceInfo::new("Pad".to_string(), "054c".to_string(), ControllerType::PlayStation);
    pad.device_path = Some("/dev/input/js0".to_string());
    let devices = vec![pad.clone()];
    let mut record = StickCalibration::new();
    record.update_range(3, 4);
    let file = CalibrationFile { left_stick_calibration: record, right_stick_calibration: record };
    assert!(!use_device(&mut engine, &devices, "Other", "circle", Some(file)));
    assert_eq!(engine.current_device.name, "UNKNOWN CONTROLLER");
    assert_eq!(engine.session.calibration, ControllerCalibration::new());
    assert!(use_device(&mut engine, &devices, "Pad", "circle", Some(file)));
    assert_eq!(engine.current_device.name, "Pad");
    assert_eq!(engine.session.calibration.left_stick.stick_range.x_max, 3);
    assert_eq!(engine.session.calibration.left_stick.mode, StickCaliMode::Circle);

    let mut last = None;
    assert_eq!(track_connection(&mut last, &engine.current_device), ConnectionEvent::Connected);
    assert_eq!(track_connection(&mut last, &engine.current_device), ConnectionEvent::Unchanged);
    let mut moved = pad.clone();
    moved.device_path = Some("/dev/input/js1".to_string());
    assert_eq!(track_connection(&mut last, &moved), ConnectionEvent::Switched);
    assert_eq!(last.as_ref().unwrap().device_path.as_deref(), Some("/dev/input/js1"));

    assert!(disconnect_device(&mut engine));
    assert_eq!(engine.current_device.name, "UNKNOWN CONTROLLER");
    assert_eq!(engine.session.calibration, ControllerCalibration::new());
    assert_eq!(track_connection(&mut last, &engine.current_device), ConnectionEvent::Disconnected);
    assert!(last.is_none());
    assert_eq!(track_connection(&mut last, &engine.current_device), ConnectionEvent::Unchanged);
}
