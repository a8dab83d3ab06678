use xiallocontrol::calibrate::ControllerCalibration;
use xiallocontrol::datas::ControllerDatas;
use xiallocontrol::device::{ControllerType, DeviceInfo};
use xiallocontrol::engine::{
    get_controller_data, initialize, mapping_path, physical_disconnect_device, switch_to_preset,
    update_preset_items, use_device,
};
use xiallocontrol::preset::{
    check_rename, create_preset, rename_preset, Preset, PresetError, PresetManager,
};
use xiallocontrol::setting::AppSettings;
use xiallocontrol::table::get_mapping_file_path;

#[test]
fn renaming_is_judged_before_anything_moves() {
    assert_eq!(check_rename("fps", "fps"), Ok(false));
    assert_eq!(check_rename("default", "default"), Ok(false));
    assert_eq!(check_rename("fps", ""), Err(PresetError::EmptyName));
    assert_eq!(check_rename("default", ""), Err(PresetError::EmptyName));
    assert_eq!(check_rename("default", "mine"), Err(PresetError::DefaultPreset));
    assert_eq!(check_rename("fps", "racing"), Ok(true));
    assert_eq!(check_rename("", "racing"), Ok(true));
}

#[test]
fn renaming_changes_the_name_in_the_list_only() {
    let mut manager = PresetManager::new();
    create_preset(&mut manager, "fps").unwrap();
    create_preset(&mut manager, "racing").unwrap();
    manager.presets[0].items.deadzone = 42;
    assert_eq!(rename_preset(&mut manager, "fps", ""), Err(PresetError::EmptyName));
    assert_eq!(rename_preset(&mut manager, "fps", "fps"), Ok(false));
    assert_eq!(manager.presets[0].name, "fps");
    assert_eq!(rename_preset(&mut manager, "fps", "shooter"), Ok(true));
    assert_eq!(manager.presets[0].name, "shooter");
    assert_eq!(manager.presets[0].items.deadzone, 42);
    assert_eq!(manager.presets[1].name, "racing");
    assert_eq!(rename_preset(&mut manager, "missing", "other"), Ok(true));
    assert_eq!(manager.presets.len(), 2);
    assert_eq!(manager.current.name, "default");
}

#[test]
fn a_preset_comes_into_use_with_its_sub_preset_and_its_table() {
    let mut engine = initialize(&AppSettings::default(), 0);
    let mut fps = Preset::new("fps".to_string());
    fps.items.mappings_file_name = "keys.toml".to_string();
    fps.items.sub_preset_name = Some("aim".to_string());
    assert_eq!(mapping_path(&fps), "presets/fps/keys.toml");
    let current = switch_to_preset(&mut engine, fps, Some(Preset::new("aim".to_string())));
    assert_eq!(current.name, "fps");
    assert_eq!(engine.presets.current.name, "fps");
    assert_eq!(engine.presets.sub_preset.as_ref().unwrap().name, "aim");
    assert_eq!(get_mapping_file_path(&engine.table), "presets/fps/keys.toml");

    let mut items = Preset::new("x".to_string()).items;
    items.deadzone = 33;
    update_preset_items(&mut engine, items, Some(Preset::new("stale".to_string())));
    assert_eq!(engine.presets.current.name, "fps");
    assert_eq!(engine.presets.current.items.deadzone, 33);
    assert!(engine.presets.sub_preset.is_none());
    let mut items = Preset::new("x".to_string()).items;
    items.sub_preset_name = Some("aim".to_string());
    update_preset_items(&mut engine, items, Some(Preset::new("aim".to_string())));
    assert_eq!(engine.presets.sub_preset.as_ref().unwrap().name, "aim");
    let mut items = Preset::new("x".to_string()).items;
    items.sub_preset_name = Some("gone".to_string());
    update_preset_items(&mut engine, items, None);
    assert!(engine.presets.sub_preset.is_none());
}

#[test]
fn an_unplugged_device_is_let_go_by_name() {
    let mut engine = initialize(&AppSettings::default(), 0);
    assert_eq!(get_controller_data(&engine), ControllerDatas::new());
    let devices = vec![DeviceInfo::new("Pad".to_string(), "045e".to_string(), ControllerType::Xbox)];
    assert!(use_device(&mut engine, &devices, "Pad", "square", None));
    engine.session.calibration.left_stick.update_range(1, 1);
    assert_eq!(physical_disconnect_device(&mut engine), "Pad");
    assert_eq!(engine.current_device.name, "UNKNOWN CONTROLLER");
    assert_eq!(engine.session.calibration, ControllerCalibration::new());
}
