use xiallocontrol::app_state::{AppState, AppStateWrapper};
use xiallocontrol::datas::{ControllerButtons, ControllerDatas, ControllerTrigger, StickPoint};
use xiallocontrol::device::{ControllerType, DeviceInfo};
use xiallocontrol::ids::{parse_id, update_last_connected_device_setting};
use xiallocontrol::mouse::{handle_mouse_movement, MouseMovementState};
use xiallocontrol::preset::Preset;
use xiallocontrol::setting::{AppSettings, LastConnectedDevice};
use xiallocontrol::transport::{
    pack_buttons, ButtonReadings, XInputState, _poll_other_controllers,
    _poll_xbox_controller_state,
};

fn no_buttons() -> ButtonReadings {
    ButtonReadings {
        south: false,
        east: false,
        west: false,
        north: false,
        left_shoulder: false,
        right_shoulder: false,
        left_thumb: false,
        right_thumb: false,
        select: false,
        start: false,
        guide: false,
        arrow_left: false,
        arrow_right: false,
        arrow_up: false,
        arrow_down: false,
    }
}

#[test]
fn buttons_are_packed_at_their_places() {
    assert_eq!(pack_buttons(&no_buttons()), 0);
    let single = [
        (ButtonReadings { south: true, ..no_buttons() }, ControllerButtons::South),
        (ButtonReadings { east: true, ..no_buttons() }, ControllerButtons::East),
        (ButtonReadings { west: true, ..no_buttons() }, ControllerButtons::West),
        (ButtonReadings { north: true, ..no_buttons() }, ControllerButtons::North),
        (ButtonReadings { left_shoulder: true, ..no_buttons() }, ControllerButtons::LB),
        (ButtonReadings { right_shoulder: true, ..no_buttons() }, ControllerButtons::RB),
        (ButtonReadings { left_thumb: true, ..no_buttons() }, ControllerButtons::LStick),
        (ButtonReadings { right_thumb: true, ..no_buttons() }, ControllerButtons::RStick),
        (ButtonReadings { select: true, ..no_buttons() }, ControllerButtons::Back),
        (ButtonReadings { start: true, ..no_buttons() }, ControllerButtons::Start),
        (ButtonReadings { guide: true, ..no_buttons() }, ControllerButtons::Guide),
        (ButtonReadings { arrow_left: true, ..no_buttons() }, ControllerButtons::Left),
        (ButtonReadings { arrow_right: true, ..no_buttons() }, ControllerButtons::Right),
        (ButtonReadings { arrow_up: true, ..no_buttons() }, ControllerButtons::Up),
        (ButtonReadings { arrow_down: true, ..no_buttons() }, ControllerButtons::Down),
    ];
    let mut all = 0;
    for (readings, button) in single {
        assert_eq!(pack_buttons(&readings), 1 << button.bit());
        all |= pack_buttons(&readings);
    }
    assert_eq!(all, 0x7fff);
}

#[test]
fn console_pad_readings_become_a_raw_sample() {
    let state = XInputState {
        buttons: ButtonReadings { south: true, start: true, ..no_buttons() },
        left_stick_raw: (32_767, -32_768),
        right_stick_raw: (0, 16_384),
        left_trigger: 255,
        right_trigger: 128,
        left_trigger_bool: true,
        right_trigger_bool: false,
    };
    let sample = _poll_xbox_controller_state(&state);
    assert_eq!(sample.left_stick, StickPoint { x: 1_000_000, y: -1_000_000 });
    assert_eq!(sample.right_stick, StickPoint { x: 15, y: 500_022 });
    assert_eq!(
        sample.left_trigger,
        ControllerTrigger { value: 1_000_000, has_pressure: true, is_pressed: true }
    );
    assert_eq!(
        sample.right_trigger,
        ControllerTrigger { value: 501_960, has_pressure: true, is_pressed: false }
    );
    assert_eq!(sample.raw_buttons, 1 | (1 << 9));
}

#[test]
fn gamepad_readings_become_a_raw_sample() {
    let sample = _poll_other_controllers(
        &ButtonReadings { guide: true, ..no_buttons() },
        StickPoint { x: 1, y: 2 },
        StickPoint { x: 3, y: 4 },
        5,
        6,
    );
    assert_eq!(sample.left_stick, StickPoint { x: 1, y: 2 });
    assert_eq!(sample.right_stick, StickPoint { x: 3, y: 4 });
    assert_eq!(
        sample.left_trigger,
        ControllerTrigger { value: 5, has_pressure: false, is_pressed: false }
    );
    assert_eq!(sample.right_trigger.value, 6);
    assert_eq!(sample.raw_buttons, 1 << 10);
}

#[test]
fn ids_are_read_as_hexadecimal_numbers() {
    assert_eq!(parse_id("045e"), 0x045e);
    assert_eq!(parse_id("045E"), 0x045e);
    assert_eq!(parse_id("ffff"), 0xffff);
    assert_eq!(parse_id("0000ffff"), 0xffff);
    assert_eq!(parse_id("+1f"), 0x1f);
    assert_eq!(parse_id("0"), 0);
    for bad in ["", "+", "10000", "fffff", "12g4", "-1", " 1", "1 ", "0x10", "++1"] {
        assert_eq!(parse_id(bad), 0, "{bad:?}");
    }
}

#[test]
fn the_device_in_use_is_noted_by_its_numbers() {
    let mut settings = AppSettings::default();
    let mut device = DeviceInfo::new("d".to_string(), "054c".to_string(), ControllerType::Other);
    device.product_id = Some("09CC".to_string());
    update_last_connected_device_setting(&mut settings, Some(&device));
    assert_eq!(
        settings.last_connected_device,
        Some(LastConnectedDevice { vid: 0x054c, pid: 0x09cc, sub_pid: 0 })
    );
    device.vendor_id = "nonsense".to_string();
    device.sub_product_id = Some("0001".to_string());
    update_last_connected_device_setting(&mut settings, Some(&device));
    assert_eq!(
        settings.last_connected_device,
        Some(LastConnectedDevice { vid: 0, pid: 0x09cc, sub_pid: 1 })
    );
    update_last_connected_device_setting(&mut settings, None);
    assert_eq!(settings.last_connected_device, None);
    assert_eq!(settings.polling_frequency, 125);
}

#[test]
fn the_pointer_moves_by_whole_pixels_and_keeps_the_rest() {
    let mut preset = Preset::new("p".to_string());
    let mut datas = ControllerDatas::new();
    datas.right_stick.x = 500_000;
    datas.right_stick.y = -100_000;
    datas.left_stick.x = -1_000_000;
    let mut state = MouseMovementState::default();
    assert_eq!(handle_mouse_movement(&mut state, &datas, &preset), None);
    preset.items.use_stick_as_mouse = true;
    assert_eq!(handle_mouse_movement(&mut state, &datas, &preset), None);
    preset.items.stick_as_mouse_simulation = Some("elbow".to_string());
    assert_eq!(handle_mouse_movement(&mut state, &datas, &preset), None);
    assert_eq!(state, MouseMovementState::default());

    preset.items.stick_as_mouse_simulation = Some("right".to_string());
    preset.items.move_speed = 3;
    assert_eq!(handle_mouse_movement(&mut state, &datas, &preset), Some((1, 0)));
    assert_eq!(state, MouseMovementState { move_x_remainder: 500_000, move_y_remainder: 300_000 });
    assert_eq!(handle_mouse_movement(&mut state, &datas, &preset), Some((2, 0)));
    assert_eq!(state, MouseMovementState { move_x_remainder: 0, move_y_remainder: 600_000 });
    assert_eq!(handle_mouse_movement(&mut state, &datas, &preset), Some((1, 0)));
    assert_eq!(handle_mouse_movement(&mut state, &datas, &preset), Some((2, 1)));
    assert_eq!(state, MouseMovementState { move_x_remainder: 0, move_y_remainder: 200_000 });

    preset.items.stick_as_mouse_simulation = Some("left".to_string());
    assert_eq!(handle_mouse_movement(&mut state, &datas, &preset), Some((-3, 0)));
    preset.items.stick_as_mouse_simulation = Some("touchpad".to_string());
    assert_eq!(handle_mouse_movement(&mut state, &datas, &preset), None);
    assert_eq!(state, MouseMovementState { move_x_remainder: 0, move_y_remainder: 200_000 });
    preset.items.stick_as_mouse_simulation = Some("left".to_string());
    preset.items.move_speed = 0;
    assert_eq!(handle_mouse_movement(&mut state, &datas, &preset), None);
}

#[test]
fn shared_state_starts_with_the_default_preset() {
    let state = AppState::new();
    assert_eq!(state.preset_manager.current.name, "default");
    assert!(state.preset_manager.presets.is_empty());
    assert!(state.preset_manager.sub_preset.is_none());
    let wrapper = AppStateWrapper { app_state: std::sync::Arc::new(AppState::default()) };
    assert_eq!(wrapper.app_state.preset_manager.current.items.deadzone, 5);
}
