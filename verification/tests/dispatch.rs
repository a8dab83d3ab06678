use xiallocontrol::action::{
    Action, Button, Direction, EnigoCommand, Executable, InjectorOp, Key, PrimaryAction,
};
use xiallocontrol::datas::{ControllerButtons, ControllerDatas, JoystickRotation};
use xiallocontrol::dispatch::handle_trigger_data;
use xiallocontrol::layout::ButtonLayout;
use xiallocontrol::mapping::{
    create_mapping_from_config, Mapping, MappingError, MappingTag, MappingUpdateConfig,
};
use xiallocontrol::parse::ParseError;
use xiallocontrol::press::CheckMode;
use xiallocontrol::table::{
    add_mapping, delete_mapping, get_mapping_by_id, get_mapping_file_path, get_mappings,
    load_mappings, load_sub_mappings, release_held_keys, save_mappings, set_mapping,
    set_mapping_file_path, update_mapping, update_mappings_order, MappingTable,
};
use xiallocontrol::trigger::TriggerState;

fn config(id: u64, button: &str, key: &str) -> MappingUpdateConfig {
    MappingUpdateConfig::new(id)
        .with_composed_button(button.to_string())
        .with_composed_shortcut_key(key.to_string())
}

fn continuous() -> TriggerState {
    let mut state = TriggerState::new(300, 100, 800, 0);
    state.continually_trigger = true;
    state
}

fn kinds(commands: &[EnigoCommand]) -> Vec<&'static str> {
    commands
        .iter()
        .map(|c| match c {
            EnigoCommand::Execute(_) => "execute",
            EnigoCommand::ExecutePress(_) => "press",
            EnigoCommand::ExecuteRelease(_) => "release",
        })
        .collect()
}

fn released_keys(commands: &[EnigoCommand]) -> Vec<PrimaryAction> {
    commands
        .iter()
        .map(|c| match c {
            EnigoCommand::ExecuteRelease(action) => action.primary.clone(),
            other => panic!("gave {other:?}"),
        })
        .collect()
}

fn table_with_a_held() -> (MappingTable, ControllerDatas) {
    let mut table = MappingTable::new();
    add_mapping(&mut table, &config(0, "A", "a"), 1).unwrap();
    add_mapping(&mut table, &config(0, "B", "b"), 2).unwrap();
    let mut datas = ControllerDatas::new();
    datas.set_button(ControllerButtons::South, true);
    let commands = xiallocontrol::dispatch::map(&mut table, &mut datas, false, ButtonLayout::Xbox, 8);
    assert_eq!(kinds(&commands), vec!["press"]);
    (table, datas)
}

fn tick(table: &mut MappingTable, datas: &mut ControllerDatas, now: u64) -> Vec<&'static str> {
    let commands = xiallocontrol::dispatch::map(table, datas, false, ButtonLayout::Xbox, now);
    kinds(&commands)
}

#[test]
fn whole_action_presses_modifiers_acts_and_releases_in_reverse() {
    let action = Action {
        modifiers: vec![Key::Control, Key::Shift],
        primary: PrimaryAction::KeyPress { key: Key::Unicode('c') },
    };
    let press = |key| InjectorOp::Key { key, direction: Direction::Press };
    let release = |key| InjectorOp::Key { key, direction: Direction::Release };
    assert_eq!(
        action.execute(),
        vec![
            press(Key::Control),
            press(Key::Shift),
            InjectorOp::Key { key: Key::Unicode('c'), direction: Direction::Click },
            release(Key::Shift),
            release(Key::Control),
        ]
    );
    assert_eq!(
        action.execute_press(),
        vec![press(Key::Control), press(Key::Shift), press(Key::Unicode('c'))]
    );
    assert_eq!(
        action.execute_release(),
        vec![release(Key::Unicode('c')), release(Key::Shift), release(Key::Control)]
    );
    assert_eq!(EnigoCommand::Execute(action.clone()).operations(), action.execute());
    assert_eq!(EnigoCommand::ExecutePress(action.clone()).operations(), action.execute_press());
    assert_eq!(
        EnigoCommand::ExecuteRelease(action.clone()).operations(),
        action.execute_release()
    );
}

#[test]
fn primary_actions_by_kind() {
    let click = PrimaryAction::MouseClick { button: Button::Left };
    assert_eq!(
        click.execute(),
        vec![InjectorOp::Button { button: Button::Left, direction: Direction::Click }]
    );
    assert_eq!(
        click.execute_press(),
        vec![InjectorOp::Button { button: Button::Left, direction: Direction::Press }]
    );
    assert_eq!(
        click.execute_release(),
        vec![InjectorOp::Button { button: Button::Left, direction: Direction::Release }]
    );
    let wheel = PrimaryAction::MouseWheel { amount: -3 };
    assert_eq!(wheel.execute(), vec![InjectorOp::Scroll { amount: -3 }]);
    assert_eq!(wheel.execute_press(), vec![InjectorOp::Scroll { amount: -3 }]);
    assert_eq!(wheel.execute_release(), vec![]);
    let keyboard = PrimaryAction::VirtualKeyboard { virtual_keyboard: Some(true) };
    assert_eq!(keyboard.execute(), vec![InjectorOp::ToggleVirtualKeyboard]);
    assert_eq!(keyboard.execute_press(), vec![InjectorOp::ToggleVirtualKeyboard]);
    assert_eq!(keyboard.execute_release(), vec![]);
    let nothing = PrimaryAction::NoAction { none: None };
    assert_eq!(nothing.execute(), vec![]);
    assert_eq!(nothing.execute_press(), vec![]);
    assert_eq!(nothing.execute_release(), vec![]);
    let default = Action::default();
    assert_eq!(default.modifiers, vec![]);
    assert_eq!(default.primary, PrimaryAction::KeyPress { key: Key::Space });
}

#[test]
fn new_mapping_has_the_defaults() {
    let mapping = Mapping::new(7, "A".to_string(), "space".to_string());
    assert_eq!(mapping.get_id(), 7);
    assert_eq!(mapping.get_composed_button(), "A");
    assert_eq!(mapping.get_composed_key(), "space");
    assert_eq!(mapping.check_mode, CheckMode::Single);
    assert_eq!(mapping.check_mode_param, 300);
    assert_eq!(mapping.trigger_theshold, 300_000);
    assert_eq!(mapping.action.primary, PrimaryAction::KeyPress { key: Key::Space });
    assert_eq!(mapping.mapping_tag, None);
    assert_eq!(mapping.trigger_state.interval, 300);
}

#[test]
fn mapping_is_made_from_a_request() {
    let request = config(0, "LT", "Ctrl+MouseWheelUp")
        .with_amount(-5)
        .with_check_mode(CheckMode::Long)
        .with_check_mode_param(450)
        .with_trigger_threshold(700_000)
        .with_trigger_state(continuous());
    let mapping = create_mapping_from_config(&request, 42).unwrap();
    assert_eq!(mapping.id, 42);
    assert_eq!(mapping.composed_button, "LT");
    assert_eq!(mapping.composed_shortcut_key, "Ctrl+MouseWheelUp");
    assert_eq!(mapping.check_mode, CheckMode::Long);
    assert_eq!(mapping.check_mode_param, 450);
    assert_eq!(mapping.trigger_theshold, 700_000);
    assert_eq!(mapping.action.modifiers, vec![Key::Control]);
    assert_eq!(mapping.action.primary, PrimaryAction::MouseWheel { amount: -5 });
    assert!(mapping.trigger_state.continually_trigger);
    assert_eq!(mapping.mapping_tag, None);
    let plain = create_mapping_from_config(&config(0, "A", "a").with_amount(9), 1).unwrap();
    assert_eq!(plain.action.primary, PrimaryAction::KeyPress { key: Key::Unicode('a') });
    assert_eq!(plain.check_mode_param, 300);
    assert_eq!(plain.trigger_theshold, 300_000);
    let bare = MappingUpdateConfig::new(3).with_composed_shortcut_key("b".to_string());
    assert_eq!(create_mapping_from_config(&bare, 3).unwrap().composed_button, "");
}

#[test]
fn request_without_or_with_a_bad_action_string_is_refused() {
    assert!(matches!(
        create_mapping_from_config(&MappingUpdateConfig::new(1), 1),
        Err(MappingError::MissingShortcutKey)
    ));
    assert!(matches!(
        create_mapping_from_config(&config(1, "A", "a+b"), 1),
        Err(MappingError::Parse(ParseError::MultiplePrimaryActions))
    ));
    match create_mapping_from_config(&config(1, "A", "Nonsense"), 1) {
        Err(MappingError::Parse(ParseError::UnknownKey(token))) => assert_eq!(token, "nonsense"),
        other => panic!("gave {other:?}"),
    }
}

#[test]
fn table_adds_updates_and_deletes() {
    let mut table = MappingTable::new();
    assert_eq!(get_mapping_file_path(&table), "mappings.toml");
    let mut request = config(0, "A", "Ctrl+C");
    request.mapping_tag = Some(MappingTag::Group);
    assert!(add_mapping(&mut table, &request, 10).is_ok());
    assert!(add_mapping(&mut table, &config(0, "B", "x"), 11).is_ok());
    assert!(matches!(
        add_mapping(&mut table, &config(0, "B", "x+y"), 12),
        Err(MappingError::Parse(ParseError::MultiplePrimaryActions))
    ));
    assert!(matches!(
        add_mapping(&mut table, &MappingUpdateConfig::new(0), 13),
        Err(MappingError::MissingShortcutKey)
    ));
    assert_eq!(table.mappings.len(), 2);
    assert_eq!(table.mappings[0].mapping_tag, Some(MappingTag::Group));
    assert!(table.trigger_states.contains_key(&10));
    assert!(table.button_check_states.contains_key(&11));
    assert!(!table.trigger_states.contains_key(&12));

    assert!(matches!(
        update_mapping(&mut table, &config(99, "A", "a")),
        Err(MappingError::NotFound)
    ));
    assert!(matches!(
        update_mapping(&mut table, &config(10, "Y", "a+")),
        Err(MappingError::Parse(ParseError::UnknownKey(_)))
    ));
    assert_eq!(table.mappings[0].composed_button, "A");
    assert!(update_mapping(&mut table, &MappingUpdateConfig::new(10)).unwrap().is_empty());
    assert_eq!(table.mappings[0].composed_shortcut_key, "Ctrl+C");

    table.trigger_states.get_mut(&10).unwrap().last_trigger = 77;
    table.trigger_states.get_mut(&10).unwrap().is_pressed = true;
    let change = config(10, "Y", "Shift+MouseWheelDown")
        .with_amount(4)
        .with_check_mode(CheckMode::Double)
        .with_trigger_state(continuous());
    let let_go = update_mapping(&mut table, &change).unwrap();
    assert_eq!(kinds(&let_go), vec!["release"]);
    assert_eq!(released_keys(&let_go), vec![PrimaryAction::KeyPress { key: Key::Unicode('c') }]);
    let changed = get_mapping_by_id(&table, 10).unwrap();
    assert_eq!(changed.composed_button, "Y");
    assert_eq!(changed.composed_shortcut_key, "Shift+MouseWheelDown");
    assert_eq!(changed.action.modifiers, vec![Key::Shift]);
    assert_eq!(changed.action.primary, PrimaryAction::MouseWheel { amount: 4 });
    assert_eq!(changed.check_mode, CheckMode::Double);
    assert_eq!(changed.check_mode_param, 300);
    assert_eq!(changed.mapping_tag, Some(MappingTag::Group));
    assert!(changed.trigger_state.continually_trigger);
    let running = table.trigger_states[&10];
    assert!(running.continually_trigger);
    assert_eq!(running.last_trigger, 77);
    assert!(!running.is_pressed);
    assert_eq!(table.mappings[1].composed_button, "B");

    let (deleted, let_go) = delete_mapping(&mut table, 99);
    assert!(!deleted && let_go.is_empty());
    assert_eq!(table.mappings.len(), 2);
    let (deleted, let_go) = delete_mapping(&mut table, 10);
    assert!(deleted && let_go.is_empty());
    assert_eq!(table.mappings.len(), 1);
    assert_eq!(table.mappings[0].id, 11);
    assert!(!table.trigger_states.contains_key(&10));
    assert!(!table.button_check_states.contains_key(&10));
    assert!(table.trigger_states.contains_key(&11));
    assert!(get_mapping_by_id(&table, 10).is_none());
}

#[test]
fn table_takes_whole_lists() {
    let mut table = MappingTable::new();
    let list = || {
        vec![
            Mapping::new(1, "A".to_string(), "space".to_string()),
            Mapping::new(2, "B".to_string(), "space".to_string()),
        ]
    };
    let ids = |mappings: &Vec<Mapping>| mappings.iter().map(|m| m.id).collect::<Vec<u64>>();
    let (loaded, let_go) = load_mappings(&mut table, list());
    assert_eq!(ids(&loaded), vec![1, 2]);
    assert!(let_go.is_empty());
    assert_eq!(ids(&save_mappings(&table)), vec![1, 2]);
    assert_eq!(ids(&get_mappings(&table)), vec![1, 2]);
    let mut reversed = list();
    reversed.reverse();
    let (done, let_go) = update_mappings_order(&mut table, reversed);
    assert!(done && let_go.is_empty());
    assert_eq!(ids(&table.mappings), vec![2, 1]);
    assert!(set_mapping(&mut table, vec![]).is_empty());
    assert!(table.mappings.is_empty());
    assert!(load_sub_mappings(&mut table, list()).is_empty());
    assert_eq!(ids(&table.sub_mappings), vec![1, 2]);
    set_mapping_file_path(&mut table, "presets/fps/mappings.toml".to_string());
    assert_eq!(get_mapping_file_path(&table), "presets/fps/mappings.toml");
}

#[test]
fn edge_triggered_mapping_presses_once_and_releases_once() {
    let mut table = MappingTable::new();
    add_mapping(&mut table, &config(0, "A", "Ctrl+C"), 1).unwrap();
    let mut datas = ControllerDatas::new();
    assert_eq!(tick(&mut table, &mut datas, 0), Vec::<&str>::new());
    datas.set_button(ControllerButtons::South, true);
    assert_eq!(tick(&mut table, &mut datas, 8), vec!["press"]);
    assert_eq!(tick(&mut table, &mut datas, 16), Vec::<&str>::new());
    assert_eq!(tick(&mut table, &mut datas, 500), Vec::<&str>::new());
    datas.set_button(ControllerButtons::South, false);
    assert_eq!(tick(&mut table, &mut datas, 508), vec!["release"]);
    assert_eq!(tick(&mut table, &mut datas, 516), Vec::<&str>::new());
    datas.set_button(ControllerButtons::South, true);
    assert_eq!(tick(&mut table, &mut datas, 600), vec!["press"]);
}

#[test]
fn a_press_is_released_even_when_the_mapping_changes_mid_press() {
    let mut table = MappingTable::new();
    add_mapping(&mut table, &config(0, "A", "a"), 1).unwrap();
    let mut datas = ControllerDatas::new();
    datas.set_button(ControllerButtons::South, true);
    assert_eq!(tick(&mut table, &mut datas, 8), vec!["press"]);
    let change = config(1, "A", "b").with_check_mode(CheckMode::Double);
    let let_go = update_mapping(&mut table, &change).unwrap();
    assert_eq!(kinds(&let_go), vec!["release"]);
    assert_eq!(released_keys(&let_go), vec![PrimaryAction::KeyPress { key: Key::Unicode('a') }]);
    assert!(!table.trigger_states[&1].is_pressed);
    datas.set_button(ControllerButtons::South, false);
    assert_eq!(tick(&mut table, &mut datas, 16), Vec::<&str>::new());
    assert!(!table.trigger_states[&1].is_pressed);
}

#[test]
fn a_change_that_is_refused_or_empty_lets_nothing_go() {
    let (mut table, _) = table_with_a_held();
    assert!(update_mapping(&mut table, &MappingUpdateConfig::new(1)).unwrap().is_empty());
    assert!(update_mapping(&mut table, &config(1, "A", "a+")).is_err());
    assert!(table.trigger_states[&1].is_pressed);
    let mut datas = ControllerDatas::new();
    assert_eq!(tick(&mut table, &mut datas, 16), vec!["release"]);
}

#[test]
fn a_change_to_an_unknown_source_or_to_repeat_still_lets_the_key_go() {
    let (mut table, _) = table_with_a_held();
    let let_go = update_mapping(&mut table, &config(1, "NoSuchButton", "b")).unwrap();
    assert_eq!(released_keys(&let_go), vec![PrimaryAction::KeyPress { key: Key::Unicode('a') }]);
    assert!(!table.trigger_states[&1].is_pressed);

    let (mut table, _) = table_with_a_held();
    let change = config(1, "A", "a").with_trigger_state(continuous());
    let let_go = update_mapping(&mut table, &change).unwrap();
    assert_eq!(kinds(&let_go), vec!["release"]);
    assert!(table.trigger_states[&1].continually_trigger);
    assert!(!table.trigger_states[&1].is_pressed);
}

#[test]
fn a_mapping_deleted_mid_press_hands_back_its_release() {
    let (mut table, mut datas) = table_with_a_held();
    let (deleted, let_go) = delete_mapping(&mut table, 1);
    assert!(deleted);
    assert_eq!(kinds(&let_go), vec!["release"]);
    assert_eq!(released_keys(&let_go), vec![PrimaryAction::KeyPress { key: Key::Unicode('a') }]);
    assert!(!table.trigger_states.contains_key(&1));
    assert_eq!(table.mappings.len(), 1);
    datas.set_button(ControllerButtons::South, false);
    assert_eq!(tick(&mut table, &mut datas, 16), Vec::<&str>::new());

    let (mut table, _) = table_with_a_held();
    let (deleted, let_go) = delete_mapping(&mut table, 2);
    assert!(deleted && let_go.is_empty());
    assert!(table.trigger_states[&1].is_pressed);
}

#[test]
fn mappings_replaced_mid_press_hand_back_the_releases_of_those_dropped() {
    let (mut table, _) = table_with_a_held();
    let same = get_mappings(&table);
    assert!(set_mapping(&mut table, same).is_empty());
    let mut first = get_mappings(&table);
    first.truncate(1);
    assert!(set_mapping(&mut table, first).is_empty());
    assert!(table.trigger_states[&1].is_pressed);
    assert_eq!(table.mappings.len(), 1);

    let other = vec![Mapping::new(7, "A".to_string(), "z".to_string())];
    let let_go = set_mapping(&mut table, other);
    assert_eq!(kinds(&let_go), vec!["release"]);
    assert_eq!(released_keys(&let_go), vec![PrimaryAction::KeyPress { key: Key::Unicode('a') }]);
    assert!(!table.trigger_states[&1].is_pressed);
    assert_eq!(table.mappings.len(), 1);
    assert_eq!(table.mappings[0].id, 7);
    assert!(set_mapping(&mut table, vec![]).is_empty());

    let (mut table, _) = table_with_a_held();
    let (loaded, let_go) = load_mappings(&mut table, vec![]);
    assert!(loaded.is_empty());
    assert_eq!(released_keys(&let_go), vec![PrimaryAction::KeyPress { key: Key::Unicode('a') }]);

    let (mut table, _) = table_with_a_held();
    let (done, let_go) = update_mappings_order(&mut table, vec![]);
    assert!(done);
    assert_eq!(released_keys(&let_go), vec![PrimaryAction::KeyPress { key: Key::Unicode('a') }]);
}

#[test]
fn a_mapping_replaced_under_its_id_by_another_action_lets_its_key_go() {
    let (mut table, mut datas) = table_with_a_held();
    let mut changed = get_mappings(&table);
    changed[0].action.primary = PrimaryAction::KeyPress { key: Key::Unicode('q') };
    let let_go = set_mapping(&mut table, changed);
    assert_eq!(released_keys(&let_go), vec![PrimaryAction::KeyPress { key: Key::Unicode('a') }]);
    assert!(!table.trigger_states[&1].is_pressed);
    datas.set_button(ControllerButtons::South, false);
    assert_eq!(tick(&mut table, &mut datas, 16), Vec::<&str>::new());

    let (mut table, _) = table_with_a_held();
    let mut changed = get_mappings(&table);
    changed[0].action.modifiers.push(Key::Shift);
    let (_, let_go) = load_mappings(&mut table, changed);
    assert_eq!(kinds(&let_go), vec!["release"]);
    match &let_go[0] {
        EnigoCommand::ExecuteRelease(action) => assert!(action.modifiers.is_empty()),
        other => panic!("gave {other:?}"),
    }
}

#[test]
fn every_dropped_mapping_that_holds_a_key_is_released_in_table_order() {
    let mut table = MappingTable::new();
    add_mapping(&mut table, &config(0, "A", "a"), 1).unwrap();
    add_mapping(&mut table, &config(0, "B", "b"), 2).unwrap();
    add_mapping(&mut table, &config(0, "X", "x").with_trigger_state(continuous()), 3).unwrap();
    add_mapping(&mut table, &config(0, "Y", "y"), 4).unwrap();
    let mut datas = ControllerDatas::new();
    datas.set_button(ControllerButtons::South, true);
    datas.set_button(ControllerButtons::East, true);
    datas.set_button(ControllerButtons::West, true);
    assert_eq!(tick(&mut table, &mut datas, 1_000), vec!["press", "press", "execute"]);
    let let_go = set_mapping(&mut table, vec![]);
    assert_eq!(
        released_keys(&let_go),
        vec![
            PrimaryAction::KeyPress { key: Key::Unicode('a') },
            PrimaryAction::KeyPress { key: Key::Unicode('b') },
        ]
    );
}

#[test]
fn a_switch_to_the_sub_preset_mid_press_lets_the_key_go() {
    let (mut table, mut datas) = table_with_a_held();
    let sub = vec![Mapping::new(9, "B".to_string(), "space".to_string())];
    assert!(load_sub_mappings(&mut table, sub).is_empty());
    let commands = xiallocontrol::dispatch::map(&mut table, &mut datas, true, ButtonLayout::Xbox, 16);
    assert_eq!(released_keys(&commands), vec![PrimaryAction::KeyPress { key: Key::Unicode('a') }]);
    assert!(!table.trigger_states[&1].is_pressed);
    let commands = xiallocontrol::dispatch::map(&mut table, &mut datas, true, ButtonLayout::Xbox, 24);
    assert!(commands.is_empty());

    assert_eq!(tick(&mut table, &mut datas, 32), Vec::<&str>::new());
    datas.set_button(ControllerButtons::South, false);
    assert_eq!(tick(&mut table, &mut datas, 40), Vec::<&str>::new());
    datas.set_button(ControllerButtons::South, true);
    assert_eq!(tick(&mut table, &mut datas, 200), vec!["press"]);
}

#[test]
fn a_switch_back_from_the_sub_preset_lets_its_keys_go() {
    let mut table = MappingTable::new();
    add_mapping(&mut table, &config(0, "A", "a"), 1).unwrap();
    load_sub_mappings(&mut table, vec![Mapping::new(2, "B".to_string(), "space".to_string())]);
    let mut datas = ControllerDatas::new();
    datas.set_button(ControllerButtons::East, true);
    let commands = xiallocontrol::dispatch::map(&mut table, &mut datas, true, ButtonLayout::Xbox, 8);
    assert_eq!(kinds(&commands), vec!["press"]);
    datas.set_button(ControllerButtons::South, true);
    let commands = xiallocontrol::dispatch::map(&mut table, &mut datas, false, ButtonLayout::Xbox, 16);
    assert_eq!(kinds(&commands), vec!["release", "press"]);
    assert_eq!(released_keys(&commands[..1]), vec![PrimaryAction::KeyPress { key: Key::Space }]);
    assert!(!table.trigger_states[&2].is_pressed);
    assert!(table.trigger_states[&1].is_pressed);
}

#[test]
fn a_mapping_that_both_lists_hold_keeps_its_key_across_the_switch() {
    let (mut table, mut datas) = table_with_a_held();
    let same = get_mappings(&table);
    assert!(load_sub_mappings(&mut table, same).is_empty());
    let commands = xiallocontrol::dispatch::map(&mut table, &mut datas, true, ButtonLayout::Xbox, 16);
    assert!(commands.is_empty());
    assert!(table.trigger_states[&1].is_pressed);
    datas.set_button(ControllerButtons::South, false);
    let commands = xiallocontrol::dispatch::map(&mut table, &mut datas, true, ButtonLayout::Xbox, 24);
    assert_eq!(released_keys(&commands), vec![PrimaryAction::KeyPress { key: Key::Unicode('a') }]);
}

#[test]
fn every_held_key_is_let_go_when_the_controller_goes_away() {
    let mut table = MappingTable::new();
    add_mapping(&mut table, &config(0, "A", "a"), 1).unwrap();
    add_mapping(&mut table, &config(0, "B", "b"), 2).unwrap();
    add_mapping(&mut table, &config(0, "X", "x").with_trigger_state(continuous()), 3).unwrap();
    load_sub_mappings(&mut table, vec![Mapping::new(9, "Y".to_string(), "space".to_string())]);
    assert!(release_held_keys(&mut table).is_empty());
    let mut datas = ControllerDatas::new();
    datas.set_button(ControllerButtons::North, true);
    let commands = xiallocontrol::dispatch::map(&mut table, &mut datas, true, ButtonLayout::Xbox, 8);
    assert_eq!(kinds(&commands), vec!["press"]);
    table.trigger_states.get_mut(&1).unwrap().is_pressed = true;
    table.trigger_states.get_mut(&3).unwrap().is_pressed = true;
    let let_go = release_held_keys(&mut table);
    assert_eq!(
        released_keys(&let_go),
        vec![PrimaryAction::KeyPress { key: Key::Unicode('a') }, PrimaryAction::KeyPress { key: Key::Space }]
    );
    assert!(!table.trigger_states[&1].is_pressed);
    assert!(!table.trigger_states[&9].is_pressed);
    assert!(table.trigger_states[&3].is_pressed);
    assert_eq!(table.mappings.len(), 3);
    assert_eq!(table.sub_mappings.len(), 1);
    assert!(release_held_keys(&mut table).is_empty());
}

#[test]
fn sub_mappings_replaced_mid_press_hand_back_their_releases() {
    let mut table = MappingTable::new();
    load_sub_mappings(&mut table, vec![Mapping::new(2, "B".to_string(), "space".to_string())]);
    let mut datas = ControllerDatas::new();
    datas.set_button(ControllerButtons::East, true);
    let commands = xiallocontrol::dispatch::map(&mut table, &mut datas, true, ButtonLayout::Xbox, 8);
    assert_eq!(kinds(&commands), vec!["press"]);
    let let_go = load_sub_mappings(&mut table, vec![]);
    assert_eq!(released_keys(&let_go), vec![PrimaryAction::KeyPress { key: Key::Space }]);
    assert!(!table.trigger_states[&2].is_pressed);
    assert!(table.sub_mappings.is_empty());
}

#[test]
fn continuous_mapping_repeats_faster_and_faster_in_long_press_mode() {
    let mut table = MappingTable::new();
    let request = config(0, "B", "x")
        .with_check_mode(CheckMode::Long)
        .with_check_mode_param(0)
        .with_trigger_state(continuous());
    add_mapping(&mut table, &request, 5).unwrap();
    let mut datas = ControllerDatas::new();
    datas.set_button(ControllerButtons::East, true);
    let mut fired_at = vec![];
    for now in (1000..2200).step_by(10) {
        if tick(&mut table, &mut datas, now) == vec!["execute"] {
            fired_at.push(now);
        }
    }
    assert_eq!(fired_at, vec![1010, 1250, 1450, 1610, 1740, 1840, 1940, 2040, 2140]);
    assert_eq!(table.trigger_states[&5].interval, 100);
    datas.set_button(ControllerButtons::East, false);
    assert_eq!(tick(&mut table, &mut datas, 2200), Vec::<&str>::new());
    assert_eq!(table.trigger_states[&5].interval, 300);
}

#[test]
fn stick_turn_fires_as_a_virtual_button() {
    let mut table = MappingTable::new();
    add_mapping(&mut table, &config(0, "LeftStickCW", "MouseWheelDown"), 1).unwrap();
    add_mapping(&mut table, &config(0, "RightStickCCW", "MouseWheelUp"), 2).unwrap();
    let mut datas = ControllerDatas::new();
    assert_eq!(tick(&mut table, &mut datas, 0), Vec::<&str>::new());
    datas.left_stick_rotation = JoystickRotation::Clockwise;
    assert_eq!(tick(&mut table, &mut datas, 8), vec!["press"]);
    assert_eq!(tick(&mut table, &mut datas, 16), Vec::<&str>::new());
    datas.left_stick_rotation = JoystickRotation::NoRotation;
    datas.right_stick_rotation = JoystickRotation::CounterClockwise;
    assert_eq!(tick(&mut table, &mut datas, 24), vec!["release", "press"]);
    datas.right_stick_rotation = JoystickRotation::Clockwise;
    assert_eq!(tick(&mut table, &mut datas, 32), vec!["release"]);
}

#[test]
fn analog_trigger_counts_as_a_button_above_the_threshold() {
    let mut table = MappingTable::new();
    add_mapping(&mut table, &config(0, "LT", "a").with_trigger_threshold(500_000), 1).unwrap();
    let mut datas = ControllerDatas::new();
    datas.left_trigger.value = 500_000;
    assert_eq!(tick(&mut table, &mut datas, 8), Vec::<&str>::new());
    assert!(!datas.get_button(ControllerButtons::LT));
    datas.left_trigger.value = 500_001;
    assert_eq!(tick(&mut table, &mut datas, 16), vec!["press"]);
    assert!(datas.get_button(ControllerButtons::LT));
    datas.left_trigger.value = 0;
    assert_eq!(tick(&mut table, &mut datas, 24), vec!["release"]);
    assert!(!datas.get_button(ControllerButtons::LT));
    let mapping = Mapping::new(9, "RT".to_string(), "space".to_string());
    datas.right_trigger.value = 300_001;
    handle_trigger_data(&mut datas, &mapping);
    assert!(datas.get_button(ControllerButtons::RT));
    let other = Mapping::new(9, "A".to_string(), "space".to_string());
    let before = datas;
    handle_trigger_data(&mut datas, &other);
    assert_eq!(datas, before);
}

#[test]
fn mappings_fire_in_the_order_of_the_table_and_unknown_sources_are_skipped() {
    let mut table = MappingTable::new();
    add_mapping(&mut table, &config(0, "B", "b"), 1).unwrap();
    add_mapping(&mut table, &config(0, "Nowhere", "n"), 2).unwrap();
    add_mapping(&mut table, &config(0, "A", "a"), 3).unwrap();
    let mut datas = ControllerDatas::new();
    datas.set_button(ControllerButtons::South, true);
    datas.set_button(ControllerButtons::East, true);
    let commands = xiallocontrol::dispatch::map(&mut table, &mut datas, false, ButtonLayout::Xbox, 8);
    let keys: Vec<PrimaryAction> = commands
        .iter()
        .map(|c| match c {
            EnigoCommand::ExecutePress(action) => action.primary,
            other => panic!("gave {other:?}"),
        })
        .collect();
    assert_eq!(
        keys,
        vec![
            PrimaryAction::KeyPress { key: Key::Unicode('b') },
            PrimaryAction::KeyPress { key: Key::Unicode('a') }
        ]
    );
    assert!(!table.trigger_states[&2].is_pressed);
    let switch = xiallocontrol::dispatch::map(&mut table, &mut datas, false, ButtonLayout::Switch, 16);
    assert_eq!(kinds(&switch), Vec::<&str>::new());
}

#[test]
fn sub_preset_mappings_are_used_on_request() {
    let mut table = MappingTable::new();
    add_mapping(&mut table, &config(0, "A", "a"), 1).unwrap();
    load_sub_mappings(&mut table, vec![Mapping::new(2, "B".to_string(), "space".to_string())]);
    let mut datas = ControllerDatas::new();
    datas.set_button(ControllerButtons::South, true);
    datas.set_button(ControllerButtons::East, true);
    let commands = xiallocontrol::dispatch::map(&mut table, &mut datas, true, ButtonLayout::Xbox, 8);
    assert_eq!(commands.len(), 1);
    match &commands[0] {
        EnigoCommand::ExecutePress(action) => {
            assert_eq!(action.primary, PrimaryAction::KeyPress { key: Key::Space })
        },
        other => panic!("gave {other:?}"),
    }
}
