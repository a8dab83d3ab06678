//! The dispatch engine: one tick of every mapping against the canonical
//! snapshot.
//!
//! A mapping takes its level from a stick turn, from a button of the
//! layout, or, where its name means neither, from nothing. The level goes
//! through the press detector of the mapping and then through its trigger
//! policy; what fires becomes a command for the executor.
//!
//! A tick goes through one of the two lists of the table. Before it does,
//! it lets go of the keys that mappings of the other list still hold, so
//! that a switch between the preset and its sub-preset in the middle of a
//! press leaves no key down.

use std::collections::HashMap;
use vstd::prelude::*;
use crate::action::{ActionView, CommandView, EnigoCommand};
use crate::datas::{with_bit, ControllerButtons, ControllerDatas, JoystickRotation};
use crate::layout::ButtonLayout;
use crate::mapping::{Mapping, MappingView};
use crate::press::{check_button_press, check_step, ButtonCheckState, CheckMode};
use crate::table::{lookup, release_dropped, released, store, MappingTable, TableView};
use crate::text::str_eq;
use crate::trigger::TriggerState;

verus! {

/// What a tick has come to after some of the mappings.
pub struct Dispatch {
    pub datas: ControllerDatas,
    pub trigger_states: Map<u64, TriggerState>,
    pub button_check_states: Map<u64, ButtonCheckState>,
    /// The commands pushed so far, oldest first.
    pub commands: Seq<CommandView>,
}

/// The views of a list of commands.
pub open spec fn command_views(commands: Seq<EnigoCommand>) -> Seq<CommandView> {
    commands.map_values(|command: EnigoCommand| command@)
}

/// The level of a mapping whose source is a stick turn: whether the named
/// stick reports the named direction at this tick. Other names give
/// nothing.
pub open spec fn rotation_level(name: Seq<char>, datas: ControllerDatas) -> Option<bool> {
    if name == "LeftStickCW"@ {
        Some(datas.left_stick_rotation == JoystickRotation::Clockwise)
    } else if name == "LeftStickCCW"@ {
        Some(datas.left_stick_rotation == JoystickRotation::CounterClockwise)
    } else if name == "RightStickCW"@ {
        Some(datas.right_stick_rotation == JoystickRotation::Clockwise)
    } else if name == "RightStickCCW"@ {
        Some(datas.right_stick_rotation == JoystickRotation::CounterClockwise)
    } else {
        None
    }
}

/// The snapshot with the button of an analog trigger set from its pressure:
/// a mapping named `LT` or `RT` makes that button read as down exactly when
/// the pressure is above the threshold of the mapping.
pub open spec fn with_trigger_button(
    datas: ControllerDatas,
    name: Seq<char>,
    threshold: i32,
) -> ControllerDatas {
    if name == "LT"@ {
        ControllerDatas {
            buttons: with_bit(
                datas.buttons,
                ControllerButtons::LT.bit_spec(),
                datas.left_trigger.value > threshold,
            ),
            ..datas
        }
    } else if name == "RT"@ {
        ControllerDatas {
            buttons: with_bit(
                datas.buttons,
                ControllerButtons::RT.bit_spec(),
                datas.right_trigger.value > threshold,
            ),
            ..datas
        }
    } else {
        datas
    }
}

/// The trigger policy of a mapping as it stands: the running one, or the
/// one that the mapping starts with.
pub open spec fn running_policy(
    states: Map<u64, TriggerState>,
    mapping: MappingView,
) -> TriggerState {
    if states.contains_key(mapping.id) {
        states[mapping.id]
    } else {
        mapping.trigger_state
    }
}

/// The press detector of a mapping as it stands.
pub open spec fn running_check(states: Map<u64, ButtonCheckState>, id: u64) -> ButtonCheckState {
    if states.contains_key(id) {
        states[id]
    } else {
        ButtonCheckState::fresh()
    }
}

/// A policy with its interval back at the initial one.
pub open spec fn rewound(policy: TriggerState) -> TriggerState {
    TriggerState { interval: policy.initial_interval, ..policy }
}

/// The command of a mapping that fires, given its policy after the fire:
/// the whole action under continuous repeat, else the press half on a
/// rising edge and the release half on a falling edge.
pub open spec fn fire_command(policy: TriggerState, action: ActionView) -> CommandView {
    if policy.continually_trigger {
        CommandView::Execute(action)
    } else if policy.is_pressed {
        CommandView::ExecutePress(action)
    } else {
        CommandView::ExecuteRelease(action)
    }
}

/// One tick of a mapping whose source is a stick turn.
pub open spec fn rotation_step(
    mapping: MappingView,
    is_rotating: bool,
    d: Dispatch,
    now: u64,
) -> Dispatch {
    let policy = running_policy(d.trigger_states, mapping);
    let (after, fired) = policy.step(is_rotating, now);
    if fired {
        Dispatch {
            trigger_states: d.trigger_states.insert(mapping.id, after),
            commands: d.commands.push(fire_command(after, mapping.action)),
            ..d
        }
    } else if !is_rotating && policy.continually_trigger {
        Dispatch { trigger_states: d.trigger_states.insert(mapping.id, rewound(policy)), ..d }
    } else {
        Dispatch { trigger_states: d.trigger_states.insert(mapping.id, policy), ..d }
    }
}

/// The policy of an edge-triggered mapping whose source is up while the
/// policy still holds its key down: the key is let go, whatever the press
/// detector says. Any other policy is left as it is.
pub open spec fn released_if_stuck(policy: TriggerState, pressed: bool) -> (TriggerState, bool) {
    if !policy.continually_trigger && !pressed && policy.is_pressed {
        (TriggerState { is_pressed: false, ..policy }, true)
    } else {
        (policy, false)
    }
}

/// The policy after the source has been seen up: under continuous repeat,
/// and in long-press mode, the interval goes back to the initial one.
pub open spec fn rewound_if_up(policy: TriggerState, pressed: bool, mode: CheckMode) -> TriggerState {
    if !pressed && (policy.continually_trigger || mode == CheckMode::Long) {
        rewound(policy)
    } else {
        policy
    }
}

/// One tick of a mapping whose source is the given button.
pub open spec fn button_step(
    mapping: MappingView,
    button: ControllerButtons,
    d: Dispatch,
    now: u64,
) -> Dispatch {
    let datas = with_trigger_button(d.datas, mapping.composed_button, mapping.trigger_theshold);
    let pressed = datas.pressed(button);
    let (check, authorized) = check_step(
        pressed,
        mapping.check_mode,
        mapping.check_mode_param,
        running_check(d.button_check_states, mapping.id),
        now,
    );
    let (unstuck, let_go) = released_if_stuck(running_policy(d.trigger_states, mapping), pressed);
    let commands = if let_go {
        d.commands.push(CommandView::ExecuteRelease(mapping.action))
    } else {
        d.commands
    };
    let ready = rewound_if_up(unstuck, pressed, mapping.check_mode);
    let (after, fired) = if authorized {
        ready.step(pressed, now)
    } else {
        (ready, false)
    };
    Dispatch {
        datas,
        trigger_states: d.trigger_states.insert(mapping.id, after),
        button_check_states: d.button_check_states.insert(mapping.id, check),
        commands: if fired {
            commands.push(fire_command(after, mapping.action))
        } else {
            commands
        },
    }
}

/// One tick of one mapping.
pub open spec fn mapping_step(
    mapping: MappingView,
    layout: ButtonLayout,
    d: Dispatch,
    now: u64,
) -> Dispatch {
    match rotation_level(mapping.composed_button, d.datas) {
        Some(is_rotating) => rotation_step(mapping, is_rotating, d, now),
        None => match layout.get_spec(mapping.composed_button) {
            Some(button) => button_step(mapping, button, d, now),
            None => d,
        },
    }
}

/// One tick of all the mappings, in the order of the table.
pub open spec fn dispatch_all(
    mappings: Seq<MappingView>,
    layout: ButtonLayout,
    d: Dispatch,
    now: u64,
) -> Dispatch
    decreases mappings.len(),
{
    if mappings.len() == 0 {
        d
    } else {
        mapping_step(
            mappings.last(),
            layout,
            dispatch_all(mappings.drop_last(), layout, d, now),
            now,
        )
    }
}

/// The mappings that a tick goes through.
pub open spec fn active_mappings(table: TableView, use_sub_preset: bool) -> Seq<MappingView> {
    if use_sub_preset {
        table.sub_mappings
    } else {
        table.mappings
    }
}

/// The mappings that a tick does not go through.
pub open spec fn resting_mappings(table: TableView, use_sub_preset: bool) -> Seq<MappingView> {
    if use_sub_preset {
        table.mappings
    } else {
        table.sub_mappings
    }
}

/// Where a tick starts from: the snapshot as it is handed in, the running
/// state of the table after the keys have been let go that mappings of the
/// resting list hold and the active list does not keep, and the release
/// commands of those keys.
pub open spec fn tick_start(
    table: TableView,
    datas: ControllerDatas,
    use_sub_preset: bool,
) -> Dispatch {
    let let_go = released(
        resting_mappings(table, use_sub_preset),
        active_mappings(table, use_sub_preset),
        table.trigger_states,
    );
    Dispatch {
        datas,
        trigger_states: let_go.trigger_states,
        button_check_states: table.button_check_states,
        commands: let_go.commands,
    }
}

fn rotation_of(name: &str, datas: &ControllerDatas) -> (level: Option<bool>)
    ensures
        level == rotation_level(name@, *datas),
{
    if str_eq(name, "LeftStickCW") {
        Some(datas.left_stick_rotation == JoystickRotation::Clockwise)
    } else if str_eq(name, "LeftStickCCW") {
        Some(datas.left_stick_rotation == JoystickRotation::CounterClockwise)
    } else if str_eq(name, "RightStickCW") {
        Some(datas.right_stick_rotation == JoystickRotation::Clockwise)
    } else if str_eq(name, "RightStickCCW") {
        Some(datas.right_stick_rotation == JoystickRotation::CounterClockwise)
    } else {
        None
    }
}

/// Sets the button of an analog trigger from its pressure, for a mapping
/// whose source is that trigger.
pub fn handle_trigger_data(controller_datas: &mut ControllerDatas, mapping: &Mapping)
    ensures
        *final(controller_datas) == with_trigger_button(
            *old(controller_datas),
            mapping.composed_button@,
            mapping.trigger_theshold,
        ),
{
    if str_eq(mapping.composed_button.as_str(), "LT") {
        let down = controller_datas.left_trigger.value > mapping.trigger_theshold;
        controller_datas.set_button(ControllerButtons::LT, down);
    } else if str_eq(mapping.composed_button.as_str(), "RT") {
        let down = controller_datas.right_trigger.value > mapping.trigger_theshold;
        controller_datas.set_button(ControllerButtons::RT, down);
    }
}

fn push_fire(commands: &mut Vec<EnigoCommand>, policy: &TriggerState, mapping: &Mapping)
    ensures
        command_views(final(commands)@) == command_views(old(commands)@).push(
            fire_command(*policy, mapping@.action),
        ),
{
    let command = if policy.continually_trigger {
        EnigoCommand::Execute(mapping.action.duplicate())
    } else if policy.is_key_pressed() {
        EnigoCommand::ExecutePress(mapping.action.duplicate())
    } else {
        EnigoCommand::ExecuteRelease(mapping.action.duplicate())
    };
    assert(command_views(commands@.push(command)) =~= command_views(commands@).push(command@));
    commands.push(command);
}

fn dispatch_rotation(
    mapping: &Mapping,
    is_rotating: bool,
    trigger_states: &mut HashMap<u64, TriggerState>,
    commands: &mut Vec<EnigoCommand>,
    now: u64,
)
    ensures
        ({
            let after = Dispatch {
                datas: ControllerDatas::at_rest(),
                trigger_states: final(trigger_states)@,
                button_check_states: Map::empty(),
                commands: command_views(final(commands)@),
            };
            let before = Dispatch {
                datas: ControllerDatas::at_rest(),
                trigger_states: old(trigger_states)@,
                button_check_states: Map::empty(),
                commands: command_views(old(commands)@),
            };
            after == rotation_step(mapping@, is_rotating, before, now)
        }),
{
    let mut policy = match lookup(trigger_states, mapping.id) {
        Some(policy) => policy,
        None => mapping.trigger_state,
    };
    if policy.should_trigger(is_rotating, now) {
        push_fire(commands, &policy, mapping);
    } else if !is_rotating && policy.continually_trigger {
        policy.reset();
    }
    store(trigger_states, mapping.id, policy);
}

fn dispatch_button(
    mapping: &Mapping,
    button: ControllerButtons,
    controller_datas: &mut ControllerDatas,
    trigger_states: &mut HashMap<u64, TriggerState>,
    button_check_states: &mut HashMap<u64, ButtonCheckState>,
    commands: &mut Vec<EnigoCommand>,
    now: u64,
)
    ensures
        ({
            let after = Dispatch {
                datas: *final(controller_datas),
                trigger_states: final(trigger_states)@,
                button_check_states: final(button_check_states)@,
                commands: command_views(final(commands)@),
            };
            let before = Dispatch {
                datas: *old(controller_datas),
                trigger_states: old(trigger_states)@,
                button_check_states: old(button_check_states)@,
                commands: command_views(old(commands)@),
            };
            after == button_step(mapping@, button, before, now)
        }),
{
    handle_trigger_data(controller_datas, mapping);
    let button_is_pressed = controller_datas.get_button(button);
    let mut check_state = match lookup(button_check_states, mapping.id) {
        Some(state) => state,
        None => ButtonCheckState::default(),
    };
    let should_trigger_mapping = check_button_press(
        button_is_pressed,
        mapping.check_mode,
        mapping.check_mode_param,
        &mut check_state,
        now,
    );
    store(button_check_states, mapping.id, check_state);
    let mut policy = match lookup(trigger_states, mapping.id) {
        Some(policy) => policy,
        None => mapping.trigger_state,
    };
    if !policy.continually_trigger && !button_is_pressed && policy.is_key_pressed() {
        policy.set_key_pressed(false);
        let command = EnigoCommand::ExecuteRelease(mapping.action.duplicate());
        assert(command_views(commands@.push(command)) =~= command_views(commands@).push(
            command@,
        ));
        commands.push(command);
    }
    if !button_is_pressed {
        if policy.continually_trigger || mapping.check_mode == CheckMode::Long {
            policy.reset();
        }
    }
    if should_trigger_mapping && policy.should_trigger(button_is_pressed, now) {
        push_fire(commands, &policy, mapping);
    }
    store(trigger_states, mapping.id, policy);
}

/// Runs one tick of the dispatch engine at `now`.
///
/// First the keys are let go that mappings of the list at rest still hold.
/// Then every mapping of the main preset, or of the sub-preset where
/// `use_sub_preset` says so, is taken in the order of the table. The
/// commands that fire are handed back in that order, for the caller to put
/// on the queue of the executor; none is carried out here. The buttons of
/// the analog triggers in `controller_datas` are set on the way.
pub fn map(
    table: &mut MappingTable,
    controller_datas: &mut ControllerDatas,
    use_sub_preset: bool,
    layout: ButtonLayout,
    now: u64,
) -> (commands: Vec<EnigoCommand>)
    ensures
        ({
            let end = dispatch_all(
                active_mappings(old(table)@, use_sub_preset),
                layout,
                tick_start(old(table)@, *old(controller_datas), use_sub_preset),
                now,
            );
            &&& *final(controller_datas) == end.datas
            &&& final(table)@ == (TableView {
                trigger_states: end.trigger_states,
                button_check_states: end.button_check_states,
                ..old(table)@
            })
            &&& command_views(commands@) == end.commands
        }),
{
    let ghost start = tick_start(table@, *controller_datas, use_sub_preset);
    let ghost all = active_mappings(table@, use_sub_preset);
    let mut commands = if use_sub_preset {
        release_dropped(&table.mappings, &table.sub_mappings, &mut table.trigger_states)
    } else {
        release_dropped(&table.sub_mappings, &table.mappings, &mut table.trigger_states)
    };
    let count = if use_sub_preset {
        table.sub_mappings.len()
    } else {
        table.mappings.len()
    };
    assert(all.take(0) =~= Seq::empty());
    let mut i: usize = 0;
    while i < count
        invariant
            i <= count,
            count == all.len(),
            all == active_mappings(table@, use_sub_preset),
            table@.mappings == old(table)@.mappings,
            table@.sub_mappings == old(table)@.sub_mappings,
            table@.file_path == old(table)@.file_path,
            (Dispatch {
                datas: *controller_datas,
                trigger_states: table@.trigger_states,
                button_check_states: table@.button_check_states,
                commands: command_views(commands@),
            }) == dispatch_all(all.take(i as int), layout, start, now),
        decreases count - i,
    {
        let mapping = if use_sub_preset {
            &table.sub_mappings[i]
        } else {
            &table.mappings[i]
        };
        proof {
            assert(all[i as int] == mapping@);
            assert(all.take(i + 1).drop_last() =~= all.take(i as int));
            assert(all.take(i + 1).last() == all[i as int]);
        }
        match rotation_of(mapping.composed_button.as_str(), controller_datas) {
            Some(is_rotating) => {
                dispatch_rotation(
                    mapping,
                    is_rotating,
                    &mut table.trigger_states,
                    &mut commands,
                    now,
                );
            },
            None => {
                match layout.get(mapping.composed_button.as_str()) {
                    Some(button) => {
                        dispatch_button(
                            mapping,
                            button,
                            controller_datas,
                            &mut table.trigger_states,
                            &mut table.button_check_states,
                            &mut commands,
                            now,
                        );
                    },
                    None => {},
                }
            },
        }
        i += 1;
    }
    assert(all.take(i as int) =~= all);
    commands
}

/// A tick that goes through the list that the tick before went through,
/// or through a table whose other list holds no key, starts with no
/// command and with the running state of the table as it is.
pub proof fn lemma_tick_starts_clean(table: TableView, datas: ControllerDatas, use_sub_preset: bool)
    requires
        forall|j: int|
            0 <= j < resting_mappings(table, use_sub_preset).len() ==> !crate::table::holds_key(
                table.trigger_states,
                (#[trigger] resting_mappings(table, use_sub_preset)[j]).id,
            ),
    ensures
        tick_start(table, datas, use_sub_preset) == (Dispatch {
            datas,
            trigger_states: table.trigger_states,
            button_check_states: table.button_check_states,
            commands: Seq::empty(),
        }),
{
    lemma_nothing_held_nothing_released(
        resting_mappings(table, use_sub_preset),
        active_mappings(table, use_sub_preset),
        table.trigger_states,
    );
}

proof fn lemma_nothing_held_nothing_released(
    leaving: Seq<MappingView>,
    staying: Seq<MappingView>,
    states: Map<u64, TriggerState>,
)
    requires
        forall|j: int|
            0 <= j < leaving.len() ==> !crate::table::holds_key(states, (#[trigger] leaving[j]).id),
    ensures
        released(leaving, staying, states).commands == Seq::<CommandView>::empty(),
        released(leaving, staying, states).trigger_states == states,
    decreases leaving.len(),
{
    if leaving.len() > 0 {
        let shorter = leaving.drop_last();
        assert forall|j: int| 0 <= j < shorter.len() implies !crate::table::holds_key(
            states,
            (#[trigger] shorter[j]).id,
        ) by {
            assert(shorter[j] == leaving[j]);
        }
        lemma_nothing_held_nothing_released(shorter, staying, states);
        assert(!crate::table::holds_key(states, leaving[leaving.len() - 1].id));
    }
}

/// A press is always followed by a release: as soon as the source of an
/// edge-triggered mapping is seen up while its policy still holds the key
/// down, the release half of the action is pushed and the key counts as let
/// go, whatever the press detector of the mapping says and whatever the
/// mapping has become since the press.
pub proof fn lemma_press_is_released(
    mapping: MappingView,
    button: ControllerButtons,
    d: Dispatch,
    now: u64,
)
    requires
        !running_policy(d.trigger_states, mapping).continually_trigger,
        running_policy(d.trigger_states, mapping).is_pressed,
        !with_trigger_button(d.datas, mapping.composed_button, mapping.trigger_theshold).pressed(
            button,
        ),
    ensures
        ({
            let after = button_step(mapping, button, d, now);
            &&& after.commands == d.commands.push(CommandView::ExecuteRelease(mapping.action))
            &&& !after.trigger_states[mapping.id].is_pressed
            &&& after.trigger_states.contains_key(mapping.id)
        }),
{
}

/// A mapping whose press detector does not fire pushes no command but the
/// release of a key that is still held: the trigger policy is not consulted
/// and stays as it is, but for that release and for the interval going back
/// to its start.
pub proof fn lemma_detector_gates_the_policy(
    mapping: MappingView,
    button: ControllerButtons,
    d: Dispatch,
    now: u64,
)
    requires
        ({
            let datas = with_trigger_button(
                d.datas,
                mapping.composed_button,
                mapping.trigger_theshold,
            );
            !check_step(
                datas.pressed(button),
                mapping.check_mode,
                mapping.check_mode_param,
                running_check(d.button_check_states, mapping.id),
                now,
            ).1
        }),
    ensures
        ({
            let datas = with_trigger_button(
                d.datas,
                mapping.composed_button,
                mapping.trigger_theshold,
            );
            let pressed = datas.pressed(button);
            let policy = running_policy(d.trigger_states, mapping);
            let after = button_step(mapping, button, d, now);
            &&& after.trigger_states[mapping.id] == rewound_if_up(
                released_if_stuck(policy, pressed).0,
                pressed,
                mapping.check_mode,
            )
            &&& after.commands == if released_if_stuck(policy, pressed).1 {
                d.commands.push(CommandView::ExecuteRelease(mapping.action))
            } else {
                d.commands
            }
        }),
{
}

/// A tick only adds to the commands: what was pushed before a mapping is
/// still there after it, in the same order.
pub proof fn lemma_commands_only_grow(
    mapping: MappingView,
    layout: ButtonLayout,
    d: Dispatch,
    now: u64,
)
    ensures
        d.commands.is_prefix_of(mapping_step(mapping, layout, d, now).commands),
        mapping_step(mapping, layout, d, now).commands.len() <= d.commands.len() + 2,
{
    let after = mapping_step(mapping, layout, d, now);
    assert(d.commands =~= after.commands.take(d.commands.len() as int));
}

/// Dispatch changes nothing in the snapshot but its buttons: sticks,
/// triggers and rotation events come out as they went in.
pub proof fn lemma_dispatch_touches_only_buttons(
    mappings: Seq<MappingView>,
    layout: ButtonLayout,
    d: Dispatch,
    now: u64,
)
    ensures
        dispatch_all(mappings, layout, d, now).datas == (ControllerDatas {
            buttons: dispatch_all(mappings, layout, d, now).datas.buttons,
            ..d.datas
        }),
    decreases mappings.len(),
{
    if mappings.len() > 0 {
        lemma_dispatch_touches_only_buttons(mappings.drop_last(), layout, d, now);
    }
}

} // verus!
