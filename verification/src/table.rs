//! The mapping table and the running state that goes with each mapping.
//!
//! An edge-triggered mapping that has sent the press half of its action
//! holds a key down until the release half of that action is sent. A
//! mapping that leaves the table is no longer seen by any tick, and one
//! whose action changes would let go of another key than it holds. So
//! every function here that can take a mapping out of the table, or change
//! its action, hands back the release commands of the keys that were still
//! held, and the running policies no longer hold them. The caller puts the
//! commands on the queue of the executor.

use std::collections::HashMap;
use vstd::prelude::*;
use vstd::std_specs::hash::*;
use vstd::string::*;
use crate::action::{CommandView, EnigoCommand};
use crate::dispatch::command_views;
use crate::mapping::{
    create_mapping_from_config, create_spec, duplicate_all, mapping_views, resettled, updated,
    Mapping, MappingError, MappingErrorView, MappingUpdateConfig, MappingUpdateConfigView,
    MappingView,
};
use crate::parse::parse_spec;
use crate::press::ButtonCheckState;
use crate::trigger::TriggerState;

verus! {

/// The mappings of the main preset and of the sub-preset, the trigger
/// policy and the press detector of each mapping as they stand, and the
/// path under which the table is stored.
#[derive(Debug)]
pub struct MappingTable {
    pub mappings: Vec<Mapping>,
    pub sub_mappings: Vec<Mapping>,
    /// Trigger policy by mapping id.
    pub trigger_states: HashMap<u64, TriggerState>,
    /// Press detector by mapping id.
    pub button_check_states: HashMap<u64, ButtonCheckState>,
    /// Where the table is stored, relative to the directory of settings.
    pub file_path: String,
}

/// A mapping table as a mathematical value.
pub struct TableView {
    pub mappings: Seq<MappingView>,
    pub sub_mappings: Seq<MappingView>,
    pub trigger_states: Map<u64, TriggerState>,
    pub button_check_states: Map<u64, ButtonCheckState>,
    pub file_path: Seq<char>,
}

impl View for MappingTable {
    type V = TableView;

    open spec fn view(&self) -> TableView {
        TableView {
            mappings: mapping_views(self.mappings@),
            sub_mappings: mapping_views(self.sub_mappings@),
            trigger_states: self.trigger_states@,
            button_check_states: self.button_check_states@,
            file_path: self.file_path@,
        }
    }
}

/// Whether `i` is the place of the first mapping with the given id.
pub open spec fn is_first_with_id(mappings: Seq<MappingView>, id: u64, i: int) -> bool {
    &&& 0 <= i < mappings.len()
    &&& mappings[i].id == id
    &&& forall|j: int| 0 <= j < i ==> (#[trigger] mappings[j]).id != id
}

/// Whether some mapping has the given id.
pub open spec fn has_id(mappings: Seq<MappingView>, id: u64) -> bool {
    exists|i: int| 0 <= i < mappings.len() && (#[trigger] mappings[i]).id == id
}

/// The mappings whose id is not the given one, in their order.
pub open spec fn without_id(mappings: Seq<MappingView>, id: u64) -> Seq<MappingView>
    decreases mappings.len(),
{
    if mappings.len() == 0 {
        mappings
    } else {
        let before = without_id(mappings.drop_last(), id);
        if mappings.last().id != id {
            before.push(mappings.last())
        } else {
            before
        }
    }
}

/// The table after a new mapping has been put at its end.
pub open spec fn with_added(table: TableView, mapping: MappingView) -> TableView {
    TableView {
        mappings: table.mappings.push(mapping),
        trigger_states: table.trigger_states.insert(mapping.id, mapping.trigger_state),
        button_check_states: table.button_check_states.insert(
            mapping.id,
            ButtonCheckState::fresh(),
        ),
        ..table
    }
}

/// What a request to add a mapping gives: the table with the new mapping at
/// its end, or why nothing was added.
pub open spec fn add_spec(table: TableView, config: MappingUpdateConfigView, id: u64) -> Result<
    TableView,
    MappingErrorView,
> {
    match create_spec(config, id) {
        Ok(mapping) => Ok(
            with_added(table, MappingView { mapping_tag: config.mapping_tag, ..mapping }),
        ),
        Err(error) => Err(error),
    }
}

/// The running policies before a granted change to the mapping with the
/// given id: where its policy holds a key down, the key is let go.
pub open spec fn idle_before_change(states: Map<u64, TriggerState>, id: u64) -> Map<
    u64,
    TriggerState,
> {
    if holds_key(states, id) {
        states.insert(id, let_go(states[id]))
    } else {
        states
    }
}

/// What a request to change the mapping at place `i` gives: the table after
/// it, or why nothing was changed.
///
/// A request without an action string changes nothing. A granted change
/// first lets go of the key that the mapping holds. A trigger policy in the
/// request then replaces the settings of the running policy and keeps the
/// rest of its running state; a mapping that had no running state gets a
/// new one.
pub open spec fn update_spec(table: TableView, config: MappingUpdateConfigView, i: int) -> Result<
    TableView,
    MappingErrorView,
> {
    match config.composed_shortcut_key {
        None => Ok(table),
        Some(key) => match parse_spec(key) {
            Err(error) => Err(MappingErrorView::Parse(error)),
            Ok(action) => {
                let states = idle_before_change(table.trigger_states, config.id);
                Ok(
                    TableView {
                        mappings: table.mappings.update(
                            i,
                            updated(table.mappings[i], config, action),
                        ),
                        trigger_states: match config.trigger_state {
                            Some(settings) => states.insert(
                                config.id,
                                if states.contains_key(config.id) {
                                    resettled(states[config.id], settings)
                                } else {
                                    settings
                                },
                            ),
                            None => states,
                        },
                        button_check_states: if config.trigger_state is Some
                            && !table.button_check_states.contains_key(config.id) {
                            table.button_check_states.insert(config.id, ButtonCheckState::fresh())
                        } else {
                            table.button_check_states
                        },
                        ..table
                    },
                )
            },
        },
    }
}

/// The commands that a request to change the mapping at place `i` gives:
/// where the change is granted and the mapping holds a key down, the
/// release half of the action that it had before the change.
pub open spec fn update_release(table: TableView, config: MappingUpdateConfigView, i: int) -> Seq<
    CommandView,
> {
    match config.composed_shortcut_key {
        Some(key) if parse_spec(key) is Ok && holds_key(table.trigger_states, config.id) => seq![
            CommandView::ExecuteRelease(table.mappings[i].action),
        ],
        _ => Seq::empty(),
    }
}

/// The table after every mapping with the given id has been taken out,
/// together with its running state.
pub open spec fn delete_spec(table: TableView, id: u64) -> TableView {
    if has_id(table.mappings, id) {
        TableView {
            mappings: without_id(table.mappings, id),
            trigger_states: table.trigger_states.remove(id),
            button_check_states: table.button_check_states.remove(id),
            ..table
        }
    } else {
        table
    }
}

/// Whether the running policy stored under `id` holds a key down: it is
/// edge-triggered, and its press half was sent last.
pub open spec fn holds_key(states: Map<u64, TriggerState>, id: u64) -> bool {
    states.contains_key(id) && !states[id].continually_trigger && states[id].is_pressed
}

/// A policy after its key has been let go.
pub open spec fn let_go(policy: TriggerState) -> TriggerState {
    TriggerState { is_pressed: false, ..policy }
}

/// Whether `staying` keeps the mapping: it has a mapping of the same id
/// and the same action, so that the key that the mapping holds is the key
/// that will be let go under that id.
pub open spec fn keeps(staying: Seq<MappingView>, mapping: MappingView) -> bool {
    exists|i: int|
        0 <= i < staying.len() && (#[trigger] staying[i]).id == mapping.id && staying[i].action
            == mapping.action
}

/// Whether a mapping with this id is among `leaving` that `staying` does
/// not keep.
pub open spec fn dropped(leaving: Seq<MappingView>, staying: Seq<MappingView>, id: u64) -> bool {
    exists|j: int|
        0 <= j < leaving.len() && (#[trigger] leaving[j]).id == id && !keeps(staying, leaving[j])
}

/// What letting go of held keys comes to: the running policies after it,
/// and the release commands, oldest first.
pub struct Released {
    pub trigger_states: Map<u64, TriggerState>,
    pub commands: Seq<CommandView>,
}

/// Letting go of the keys that dropped mappings hold.
///
/// The mappings of `leaving` are gone through in their order. One that
/// `staying` does not keep and whose running policy holds its key down
/// gives the release half of its action, and its policy lets the key go.
/// Every other mapping gives nothing and changes nothing.
pub open spec fn released(
    leaving: Seq<MappingView>,
    staying: Seq<MappingView>,
    states: Map<u64, TriggerState>,
) -> Released
    decreases leaving.len(),
{
    if leaving.len() == 0 {
        Released { trigger_states: states, commands: Seq::empty() }
    } else {
        let before = released(leaving.drop_last(), staying, states);
        let mapping = leaving.last();
        if !keeps(staying, mapping) && holds_key(before.trigger_states, mapping.id) {
            Released {
                trigger_states: before.trigger_states.insert(
                    mapping.id,
                    let_go(before.trigger_states[mapping.id]),
                ),
                commands: before.commands.push(CommandView::ExecuteRelease(mapping.action)),
            }
        } else {
            before
        }
    }
}

/// The table after the mappings of the main preset have been replaced:
/// the new mappings, and the running policies after the keys of the dropped
/// mappings have been let go.
pub open spec fn with_mappings(table: TableView, mappings: Seq<MappingView>) -> TableView {
    TableView {
        mappings,
        trigger_states: released(table.mappings, mappings, table.trigger_states).trigger_states,
        ..table
    }
}

/// The table after the mappings of the sub-preset have been replaced.
pub open spec fn with_sub_mappings(table: TableView, mappings: Seq<MappingView>) -> TableView {
    TableView {
        sub_mappings: mappings,
        trigger_states: released(
            table.sub_mappings,
            mappings,
            table.trigger_states,
        ).trigger_states,
        ..table
    }
}

/// Letting go of every key that a mapping of the table holds: first those
/// of the main preset, then those of the sub-preset.
pub open spec fn all_let_go(table: TableView) -> Released {
    let main = released(table.mappings, Seq::empty(), table.trigger_states);
    let sub = released(table.sub_mappings, Seq::empty(), main.trigger_states);
    Released { trigger_states: sub.trigger_states, commands: main.commands + sub.commands }
}

/// Looks up the value stored under `id`.
pub fn lookup<V: Copy>(states: &HashMap<u64, V>, id: u64) -> (found: Option<V>)
    ensures
        found == if states@.contains_key(id) {
            Some(states@[id])
        } else {
            None
        },
{
    broadcast use group_hash_axioms;

    match states.get(&id) {
        Some(value) => Some(*value),
        None => None,
    }
}

/// Stores `value` under `id`.
pub fn store<V>(states: &mut HashMap<u64, V>, id: u64, value: V)
    ensures
        final(states)@ == old(states)@.insert(id, value),
{
    broadcast use group_hash_axioms;

    states.insert(id, value);
}

/// Removes what is stored under `id`.
pub fn forget<V>(states: &mut HashMap<u64, V>, id: u64)
    ensures
        final(states)@ == old(states)@.remove(id),
{
    broadcast use group_hash_axioms;

    states.remove(&id);
}

proof fn lemma_without_id_take(mappings: Seq<MappingView>, id: u64, i: int)
    requires
        0 <= i < mappings.len(),
    ensures
        without_id(mappings.take(i + 1), id) == if mappings[i].id != id {
            without_id(mappings.take(i), id).push(mappings[i])
        } else {
            without_id(mappings.take(i), id)
        },
{
    assert(mappings.take(i + 1).drop_last() =~= mappings.take(i));
    assert(mappings.take(i + 1).last() == mappings[i]);
}

fn keeps_mapping(staying: &Vec<Mapping>, mapping: &Mapping) -> (kept: bool)
    ensures
        kept == keeps(mapping_views(staying@), mapping@),
{
    let mut i: usize = 0;
    while i < staying.len()
        invariant
            i <= staying.len(),
            forall|j: int|
                0 <= j < i ==> !((#[trigger] mapping_views(staying@)[j]).id == mapping@.id
                    && mapping_views(staying@)[j].action == mapping@.action),
        decreases staying.len() - i,
    {
        assert(mapping_views(staying@)[i as int] == staying@[i as int]@);
        if staying[i].id == mapping.id && staying[i].action.same_as(&mapping.action) {
            return true;
        }
        i += 1;
    }
    false
}

/// Lets go of the keys held by the mappings of `leaving` that `staying`
/// does not keep, and hands back the release commands.
pub(crate) fn release_dropped(
    leaving: &Vec<Mapping>,
    staying: &Vec<Mapping>,
    trigger_states: &mut HashMap<u64, TriggerState>,
) -> (commands: Vec<EnigoCommand>)
    ensures
        ({
            let end = released(
                mapping_views(leaving@),
                mapping_views(staying@),
                old(trigger_states)@,
            );
            &&& final(trigger_states)@ == end.trigger_states
            &&& command_views(commands@) == end.commands
        }),
{
    let ghost before = trigger_states@;
    let ghost gone = mapping_views(leaving@);
    let ghost kept = mapping_views(staying@);
    let mut commands: Vec<EnigoCommand> = Vec::new();
    let mut i: usize = 0;
    assert(command_views(commands@) =~= Seq::<CommandView>::empty());
    assert(gone.take(0) =~= Seq::<MappingView>::empty());
    while i < leaving.len()
        invariant
            i <= leaving.len(),
            gone == mapping_views(leaving@),
            kept == mapping_views(staying@),
            trigger_states@ == released(gone.take(i as int), kept, before).trigger_states,
            command_views(commands@) == released(gone.take(i as int), kept, before).commands,
        decreases leaving.len() - i,
    {
        proof {
            assert(gone.take(i + 1).drop_last() =~= gone.take(i as int));
            assert(gone.take(i + 1).last() == gone[i as int]);
            assert(gone[i as int] == leaving@[i as int]@);
        }
        let mapping = &leaving[i];
        if !keeps_mapping(staying, mapping) {
            match lookup(trigger_states, mapping.id) {
                Some(policy) => {
                    if !policy.continually_trigger && policy.is_key_pressed() {
                        let mut idle = policy;
                        idle.set_key_pressed(false);
                        store(trigger_states, mapping.id, idle);
                        let command = EnigoCommand::ExecuteRelease(mapping.action.duplicate());
                        assert(command_views(commands@.push(command)) =~= command_views(
                            commands@,
                        ).push(command@));
                        commands.push(command);
                    }
                },
                None => {},
            }
        }
        i += 1;
    }
    assert(gone.take(i as int) =~= gone);
    commands
}

impl MappingTable {
    /// The empty table stored under the given path.
    pub open spec fn empty_at(file_path: Seq<char>) -> TableView {
        TableView {
            mappings: Seq::empty(),
            sub_mappings: Seq::empty(),
            trigger_states: Map::empty(),
            button_check_states: Map::empty(),
            file_path,
        }
    }

    /// An empty table, stored under `mappings.toml`.
    pub fn new() -> (table: Self)
        ensures
            table@ == MappingTable::empty_at("mappings.toml"@),
    {
        let table = MappingTable {
            mappings: Vec::new(),
            sub_mappings: Vec::new(),
            trigger_states: HashMap::new(),
            button_check_states: HashMap::new(),
            file_path: String::from_str("mappings.toml"),
        };
        assert(table@.mappings =~= Seq::empty());
        assert(table@.sub_mappings =~= Seq::empty());
        table
    }
}

/// Sets the path under which the table is stored.
pub fn set_mapping_file_path(table: &mut MappingTable, path: String)
    ensures
        final(table)@ == (TableView { file_path: path@, ..old(table)@ }),
{
    table.file_path = path;
}

/// The path under which the table is stored.
pub fn get_mapping_file_path(table: &MappingTable) -> (path: String)
    ensures
        path@ == table@.file_path,
{
    table.file_path.clone()
}

/// Takes the mappings read from storage as the mappings of the main
/// preset. Hands back a copy of them, and the release commands of the keys
/// that the mappings taken out still held.
pub fn load_mappings(table: &mut MappingTable, stored: Vec<Mapping>) -> (loaded: (
    Vec<Mapping>,
    Vec<EnigoCommand>,
))
    ensures
        final(table)@ == with_mappings(old(table)@, mapping_views(stored@)),
        mapping_views(loaded.0@) == mapping_views(stored@),
        command_views(loaded.1@) == released(
            old(table)@.mappings,
            mapping_views(stored@),
            old(table)@.trigger_states,
        ).commands,
{
    let commands = release_dropped(&table.mappings, &stored, &mut table.trigger_states);
    table.mappings = stored;
    (duplicate_all(&table.mappings), commands)
}

/// Takes the mappings read from storage as the mappings of the
/// sub-preset, and hands back the release commands of the keys that the
/// mappings taken out still held.
pub fn load_sub_mappings(table: &mut MappingTable, stored: Vec<Mapping>) -> (commands: Vec<
    EnigoCommand,
>)
    ensures
        final(table)@ == with_sub_mappings(old(table)@, mapping_views(stored@)),
        command_views(commands@) == released(
            old(table)@.sub_mappings,
            mapping_views(stored@),
            old(table)@.trigger_states,
        ).commands,
{
    let commands = release_dropped(&table.sub_mappings, &stored, &mut table.trigger_states);
    table.sub_mappings = stored;
    commands
}

/// A copy of the mappings of the main preset, which is what is written
/// to storage.
pub fn save_mappings(table: &MappingTable) -> (mappings: Vec<Mapping>)
    ensures
        mapping_views(mappings@) == table@.mappings,
{
    duplicate_all(&table.mappings)
}

/// A copy of the mappings of the main preset.
pub fn get_mappings_internal(table: &MappingTable) -> (mappings: Vec<Mapping>)
    ensures
        mapping_views(mappings@) == table@.mappings,
{
    duplicate_all(&table.mappings)
}

/// A copy of the mappings of the main preset.
pub fn get_mappings(table: &MappingTable) -> (mappings: Vec<Mapping>)
    ensures
        mapping_views(mappings@) == table@.mappings,
{
    get_mappings_internal(table)
}

/// Replaces the mappings of the main preset, and hands back the release
/// commands of the keys that the mappings taken out still held.
pub fn set_mapping(table: &mut MappingTable, mapping: Vec<Mapping>) -> (commands: Vec<EnigoCommand>)
    ensures
        final(table)@ == with_mappings(old(table)@, mapping_views(mapping@)),
        command_views(commands@) == released(
            old(table)@.mappings,
            mapping_views(mapping@),
            old(table)@.trigger_states,
        ).commands,
{
    let commands = release_dropped(&table.mappings, &mapping, &mut table.trigger_states);
    table.mappings = mapping;
    commands
}

/// Replaces the mappings of the main preset by the mappings in a new
/// order, as the caller gives them. Says that it is done, and hands back
/// the release commands of the keys held by mappings that the new list
/// leaves out.
pub fn update_mappings_order(table: &mut MappingTable, mappings: Vec<Mapping>) -> (done: (
    bool,
    Vec<EnigoCommand>,
))
    ensures
        done.0,
        final(table)@ == with_mappings(old(table)@, mapping_views(mappings@)),
        command_views(done.1@) == released(
            old(table)@.mappings,
            mapping_views(mappings@),
            old(table)@.trigger_states,
        ).commands,
{
    let commands = set_mapping(table, mappings);
    (true, commands)
}

fn find(table: &MappingTable, id: u64) -> (place: Option<usize>)
    ensures
        match place {
            Some(i) => is_first_with_id(table@.mappings, id, i as int),
            None => !has_id(table@.mappings, id),
        },
{
    let mut i: usize = 0;
    while i < table.mappings.len()
        invariant
            i <= table.mappings.len(),
            forall|j: int| 0 <= j < i ==> (#[trigger] table@.mappings[j]).id != id,
        decreases table.mappings.len() - i,
    {
        assert(table@.mappings[i as int] == table.mappings@[i as int]@);
        if table.mappings[i].id == id {
            return Some(i);
        }
        i += 1;
    }
    None
}

/// A copy of the first mapping with the given id.
pub fn get_mapping_by_id(table: &MappingTable, id: u64) -> (found: Option<Mapping>)
    ensures
        match found {
            Some(mapping) => exists|i: int|
                is_first_with_id(table@.mappings, id, i) && mapping@ == table@.mappings[i],
            None => !has_id(table@.mappings, id),
        },
{
    match find(table, id) {
        Some(i) => {
            assert(table@.mappings[i as int] == table.mappings@[i as int]@);
            Some(table.mappings[i].duplicate())
        },
        None => None,
    }
}

/// Adds the mapping that the request describes, under the given id, at
/// the end of the main preset, and starts its running state.
///
/// Fails, and leaves the table as it is, where the request names no
/// action string or a malformed one.
pub fn add_mapping(table: &mut MappingTable, config: &MappingUpdateConfig, id: u64) -> (result: Result<
    (),
    MappingError,
>)
    ensures
        match add_spec(old(table)@, config@, id) {
            Ok(after) => result is Ok && final(table)@ == after,
            Err(error) => result is Err && result->Err_0@ == error && final(table)@ == old(table)@,
        },
{
    match create_mapping_from_config(config, id) {
        Err(error) => Err(error),
        Ok(created) => {
            let mut mapping = created;
            mapping.mapping_tag = config.mapping_tag;
            let trigger_state = mapping.trigger_state;
            let ghost added = mapping@;
            table.mappings.push(mapping);
            store(&mut table.trigger_states, id, trigger_state);
            store(&mut table.button_check_states, id, ButtonCheckState::default());
            assert(table@.mappings =~= old(table)@.mappings.push(added));
            Ok(())
        },
    }
}

/// Changes the first mapping with the id of the request as the request
/// says, and hands back the release command of the key that the mapping
/// held under its action of before, if it held one.
///
/// Fails with `NotFound` where no mapping has that id, and with the
/// parse error where the action string of the request is malformed; the
/// table is then left as it is.
pub fn update_mapping(table: &mut MappingTable, config: &MappingUpdateConfig) -> (result: Result<
    Vec<EnigoCommand>,
    MappingError,
>)
    ensures
        !has_id(old(table)@.mappings, config.id) ==> result is Err && result->Err_0@
            is NotFound && final(table)@ == old(table)@,
        forall|i: int| #[trigger]
            is_first_with_id(old(table)@.mappings, config.id, i) ==> match update_spec(
                old(table)@,
                config@,
                i,
            ) {
                Ok(after) => result is Ok && final(table)@ == after && command_views(
                    result->Ok_0@,
                ) == update_release(old(table)@, config@, i),
                Err(error) => result is Err && result->Err_0@ == error && final(table)@
                    == old(table)@,
            },
{
    let id = config.id;
    let place = match find(table, id) {
        Some(place) => place,
        None => {
            return Err(MappingError::NotFound);
        },
    };
    assert forall|i: int| #[trigger]
        is_first_with_id(old(table)@.mappings, id, i) implies i == place by {
        if i < place {
            assert(old(table)@.mappings[i].id != id);
        }
        if place < i {
            assert(old(table)@.mappings[place as int].id != id);
        }
    }
    assert(table@.mappings[place as int] == table.mappings@[place as int]@);
    let mut commands: Vec<EnigoCommand> = Vec::new();
    assert(command_views(commands@) =~= Seq::<CommandView>::empty());
    let key = match &config.composed_shortcut_key {
        Some(key) => key,
        None => {
            return Ok(commands);
        },
    };
    let action = match crate::parse::parse_composed_key_to_action(key.as_str()) {
        Ok(action) => action,
        Err(error) => {
            return Err(MappingError::Parse(error));
        },
    };
    if let Some(policy) = lookup(&table.trigger_states, id) {
        if !policy.continually_trigger && policy.is_key_pressed() {
            let mut idle = policy;
            idle.set_key_pressed(false);
            store(&mut table.trigger_states, id, idle);
            let command = EnigoCommand::ExecuteRelease(table.mappings[place].action.duplicate());
            assert(command_views(commands@.push(command)) =~= seq![command@]);
            commands.push(command);
        }
    }
    let current = &table.mappings[place];
    let trigger_state = match config.trigger_state {
        Some(settings) => resettle(current.trigger_state, settings),
        None => current.trigger_state,
    };
    let changed = Mapping {
        id: current.id,
        composed_button: match &config.composed_button {
            Some(button) => button.clone(),
            None => current.composed_button.clone(),
        },
        composed_shortcut_key: key.clone(),
        check_mode: match config.check_mode {
            Some(mode) => mode,
            None => current.check_mode,
        },
        check_mode_param: match config.check_mode_param {
            Some(param) => param,
            None => current.check_mode_param,
        },
        trigger_theshold: match config.trigger_theshold {
            Some(threshold) => threshold,
            None => current.trigger_theshold,
        },
        action: crate::mapping::apply_wheel_amount(action, config.amount),
        trigger_state,
        mapping_tag: match config.mapping_tag {
            Some(tag) => Some(tag),
            None => current.mapping_tag,
        },
    };
    let ghost changed_view = changed@;
    table.mappings.set(place, changed);
    assert(table@.mappings =~= old(table)@.mappings.update(place as int, changed_view));
    if let Some(settings) = config.trigger_state {
        let running = match lookup(&table.trigger_states, id) {
            Some(running) => resettle(running, settings),
            None => settings,
        };
        store(&mut table.trigger_states, id, running);
        if lookup(&table.button_check_states, id).is_none() {
            store(&mut table.button_check_states, id, ButtonCheckState::default());
        }
    }
    Ok(commands)
}

/// Takes every mapping with the given id out of the main preset,
/// together with its running state. Says whether there was one, and hands
/// back the release command of the key that it still held, if it held one.
pub fn delete_mapping(table: &mut MappingTable, id: u64) -> (deleted: (bool, Vec<EnigoCommand>))
    ensures
        deleted.0 == has_id(old(table)@.mappings, id),
        final(table)@ == delete_spec(old(table)@, id),
        command_views(deleted.1@) == released(
            old(table)@.mappings,
            without_id(old(table)@.mappings, id),
            old(table)@.trigger_states,
        ).commands,
{
    let ghost before = table@.mappings;
    let mut kept: Vec<Mapping> = Vec::new();
    let mut deleted = false;
    let mut i: usize = 0;
    while i < table.mappings.len()
        invariant
            i <= table.mappings.len(),
            before == table@.mappings,
            *table == *old(table),
            mapping_views(kept@) == without_id(before.take(i as int), id),
            deleted == has_id(before.take(i as int), id),
        decreases table.mappings.len() - i,
    {
        proof {
            lemma_without_id_take(before, id, i as int);
            assert(before[i as int] == table.mappings@[i as int]@);
            let shorter = before.take(i as int);
            let longer = before.take(i + 1);
            if has_id(shorter, id) {
                let j = choose|j: int| 0 <= j < shorter.len() && (#[trigger] shorter[j]).id == id;
                assert(longer[j].id == id);
            }
            if before[i as int].id == id {
                assert(longer[i as int].id == id);
            }
            if has_id(longer, id) {
                let j = choose|j: int| 0 <= j < longer.len() && (#[trigger] longer[j]).id == id;
                if j < i {
                    assert(shorter[j].id == id);
                }
            }
        }
        if table.mappings[i].id != id {
            let copy = table.mappings[i].duplicate();
            assert(mapping_views(kept@.push(copy)) =~= mapping_views(kept@).push(copy@));
            kept.push(copy);
        } else {
            deleted = true;
        }
        i += 1;
    }
    assert(before.take(i as int) =~= before);
    let commands = release_dropped(&table.mappings, &kept, &mut table.trigger_states);
    proof {
        let end = released(before, without_id(before, id), old(table)@.trigger_states);
        lemma_released_policies(before, without_id(before, id), old(table)@.trigger_states);
        lemma_without_id(before, id);
        lemma_without_id_keeps(before, id);
        assert(end.trigger_states.remove(id) =~= old(table)@.trigger_states.remove(id));
        if !deleted {
            assert(end.trigger_states =~= old(table)@.trigger_states);
        }
    }
    if deleted {
        table.mappings = kept;
        forget(&mut table.trigger_states, id);
        forget(&mut table.button_check_states, id);
    }
    (deleted, commands)
}

/// Lets go of every key that a mapping of the table holds, and hands back
/// the release commands: those of the main preset first, then those of the
/// sub-preset. This is for the moment at which no tick will come for a
/// while, as when the controller goes away.
pub fn release_held_keys(table: &mut MappingTable) -> (commands: Vec<EnigoCommand>)
    ensures
        final(table)@ == (TableView {
            trigger_states: all_let_go(old(table)@).trigger_states,
            ..old(table)@
        }),
        command_views(commands@) == all_let_go(old(table)@).commands,
{
    let nothing: Vec<Mapping> = Vec::new();
    assert(mapping_views(nothing@) =~= Seq::<MappingView>::empty());
    let mut commands = release_dropped(&table.mappings, &nothing, &mut table.trigger_states);
    let mut more = release_dropped(&table.sub_mappings, &nothing, &mut table.trigger_states);
    assert(command_views(commands@ + more@) =~= command_views(commands@) + command_views(more@));
    commands.append(&mut more);
    commands
}

/// Puts the settings of `settings` into the running policy `running`.
pub fn resettle(running: TriggerState, settings: TriggerState) -> (policy: TriggerState)
    ensures
        policy == resettled(running, settings),
{
    TriggerState {
        continually_trigger: settings.continually_trigger,
        interval: settings.interval,
        initial_interval: settings.initial_interval,
        min_interval: settings.min_interval,
        acceleration: settings.acceleration,
        last_trigger: running.last_trigger,
        is_pressed: running.is_pressed,
    }
}

/// Taking out an id leaves no mapping with that id, keeps every other
/// mapping, and never makes the list longer.
pub proof fn lemma_without_id(mappings: Seq<MappingView>, id: u64)
    ensures
        !has_id(without_id(mappings, id), id),
        without_id(mappings, id).len() <= mappings.len(),
        forall|other: u64|
            other != id ==> (#[trigger] has_id(without_id(mappings, id), other) == has_id(
                mappings,
                other,
            )),
        !has_id(mappings, id) ==> without_id(mappings, id) == mappings,
    decreases mappings.len(),
{
    let kept = without_id(mappings, id);
    if mappings.len() == 0 {
        assert forall|other: u64| other != id implies #[trigger] has_id(kept, other) == has_id(
            mappings,
            other,
        ) by {}
    } else {
        let shorter = mappings.drop_last();
        let before = without_id(shorter, id);
        lemma_without_id(shorter, id);
        if has_id(kept, id) {
            let i = choose|i: int| 0 <= i < kept.len() && (#[trigger] kept[i]).id == id;
            if i < before.len() {
                assert(before[i].id == id);
            }
        }
        assert forall|other: u64| other != id implies #[trigger] has_id(kept, other) == has_id(
            mappings,
            other,
        ) by {
            if has_id(kept, other) {
                let i = choose|i: int| 0 <= i < kept.len() && (#[trigger] kept[i]).id == other;
                if i < before.len() {
                    assert(before[i].id == other);
                    assert(has_id(before, other));
                    assert(has_id(shorter, other));
                    let j = choose|j: int|
                        0 <= j < shorter.len() && (#[trigger] shorter[j]).id == other;
                    assert(mappings[j].id == other);
                } else {
                    assert(mappings[mappings.len() - 1].id == other);
                }
            }
            if has_id(mappings, other) {
                let j = choose|j: int| 0 <= j < mappings.len() && (#[trigger] mappings[j]).id == other;
                if j < shorter.len() {
                    assert(shorter[j].id == other);
                    assert(has_id(shorter, other));
                    assert(has_id(before, other));
                    let i = choose|i: int| 0 <= i < before.len() && (#[trigger] before[i]).id == other;
                    assert(kept[i].id == other);
                } else {
                    assert(kept[kept.len() - 1].id == other);
                }
            }
        }
        if !has_id(mappings, id) {
            if has_id(shorter, id) {
                let j = choose|j: int| 0 <= j < shorter.len() && (#[trigger] shorter[j]).id == id;
                assert(mappings[j].id == id);
            }
            assert(mappings[mappings.len() - 1].id != id);
            assert(kept =~= mappings);
        }
    }
}

/// A granted change to a mapping that holds a key down hands back the
/// release half of the action that the mapping had, and leaves a policy
/// that holds no key.
pub proof fn lemma_change_lets_go(table: TableView, config: MappingUpdateConfigView, i: int)
    requires
        is_first_with_id(table.mappings, config.id, i),
        holds_key(table.trigger_states, config.id),
        config.composed_shortcut_key is Some,
        update_spec(table, config, i) is Ok,
    ensures
        update_release(table, config, i) == seq![
            CommandView::ExecuteRelease(table.mappings[i].action),
        ],
        !holds_key(update_spec(table, config, i)->Ok_0.trigger_states, config.id),
{
}

/// Taking out an id keeps every mapping of another id: none of them is
/// dropped.
pub proof fn lemma_without_id_keeps(mappings: Seq<MappingView>, id: u64)
    ensures
        forall|j: int|
            0 <= j < mappings.len() && (#[trigger] mappings[j]).id != id ==> keeps(
                without_id(mappings, id),
                mappings[j],
            ),
        forall|other: u64|
            other != id ==> !#[trigger] dropped(mappings, without_id(mappings, id), other),
    decreases mappings.len(),
{
    let kept = without_id(mappings, id);
    if mappings.len() > 0 {
        let shorter = mappings.drop_last();
        let before = without_id(shorter, id);
        lemma_without_id_keeps(shorter, id);
        assert forall|j: int| 0 <= j < mappings.len() && (#[trigger] mappings[j]).id
            != id implies keeps(kept, mappings[j]) by {
            if j < shorter.len() {
                assert(shorter[j].id != id);
                assert(keeps(before, shorter[j]));
                let i = choose|i: int|
                    0 <= i < before.len() && (#[trigger] before[i]).id == shorter[j].id
                        && before[i].action == shorter[j].action;
                assert(kept[i] == before[i]);
            } else {
                assert(kept[kept.len() - 1] == mappings[j]);
            }
        }
    }
    assert forall|other: u64| other != id implies !#[trigger] dropped(mappings, kept, other) by {
        if dropped(mappings, kept, other) {
            let j = choose|j: int|
                0 <= j < mappings.len() && (#[trigger] mappings[j]).id == other && !keeps(
                    kept,
                    mappings[j],
                );
            assert(mappings[j].id != id);
        }
    }
}

/// A list that is not empty drops a mapping of some id exactly when its
/// last mapping has that id and is not kept, or one before it is dropped.
pub proof fn lemma_dropped_last(leaving: Seq<MappingView>, staying: Seq<MappingView>, id: u64)
    requires
        leaving.len() > 0,
    ensures
        dropped(leaving, staying, id) == (dropped(leaving.drop_last(), staying, id) || (
        leaving.last().id == id && !keeps(staying, leaving.last()))),
{
    let shorter = leaving.drop_last();
    if dropped(shorter, staying, id) {
        let j = choose|j: int|
            0 <= j < shorter.len() && (#[trigger] shorter[j]).id == id && !keeps(
                staying,
                shorter[j],
            );
        assert(leaving[j] == shorter[j]);
    }
    if leaving.last().id == id && !keeps(staying, leaving.last()) {
        assert(leaving[leaving.len() - 1].id == id);
    }
    if dropped(leaving, staying, id) {
        let j = choose|j: int|
            0 <= j < leaving.len() && (#[trigger] leaving[j]).id == id && !keeps(
                staying,
                leaving[j],
            );
        if j < shorter.len() {
            assert(shorter[j] == leaving[j]);
        }
    }
}

/// What letting go of held keys does to the running policies: the policy
/// of a dropped mapping that held its key has let it go, and every other
/// policy is as it was. No policy is added and none is taken away. After
/// it no dropped mapping holds a key, and there are no more release
/// commands than there were mappings.
pub proof fn lemma_released_policies(
    leaving: Seq<MappingView>,
    staying: Seq<MappingView>,
    states: Map<u64, TriggerState>,
)
    ensures
        ({
            let end = released(leaving, staying, states);
            &&& end.commands.len() <= leaving.len()
            &&& forall|id: u64| #[trigger]
                end.trigger_states.contains_key(id) == states.contains_key(id)
            &&& forall|id: u64|
                dropped(leaving, staying, id) && holds_key(states, id)
                    ==> #[trigger] end.trigger_states[id] == let_go(states[id])
            &&& forall|id: u64|
                !(dropped(leaving, staying, id) && holds_key(states, id))
                    ==> #[trigger] end.trigger_states[id] == states[id]
            &&& forall|id: u64|
                dropped(leaving, staying, id) ==> !#[trigger] holds_key(end.trigger_states, id)
        }),
    decreases leaving.len(),
{
    if leaving.len() > 0 {
        let shorter = leaving.drop_last();
        let before = released(shorter, staying, states);
        let end = released(leaving, staying, states);
        let last = leaving.last().id;
        lemma_released_policies(shorter, staying, states);
        assert forall|id: u64|
            dropped(leaving, staying, id) == (dropped(shorter, staying, id) || (id == last
                && !keeps(staying, leaving.last()))) by {
            lemma_dropped_last(leaving, staying, id);
        }
        assert forall|id: u64| #[trigger]
            end.trigger_states.contains_key(id) == states.contains_key(id) by {
            assert(before.trigger_states.contains_key(id) == states.contains_key(id));
        }
        assert forall|id: u64|
            dropped(leaving, staying, id) && holds_key(states, id)
                implies #[trigger] end.trigger_states[id] == let_go(states[id]) by {
            assert(before.trigger_states.contains_key(id) == states.contains_key(id));
            if dropped(shorter, staying, id) {
                assert(before.trigger_states[id] == let_go(states[id]));
            } else {
                assert(before.trigger_states[id] == states[id]);
            }
        }
        assert forall|id: u64|
            !(dropped(leaving, staying, id) && holds_key(states, id))
                implies #[trigger] end.trigger_states[id] == states[id] by {
            assert(before.trigger_states.contains_key(id) == states.contains_key(id));
            assert(before.trigger_states[id] == states[id]);
        }
        assert forall|id: u64| dropped(leaving, staying, id) implies !#[trigger] holds_key(
            end.trigger_states,
            id,
        ) by {
            assert(before.trigger_states.contains_key(id) == states.contains_key(id));
            if dropped(shorter, staying, id) {
                assert(!holds_key(before.trigger_states, id));
            }
        }
    } else {
        assert forall|id: u64| !dropped(leaving, staying, id) by {}
    }
}

/// A key that a dropped mapping holds is released: among the commands
/// handed back is the release half of the action of a mapping with that
/// id that is not kept.
pub proof fn lemma_held_key_is_released(
    leaving: Seq<MappingView>,
    staying: Seq<MappingView>,
    states: Map<u64, TriggerState>,
    id: u64,
)
    requires
        dropped(leaving, staying, id),
        holds_key(states, id),
    ensures
        ({
            let commands = released(leaving, staying, states).commands;
            exists|k: int, j: int|
                0 <= k < commands.len() && 0 <= j < leaving.len() && leaving[j].id == id
                    && !keeps(staying, leaving[j]) && #[trigger] commands[k]
                    == CommandView::ExecuteRelease((#[trigger] leaving[j]).action)
        }),
    decreases leaving.len(),
{
    let shorter = leaving.drop_last();
    let before = released(shorter, staying, states);
    let commands = released(leaving, staying, states).commands;
    lemma_dropped_last(leaving, staying, id);
    if dropped(shorter, staying, id) {
        lemma_held_key_is_released(shorter, staying, states, id);
        let (k, j) = choose|k: int, j: int|
            0 <= k < before.commands.len() && 0 <= j < shorter.len() && shorter[j].id == id
                && !keeps(staying, shorter[j]) && #[trigger] before.commands[k]
                == CommandView::ExecuteRelease((#[trigger] shorter[j]).action);
        assert(leaving[j] == shorter[j]);
        assert(commands[k] == before.commands[k]);
        assert(commands[k] == CommandView::ExecuteRelease(leaving[j].action));
    } else {
        lemma_released_policies(shorter, staying, states);
        assert(before.trigger_states.contains_key(id) == states.contains_key(id));
        assert(before.trigger_states[id] == states[id]);
        let j = leaving.len() - 1;
        let k = commands.len() - 1;
        assert(commands[k] == CommandView::ExecuteRelease(leaving[j].action));
    }
}

/// After every held key has been let go, no mapping of the table holds
/// one, in the main preset or in the sub-preset.
pub proof fn lemma_nothing_stays_held(table: TableView)
    ensures
        forall|j: int|
            0 <= j < table.mappings.len() ==> !holds_key(
                all_let_go(table).trigger_states,
                (#[trigger] table.mappings[j]).id,
            ),
        forall|j: int|
            0 <= j < table.sub_mappings.len() ==> !holds_key(
                all_let_go(table).trigger_states,
                (#[trigger] table.sub_mappings[j]).id,
            ),
{
    let nothing = Seq::<MappingView>::empty();
    let main = released(table.mappings, nothing, table.trigger_states);
    let end = released(table.sub_mappings, nothing, main.trigger_states);
    lemma_released_policies(table.mappings, nothing, table.trigger_states);
    lemma_released_policies(table.sub_mappings, nothing, main.trigger_states);
    assert forall|j: int| 0 <= j < table.mappings.len() implies !holds_key(
        end.trigger_states,
        (#[trigger] table.mappings[j]).id,
    ) by {
        let id = table.mappings[j].id;
        assert(!keeps(nothing, table.mappings[j]));
        assert(dropped(table.mappings, nothing, id));
        assert(!holds_key(main.trigger_states, id));
        assert(end.trigger_states.contains_key(id) == main.trigger_states.contains_key(id));
        if dropped(table.sub_mappings, nothing, id) && holds_key(main.trigger_states, id) {
        } else {
            assert(end.trigger_states[id] == main.trigger_states[id]);
        }
    }
    assert forall|j: int| 0 <= j < table.sub_mappings.len() implies !holds_key(
        end.trigger_states,
        (#[trigger] table.sub_mappings[j]).id,
    ) by {
        assert(!keeps(nothing, table.sub_mappings[j]));
        assert(dropped(table.sub_mappings, nothing, table.sub_mappings[j].id));
    }
}

/// A list that keeps every mapping lets nothing go: where each mapping of
/// `leaving` is kept by `staying`, there is no release command and every
/// running policy is as it was.
pub proof fn lemma_kept_mappings_hold_on(
    leaving: Seq<MappingView>,
    staying: Seq<MappingView>,
    states: Map<u64, TriggerState>,
)
    requires
        forall|j: int| 0 <= j < leaving.len() ==> keeps(staying, #[trigger] leaving[j]),
    ensures
        released(leaving, staying, states).commands == Seq::<CommandView>::empty(),
        released(leaving, staying, states).trigger_states == states,
    decreases leaving.len(),
{
    if leaving.len() > 0 {
        let shorter = leaving.drop_last();
        assert forall|j: int| 0 <= j < shorter.len() implies keeps(
            staying,
            #[trigger] shorter[j],
        ) by {
            assert(shorter[j] == leaving[j]);
        }
        lemma_kept_mappings_hold_on(shorter, staying, states);
        assert(keeps(staying, leaving[leaving.len() - 1]));
    }
}

/// A mapping that was added is in the table under its id, with the running
/// state of a new mapping, and every mapping that was there before is
/// still there in its place.
pub proof fn lemma_added_is_found(table: TableView, mapping: MappingView)
    ensures
        has_id(with_added(table, mapping).mappings, mapping.id),
        with_added(table, mapping).mappings.last() == mapping,
        with_added(table, mapping).trigger_states[mapping.id] == mapping.trigger_state,
        with_added(table, mapping).button_check_states[mapping.id] == ButtonCheckState::fresh(),
        forall|i: int|
            0 <= i < table.mappings.len() ==> with_added(table, mapping).mappings[i]
                == #[trigger] table.mappings[i],
{
    let after = with_added(table, mapping).mappings;
    assert(after[after.len() - 1].id == mapping.id);
}

/// A request that is refused leaves the table as it is, and a request that
/// is granted keeps the identity and the place of every mapping.
pub proof fn lemma_update_keeps_identities(
    table: TableView,
    config: MappingUpdateConfigView,
    i: int,
)
    requires
        is_first_with_id(table.mappings, config.id, i),
    ensures
        update_spec(table, config, i) matches Ok(after) ==> {
            &&& after.mappings.len() == table.mappings.len()
            &&& forall|j: int|
                0 <= j < table.mappings.len() ==> (#[trigger] after.mappings[j]).id
                    == table.mappings[j].id
            &&& forall|j: int|
                0 <= j < table.mappings.len() && j != i ==> #[trigger] after.mappings[j]
                    == table.mappings[j]
            &&& after.sub_mappings == table.sub_mappings
            &&& after.file_path == table.file_path
        },
{
}

} // verus!
