//! Presets: the deadzones and switches that go with a mapping table, the
//! list of presets, and the decision between a preset and its sub-preset.

use vstd::prelude::*;
use vstd::string::*;
use crate::datas::ControllerDatas;
use crate::device::{clone_text, text_of};
use crate::layout::ButtonLayout;
use crate::text::str_eq;

verus! {

/// Deadzone of a preset that names none, in percent.
pub const DEFAULT_DEADZONE: u8 = 5;

/// Rotation threshold of a preset that names none, in degrees.
pub const DEFAULT_ROTATE_THRESHOLD: i16 = 15;

/// What a preset holds besides its name.
#[derive(Debug)]
pub struct PresetItems {
    /// Name of the file that holds the mapping table.
    pub mappings_file_name: String,
    /// Deadzone of the right stick, in percent.
    pub deadzone: u8,
    /// Deadzone of the left stick, in percent.
    pub deadzone_left: u8,
    /// Whether a stick moves the mouse pointer.
    pub use_stick_as_mouse: bool,
    /// Which stick moves the mouse pointer: `left`, `right` or `touchpad`.
    pub stick_as_mouse_simulation: Option<String>,
    /// Speed of the mouse pointer at a full deflection, in pixels a tick.
    pub move_speed: u8,
    /// Name of the sub-preset.
    pub sub_preset_name: Option<String>,
    /// Name of the button that switches to the sub-preset.
    pub sub_preset_switch_button: Option<String>,
    /// How the button switches: `Hold` or `Toggle`.
    pub sub_preset_switch_mode: Option<String>,
    /// Accumulated turn that makes a rotation event, in degrees.
    pub stick_rotate_trigger_threshold: i16,
}

/// The items of a preset as a mathematical value.
pub struct PresetItemsView {
    pub mappings_file_name: Seq<char>,
    pub deadzone: u8,
    pub deadzone_left: u8,
    pub use_stick_as_mouse: bool,
    pub stick_as_mouse_simulation: Option<Seq<char>>,
    pub move_speed: u8,
    pub sub_preset_name: Option<Seq<char>>,
    pub sub_preset_switch_button: Option<Seq<char>>,
    pub sub_preset_switch_mode: Option<Seq<char>>,
    pub stick_rotate_trigger_threshold: i16,
}

impl View for PresetItems {
    type V = PresetItemsView;

    open spec fn view(&self) -> PresetItemsView {
        PresetItemsView {
            mappings_file_name: self.mappings_file_name@,
            deadzone: self.deadzone,
            deadzone_left: self.deadzone_left,
            use_stick_as_mouse: self.use_stick_as_mouse,
            stick_as_mouse_simulation: text_of(self.stick_as_mouse_simulation),
            move_speed: self.move_speed,
            sub_preset_name: text_of(self.sub_preset_name),
            sub_preset_switch_button: text_of(self.sub_preset_switch_button),
            sub_preset_switch_mode: text_of(self.sub_preset_switch_mode),
            stick_rotate_trigger_threshold: self.stick_rotate_trigger_threshold,
        }
    }
}

impl PresetItems {
    /// The items of a new preset.
    pub open spec fn standard() -> PresetItemsView {
        PresetItemsView {
            mappings_file_name: "mappings.toml"@,
            deadzone: DEFAULT_DEADZONE,
            deadzone_left: DEFAULT_DEADZONE,
            use_stick_as_mouse: false,
            stick_as_mouse_simulation: None,
            move_speed: 25,
            sub_preset_name: None,
            sub_preset_switch_button: None,
            sub_preset_switch_mode: None,
            stick_rotate_trigger_threshold: DEFAULT_ROTATE_THRESHOLD,
        }
    }

    /// A copy of these items.
    pub fn duplicate(&self) -> (copy: Self)
        ensures
            copy@ == self@,
    {
        PresetItems {
            mappings_file_name: self.mappings_file_name.clone(),
            deadzone: self.deadzone,
            deadzone_left: self.deadzone_left,
            use_stick_as_mouse: self.use_stick_as_mouse,
            stick_as_mouse_simulation: clone_text(&self.stick_as_mouse_simulation),
            move_speed: self.move_speed,
            sub_preset_name: clone_text(&self.sub_preset_name),
            sub_preset_switch_button: clone_text(&self.sub_preset_switch_button),
            sub_preset_switch_mode: clone_text(&self.sub_preset_switch_mode),
            stick_rotate_trigger_threshold: self.stick_rotate_trigger_threshold,
        }
    }
}

/// A preset.
#[derive(Debug)]
pub struct Preset {
    pub name: String,
    pub items: PresetItems,
}

/// A preset as a mathematical value.
pub struct PresetView {
    pub name: Seq<char>,
    pub items: PresetItemsView,
}

impl View for Preset {
    type V = PresetView;

    open spec fn view(&self) -> PresetView {
        PresetView { name: self.name@, items: self.items@ }
    }
}

/// The views of a list of presets.
pub open spec fn preset_views(presets: Seq<Preset>) -> Seq<PresetView> {
    presets.map_values(|preset: Preset| preset@)
}

/// The deadzone of a preset that names none.
pub fn default_deadzone() -> (deadzone: u8)
    ensures
        deadzone == DEFAULT_DEADZONE,
{
    DEFAULT_DEADZONE
}

impl Preset {
    /// A preset with the given name and the standard items.
    pub fn new(name: String) -> (preset: Self)
        ensures
            preset@ == (PresetView { name: name@, items: PresetItems::standard() }),
    {
        Preset {
            name,
            items: PresetItems {
                mappings_file_name: String::from_str("mappings.toml"),
                deadzone: DEFAULT_DEADZONE,
                deadzone_left: DEFAULT_DEADZONE,
                use_stick_as_mouse: false,
                stick_as_mouse_simulation: None,
                move_speed: 25,
                sub_preset_name: None,
                sub_preset_switch_button: None,
                sub_preset_switch_mode: None,
                stick_rotate_trigger_threshold: DEFAULT_ROTATE_THRESHOLD,
            },
        }
    }

    /// A copy of this preset.
    pub fn duplicate(&self) -> (copy: Self)
        ensures
            copy@ == self@,
    {
        Preset { name: self.name.clone(), items: self.items.duplicate() }
    }

    /// Names the file that holds the mapping table.
    pub fn set_mappings(&mut self, mappings: String)
        ensures
            final(self)@ == (PresetView {
                items: PresetItemsView { mappings_file_name: mappings@, ..old(self)@.items },
                ..old(self)@
            }),
    {
        self.items.mappings_file_name = mappings;
    }

    /// Sets the deadzone of the right stick, in percent.
    pub fn set_deadzone(&mut self, deadzone: u8)
        ensures
            final(self)@ == (PresetView {
                items: PresetItemsView { deadzone, ..old(self)@.items },
                ..old(self)@
            }),
    {
        self.items.deadzone = deadzone;
    }

    /// Sets the deadzone of the left stick, in percent.
    pub fn set_deadzone_left(&mut self, deadzone_left: u8)
        ensures
            final(self)@ == (PresetView {
                items: PresetItemsView { deadzone_left, ..old(self)@.items },
                ..old(self)@
            }),
    {
        self.items.deadzone_left = deadzone_left;
    }
}

impl Clone for Preset {
    fn clone(&self) -> (copy: Self)
        ensures
            copy@ == self@,
    {
        self.duplicate()
    }
}

/// Settings of a ready-made preset.
#[derive(Debug)]
pub struct PresetConfigData {
    pub deadzone: u8,
    pub deadzone_left: u8,
    pub use_stick_as_mouse: bool,
    pub stick_as_mouse_simulation: Option<String>,
    pub move_speed: u8,
    pub stick_rotate_trigger_threshold: i16,
    pub sub_preset_name: Option<String>,
    pub sub_preset_switch_button: Option<String>,
    pub sub_preset_switch_mode: Option<String>,
}

/// What the switch between a preset and its sub-preset remembers between
/// ticks.
#[derive(Clone, Copy, Debug, PartialEq, Eq, Structural)]
pub struct SubPresetSwitch {
    /// Whether the sub-preset is switched on in toggle mode.
    pub active: bool,
    /// Level of the switch button at the previous tick.
    pub last_button_state: bool,
}

/// The button that switches to the sub-preset and the way it does so, where
/// the preset names both and the layout knows the button.
pub open spec fn switch_level(
    items: PresetItemsView,
    layout: ButtonLayout,
    datas: ControllerDatas,
) -> Option<bool> {
    if items.sub_preset_switch_button is Some && items.sub_preset_switch_mode is Some
        && layout.get_spec(items.sub_preset_switch_button->0) is Some {
        Some(datas.pressed(layout.get_spec(items.sub_preset_switch_button->0)->0))
    } else {
        None
    }
}

/// One tick of the switch: the state after it and whether the sub-preset
/// is used at this tick.
///
/// Without a sub-preset the main preset is used and the toggle is off. In
/// hold mode the sub-preset is used while the button is down. In toggle
/// mode each press of the button turns the sub-preset on or off.
pub open spec fn switch_step(
    state: SubPresetSwitch,
    items: PresetItemsView,
    has_sub_preset: bool,
    layout: ButtonLayout,
    datas: ControllerDatas,
) -> (SubPresetSwitch, bool) {
    if !has_sub_preset {
        (SubPresetSwitch { active: false, ..state }, false)
    } else {
        match switch_level(items, layout, datas) {
            None => (state, false),
            Some(pressed) => {
                let mode = items.sub_preset_switch_mode->0;
                if mode == "Hold"@ {
                    (state, pressed)
                } else if mode == "Toggle"@ {
                    let active = if pressed && !state.last_button_state {
                        !state.active
                    } else {
                        state.active
                    };
                    (SubPresetSwitch { active, last_button_state: pressed }, active)
                } else {
                    (state, false)
                }
            },
        }
    }
}

/// Decides whether this tick goes through the mappings of the sub-preset.
pub fn handle_preset_switching_decision(
    state: &mut SubPresetSwitch,
    main_preset: &Preset,
    has_sub_preset: bool,
    layout: ButtonLayout,
    controller_datas: &ControllerDatas,
) -> (use_sub_preset: bool)
    ensures
        (*final(state), use_sub_preset) == switch_step(
            *old(state),
            main_preset@.items,
            has_sub_preset,
            layout,
            *controller_datas,
        ),
{
    if !has_sub_preset {
        state.active = false;
        return false;
    }
    let mut use_sub_preset = false;
    match (&main_preset.items.sub_preset_switch_button, &main_preset.items.sub_preset_switch_mode) {
        (Some(button_name), Some(mode)) => {
            match layout.get(button_name.as_str()) {
                Some(button) => {
                    let is_button_pressed = controller_datas.get_button(button);
                    if str_eq(mode.as_str(), "Hold") {
                        use_sub_preset = is_button_pressed;
                    } else if str_eq(mode.as_str(), "Toggle") {
                        if is_button_pressed && !state.last_button_state {
                            state.active = !state.active;
                        }
                        state.last_button_state = is_button_pressed;
                        use_sub_preset = state.active;
                    }
                },
                None => {},
            }
        },
        _ => {},
    }
    use_sub_preset
}

/// Why a request on the list of presets was refused.
#[derive(Clone, Copy, Debug, PartialEq, Eq, Structural)]
pub enum PresetError {
    /// The name is empty.
    EmptyName,
    /// A preset of that name exists already.
    NameTaken,
    /// The default preset can be neither deleted nor renamed.
    DefaultPreset,
}

/// The preset in use, its sub-preset, and the list of all presets.
#[derive(Debug)]
pub struct PresetManager {
    pub current: Preset,
    pub sub_preset: Option<Preset>,
    pub presets: Vec<Preset>,
}

/// Whether a preset of the given name is in the list.
pub open spec fn has_name(presets: Seq<PresetView>, name: Seq<char>) -> bool {
    exists|i: int| 0 <= i < presets.len() && (#[trigger] presets[i]).name == name
}

/// The presets whose name is not the given one, in their order.
pub open spec fn without_name(presets: Seq<PresetView>, name: Seq<char>) -> Seq<PresetView>
    decreases presets.len(),
{
    if presets.len() == 0 {
        presets
    } else {
        let before = without_name(presets.drop_last(), name);
        if presets.last().name != name {
            before.push(presets.last())
        } else {
            before
        }
    }
}

impl PresetManager {
    /// The presets of the list as mathematical values.
    pub open spec fn listed(&self) -> Seq<PresetView> {
        preset_views(self.presets@)
    }

    /// A manager with the default preset in use and an empty list.
    pub fn new() -> (manager: Self)
        ensures
            manager.current@ == (PresetView { name: "default"@, items: PresetItems::standard() }),
            manager.sub_preset is None,
            manager.listed() == Seq::<PresetView>::empty(),
    {
        let manager = PresetManager {
            current: Preset::new(String::from_str("default")),
            sub_preset: None,
            presets: Vec::new(),
        };
        assert(manager.listed() =~= Seq::<PresetView>::empty());
        manager
    }

    fn contains(&self, name: &str) -> (found: bool)
        ensures
            found == has_name(self.listed(), name@),
    {
        let mut i: usize = 0;
        while i < self.presets.len()
            invariant
                i <= self.presets.len(),
                forall|k: int| 0 <= k < i ==> (#[trigger] self.listed()[k]).name != name@,
            decreases self.presets.len() - i,
        {
            assert(self.listed()[i as int] == self.presets@[i as int]@);
            if str_eq(self.presets[i].name.as_str(), name) {
                return true;
            }
            i += 1;
        }
        false
    }
}

/// Makes a preset with the given name and the standard items and puts it
/// at the end of the list.
///
/// Fails with `EmptyName` for the empty name and with `NameTaken` where the
/// list holds a preset of that name; the list is then left as it is.
pub fn create_preset(manager: &mut PresetManager, name: &str) -> (result: Result<
    Preset,
    PresetError,
>)
    ensures
        name@.len() == 0 ==> (result matches Err(PresetError::EmptyName)),
        name@.len() > 0 && has_name(old(manager).listed(), name@) ==> (result matches Err(
            PresetError::NameTaken,
        )),
        result is Err ==> final(manager).listed() == old(manager).listed(),
        name@.len() > 0 && !has_name(old(manager).listed(), name@) ==> result is Ok
            && result->Ok_0@ == (PresetView { name: name@, items: PresetItems::standard() })
            && final(manager).listed() == old(manager).listed().push(result->Ok_0@),
        final(manager).current@ == old(manager).current@,
        final(manager).sub_preset == old(manager).sub_preset,
{
    if name.unicode_len() == 0 {
        return Err(PresetError::EmptyName);
    }
    if manager.contains(name) {
        return Err(PresetError::NameTaken);
    }
    let preset = Preset::new(String::from_str(name));
    let copy = preset.duplicate();
    assert(preset_views(manager.presets@.push(preset)) =~= preset_views(manager.presets@).push(
        preset@,
    ));
    manager.presets.push(preset);
    Ok(copy)
}

/// Takes the presets of the given name out of the list.
///
/// Fails with `DefaultPreset` for the default preset, which stays.
pub fn delete_preset(manager: &mut PresetManager, name: &str) -> (result: Result<(), PresetError>)
    ensures
        name@ == "default"@ ==> result == Err::<(), PresetError>(PresetError::DefaultPreset)
            && final(manager).listed() == old(manager).listed(),
        name@ != "default"@ ==> result is Ok && final(manager).listed() == without_name(
            old(manager).listed(),
            name@,
        ),
        final(manager).current@ == old(manager).current@,
        final(manager).sub_preset == old(manager).sub_preset,
{
    if str_eq(name, "default") {
        return Err(PresetError::DefaultPreset);
    }
    let ghost before = manager.listed();
    let mut kept: Vec<Preset> = Vec::new();
    let mut i: usize = 0;
    while i < manager.presets.len()
        invariant
            i <= manager.presets.len(),
            before == manager.listed(),
            manager.current@ == old(manager).current@,
            preset_views(kept@) == without_name(before.take(i as int), name@),
        decreases manager.presets.len() - i,
    {
        proof {
            assert(before.take(i + 1).drop_last() =~= before.take(i as int));
            assert(before.take(i + 1).last() == before[i as int]);
            assert(before[i as int] == manager.presets@[i as int]@);
        }
        if !str_eq(manager.presets[i].name.as_str(), name) {
            let copy = manager.presets[i].duplicate();
            assert(preset_views(kept@.push(copy)) =~= preset_views(kept@).push(copy@));
            kept.push(copy);
        }
        i += 1;
    }
    assert(before.take(i as int) =~= before);
    manager.presets = kept;
    Ok(())
}

/// The presets that could be read, in the order of the names they were
/// read for.
pub open spec fn readable(list: Seq<Option<Preset>>) -> Seq<PresetView>
    decreases list.len(),
{
    if list.len() == 0 {
        Seq::empty()
    } else {
        let before = readable(list.drop_last());
        match list.last() {
            Some(preset) => before.push(preset@),
            None => before,
        }
    }
}

/// Takes what was read from storage as the list of presets. `list` holds
/// one entry for each name of a stored preset, in the order of the names:
/// the preset, or nothing where it could not be read.
///
/// Without any name the list of presets stays as it is. Otherwise it
/// becomes the presets that could be read, in the order of their names, and
/// nothing of the old list is kept, even where none could be read.
pub fn load_presets_from_list_to_global(manager: &mut PresetManager, list: Vec<Option<Preset>>)
    ensures
        list@.len() == 0 ==> final(manager).listed() == old(manager).listed(),
        list@.len() > 0 ==> final(manager).listed() == readable(list@),
        final(manager).current@ == old(manager).current@,
        final(manager).sub_preset == old(manager).sub_preset,
{
    if list.len() == 0 {
        return ;
    }
    let mut presets: Vec<Preset> = Vec::new();
    let mut i: usize = 0;
    assert(preset_views(presets@) =~= Seq::<PresetView>::empty());
    assert(list@.take(0) =~= Seq::<Option<Preset>>::empty());
    while i < list.len()
        invariant
            i <= list.len(),
            preset_views(presets@) == readable(list@.take(i as int)),
        decreases list.len() - i,
    {
        proof {
            assert(list@.take(i + 1).drop_last() =~= list@.take(i as int));
            assert(list@.take(i + 1).last() == list@[i as int]);
        }
        match &list[i] {
            Some(preset) => {
                let copy = preset.duplicate();
                assert(preset_views(presets@.push(copy)) =~= preset_views(presets@).push(copy@));
                presets.push(copy);
            },
            None => {},
        }
        i += 1;
    }
    assert(list@.take(i as int) =~= list@);
    manager.presets = presets;
}

/// Every preset in the list of what could be read was read under one of
/// the names, and the list is no longer than the names are many.
pub proof fn lemma_readable_is_drawn_from_the_list(list: Seq<Option<Preset>>)
    ensures
        readable(list).len() <= list.len(),
        forall|k: int|
            0 <= k < readable(list).len() ==> exists|j: int|
                0 <= j < list.len() && list[j] is Some && (#[trigger] list[j])->0@
                    == #[trigger] readable(list)[k],
        (forall|j: int| 0 <= j < list.len() ==> (#[trigger] list[j]) is None) ==> readable(
            list,
        ).len() == 0,
    decreases list.len(),
{
    if list.len() > 0 {
        let shorter = list.drop_last();
        lemma_readable_is_drawn_from_the_list(shorter);
        assert forall|k: int| 0 <= k < readable(list).len() implies exists|j: int|
            0 <= j < list.len() && list[j] is Some && (#[trigger] list[j])->0@
                == #[trigger] readable(list)[k] by {
            if k < readable(shorter).len() {
                let j = choose|j: int|
                    0 <= j < shorter.len() && shorter[j] is Some && (#[trigger] shorter[j])->0@
                        == readable(shorter)[k];
                assert(list[j] == shorter[j]);
            } else {
                assert(list[list.len() - 1] is Some);
            }
        }
        if forall|j: int| 0 <= j < list.len() ==> (#[trigger] list[j]) is None {
            assert forall|j: int| 0 <= j < shorter.len() implies (#[trigger] shorter[j]) is None by {
                assert(list[j] is None);
            }
            assert(list[list.len() - 1] is None);
        }
    }
}

/// A copy of the preset in use.
pub fn get_current_preset(manager: &PresetManager) -> (preset: Preset)
    ensures
        preset@ == manager.current@,
{
    manager.current.duplicate()
}

/// Sets the deadzones of both sticks of the preset in use, in percent.
pub fn update_deadzone(manager: &mut PresetManager, deadzone: u8, deadzone_left: u8)
    ensures
        final(manager).current@ == (PresetView {
            items: PresetItemsView { deadzone, deadzone_left, ..old(manager).current@.items },
            ..old(manager).current@
        }),
        final(manager).listed() == old(manager).listed(),
        final(manager).sub_preset == old(manager).sub_preset,
{
    manager.current.set_deadzone(deadzone);
    manager.current.set_deadzone_left(deadzone_left);
}

/// Sets the rotation threshold of the preset in use, in degrees.
pub fn update_stick_rotation_threshold(manager: &mut PresetManager, threshold: i16)
    ensures
        final(manager).current@ == (PresetView {
            items: PresetItemsView {
                stick_rotate_trigger_threshold: threshold,
                ..old(manager).current@.items
            },
            ..old(manager).current@
        }),
        final(manager).listed() == old(manager).listed(),
        final(manager).sub_preset == old(manager).sub_preset,
{
    manager.current.items.stick_rotate_trigger_threshold = threshold;
}

/// Says whether a stick moves the mouse pointer in the preset in use, and
/// which.
pub fn update_stick_as_mouse(
    manager: &mut PresetManager,
    use_stick_as_mouse: bool,
    stick_as_mouse_simulation: Option<String>,
)
    ensures
        final(manager).current@ == (PresetView {
            items: PresetItemsView {
                use_stick_as_mouse,
                stick_as_mouse_simulation: text_of(stick_as_mouse_simulation),
                ..old(manager).current@.items
            },
            ..old(manager).current@
        }),
        final(manager).listed() == old(manager).listed(),
        final(manager).sub_preset == old(manager).sub_preset,
{
    manager.current.items.use_stick_as_mouse = use_stick_as_mouse;
    manager.current.items.stick_as_mouse_simulation = stick_as_mouse_simulation;
}

/// What a request to rename a preset comes to: nothing to do where both
/// names are the same, a refusal where the new name is empty or the preset
/// is the default one, and a renaming otherwise.
pub open spec fn rename_verdict(old_name: Seq<char>, new_name: Seq<char>) -> Result<
    bool,
    PresetError,
> {
    if old_name == new_name {
        Ok(false)
    } else if new_name.len() == 0 {
        Err(PresetError::EmptyName)
    } else if old_name == "default"@ {
        Err(PresetError::DefaultPreset)
    } else {
        Ok(true)
    }
}

/// The list with every preset of the old name given the new name.
pub open spec fn renamed(
    presets: Seq<PresetView>,
    old_name: Seq<char>,
    new_name: Seq<char>,
) -> Seq<PresetView> {
    presets.map_values(
        |preset: PresetView|
            if preset.name == old_name {
                PresetView { name: new_name, ..preset }
            } else {
                preset
            },
    )
}

/// Judges a request to rename a preset, before any file is touched. The
/// result says whether there is anything to rename.
pub fn check_rename(old_name: &str, new_name: &str) -> (verdict: Result<bool, PresetError>)
    ensures
        verdict == rename_verdict(old_name@, new_name@),
{
    if str_eq(old_name, new_name) {
        Ok(false)
    } else if new_name.unicode_len() == 0 {
        Err(PresetError::EmptyName)
    } else if str_eq(old_name, "default") {
        Err(PresetError::DefaultPreset)
    } else {
        Ok(true)
    }
}

/// Renames a preset in the list, where the request is granted. A refused
/// request, and one with nothing to do, leave the list as it is.
pub fn rename_preset(manager: &mut PresetManager, old_name: &str, new_name: &str) -> (verdict:
    Result<bool, PresetError>)
    ensures
        verdict == rename_verdict(old_name@, new_name@),
        verdict == Ok::<bool, PresetError>(true) ==> final(manager).listed() == renamed(
            old(manager).listed(),
            old_name@,
            new_name@,
        ),
        verdict != Ok::<bool, PresetError>(true) ==> final(manager).listed() == old(
            manager,
        ).listed(),
        final(manager).current@ == old(manager).current@,
        final(manager).sub_preset == old(manager).sub_preset,
{
    let verdict = check_rename(old_name, new_name);
    match verdict {
        Ok(true) => {},
        _ => {
            return verdict;
        },
    }
    let ghost before = manager.listed();
    let mut changed: Vec<Preset> = Vec::new();
    let mut i: usize = 0;
    while i < manager.presets.len()
        invariant
            i <= manager.presets.len(),
            before == manager.listed(),
            manager.current@ == old(manager).current@,
            changed@.len() == i,
            forall|k: int|
                0 <= k < i ==> (#[trigger] changed@[k])@ == renamed(before, old_name@, new_name@)[k],
        decreases manager.presets.len() - i,
    {
        assert(before[i as int] == manager.presets@[i as int]@);
        let mut copy = manager.presets[i].duplicate();
        if str_eq(copy.name.as_str(), old_name) {
            copy.name = String::from_str(new_name);
        }
        changed.push(copy);
        i += 1;
    }
    assert(preset_views(changed@) =~= renamed(before, old_name@, new_name@));
    manager.presets = changed;
    verdict
}

} // verus!
