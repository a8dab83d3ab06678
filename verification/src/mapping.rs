//! Mappings from a controller button to an action, and what the user may
//! ask to change in one.

use vstd::prelude::*;
use crate::action::{Action, ActionView, PrimaryAction};
use crate::parse::{parse_composed_key_to_action, parse_spec, ParseError, ParseErrorView};
use crate::press::CheckMode;
use crate::trigger::TriggerState;

verus! {

/// Window of a double press, or duration of a long press, of a mapping that
/// names none, in milliseconds.
pub const DEFAULT_CHECK_PARAM: u64 = 300;

/// Pressure that an analog trigger must pass to count as a button, for a
/// mapping that names none: three tenths of full pressure.
pub const DEFAULT_TRIGGER_THRESHOLD: i32 = 300_000;

/// Place of a mapping in a group of mappings.
#[derive(Clone, Copy, Debug, PartialEq, Eq, Structural)]
pub enum MappingTag {
    Normal,
    Group,
    Tail,
}

/// One entry of the mapping table.
#[derive(Debug)]
pub struct Mapping {
    /// Identity of the mapping; it never changes.
    pub id: u64,
    /// Name of the source button, trigger or stick turn.
    pub composed_button: String,
    /// The action string that `action` was read from.
    pub composed_shortcut_key: String,
    pub check_mode: CheckMode,
    /// Window of a double press or duration of a long press, in
    /// milliseconds.
    pub check_mode_param: u64,
    /// Pressure that an analog trigger must pass to count as a button.
    pub trigger_theshold: i32,
    pub action: Action,
    /// Trigger policy with which the mapping starts.
    pub trigger_state: TriggerState,
    pub mapping_tag: Option<MappingTag>,
}

/// A mapping as a mathematical value.
pub struct MappingView {
    pub id: u64,
    pub composed_button: Seq<char>,
    pub composed_shortcut_key: Seq<char>,
    pub check_mode: CheckMode,
    pub check_mode_param: u64,
    pub trigger_theshold: i32,
    pub action: ActionView,
    pub trigger_state: TriggerState,
    pub mapping_tag: Option<MappingTag>,
}

impl View for Mapping {
    type V = MappingView;

    open spec fn view(&self) -> MappingView {
        MappingView {
            id: self.id,
            composed_button: self.composed_button@,
            composed_shortcut_key: self.composed_shortcut_key@,
            check_mode: self.check_mode,
            check_mode_param: self.check_mode_param,
            trigger_theshold: self.trigger_theshold,
            action: self.action@,
            trigger_state: self.trigger_state,
            mapping_tag: self.mapping_tag,
        }
    }
}

/// The views of a list of mappings.
pub open spec fn mapping_views(mappings: Seq<Mapping>) -> Seq<MappingView> {
    mappings.map_values(|mapping: Mapping| mapping@)
}

impl Mapping {
    /// The mapping that `new` gives.
    pub open spec fn plain(
        id: u64,
        composed_button: Seq<char>,
        composed_shortcut_key: Seq<char>,
    ) -> MappingView {
        MappingView {
            id,
            composed_button,
            composed_shortcut_key,
            check_mode: CheckMode::Single,
            check_mode_param: DEFAULT_CHECK_PARAM,
            trigger_theshold: DEFAULT_TRIGGER_THRESHOLD,
            action: Action::space(),
            trigger_state: TriggerState::initial(300, 100, 800, 0),
            mapping_tag: None,
        }
    }

    /// A mapping with the given names, the space key as its action and
    /// every setting at its default.
    pub fn new(id: u64, composed_button: String, composed_shortcut_key: String) -> (mapping: Self)
        ensures
            mapping@ == Mapping::plain(id, composed_button@, composed_shortcut_key@),
    {
        Mapping {
            id,
            composed_button,
            composed_shortcut_key,
            check_mode: CheckMode::Single,
            check_mode_param: DEFAULT_CHECK_PARAM,
            trigger_theshold: DEFAULT_TRIGGER_THRESHOLD,
            action: Action::default(),
            trigger_state: TriggerState::default(),
            mapping_tag: None,
        }
    }

    /// The identity of the mapping.
    pub fn get_id(&self) -> (id: u64)
        ensures
            id == self.id,
    {
        self.id
    }

    /// The name of the source of the mapping.
    pub fn get_composed_button(&self) -> (name: &str)
        ensures
            name@ == self.composed_button@,
    {
        self.composed_button.as_str()
    }

    /// The action string of the mapping.
    pub fn get_composed_key(&self) -> (key: &str)
        ensures
            key@ == self.composed_shortcut_key@,
    {
        self.composed_shortcut_key.as_str()
    }

    /// A copy of this mapping.
    pub fn duplicate(&self) -> (copy: Self)
        ensures
            copy@ == self@,
    {
        Mapping {
            id: self.id,
            composed_button: self.composed_button.clone(),
            composed_shortcut_key: self.composed_shortcut_key.clone(),
            check_mode: self.check_mode,
            check_mode_param: self.check_mode_param,
            trigger_theshold: self.trigger_theshold,
            action: self.action.duplicate(),
            trigger_state: self.trigger_state,
            mapping_tag: self.mapping_tag,
        }
    }
}

impl Clone for Mapping {
    fn clone(&self) -> (copy: Self)
        ensures
            copy@ == self@,
    {
        self.duplicate()
    }
}

/// Copies a list of mappings.
pub fn duplicate_all(mappings: &Vec<Mapping>) -> (copies: Vec<Mapping>)
    ensures
        mapping_views(copies@) == mapping_views(mappings@),
{
    let mut copies: Vec<Mapping> = Vec::new();
    let mut i: usize = 0;
    while i < mappings.len()
        invariant
            i <= mappings.len(),
            copies@.len() == i,
            forall|k: int| 0 <= k < i ==> (#[trigger] copies@[k])@ == mappings@[k]@,
        decreases mappings.len() - i,
    {
        copies.push(mappings[i].duplicate());
        i += 1;
    }
    assert(mapping_views(copies@) =~= mapping_views(mappings@));
    copies
}

/// What a request to add or change a mapping may name. What it leaves out
/// keeps its value, or takes the default in a new mapping.
#[derive(Debug)]
pub struct MappingUpdateConfig {
    pub id: u64,
    pub composed_button: Option<String>,
    pub composed_shortcut_key: Option<String>,
    pub trigger_state: Option<TriggerState>,
    pub trigger_theshold: Option<i32>,
    /// Notches of the mouse wheel, for an action that turns it.
    pub amount: Option<i32>,
    pub check_mode: Option<CheckMode>,
    pub check_mode_param: Option<u64>,
    pub mapping_tag: Option<MappingTag>,
}

/// A request as a mathematical value.
pub struct MappingUpdateConfigView {
    pub id: u64,
    pub composed_button: Option<Seq<char>>,
    pub composed_shortcut_key: Option<Seq<char>>,
    pub trigger_state: Option<TriggerState>,
    pub trigger_theshold: Option<i32>,
    pub amount: Option<i32>,
    pub check_mode: Option<CheckMode>,
    pub check_mode_param: Option<u64>,
    pub mapping_tag: Option<MappingTag>,
}

impl View for MappingUpdateConfig {
    type V = MappingUpdateConfigView;

    open spec fn view(&self) -> MappingUpdateConfigView {
        MappingUpdateConfigView {
            id: self.id,
            composed_button: crate::device::text_of(self.composed_button),
            composed_shortcut_key: crate::device::text_of(self.composed_shortcut_key),
            trigger_state: self.trigger_state,
            trigger_theshold: self.trigger_theshold,
            amount: self.amount,
            check_mode: self.check_mode,
            check_mode_param: self.check_mode_param,
            mapping_tag: self.mapping_tag,
        }
    }
}

impl MappingUpdateConfigView {
    /// The request that names nothing but the mapping.
    pub open spec fn blank(id: u64) -> MappingUpdateConfigView {
        MappingUpdateConfigView {
            id,
            composed_button: None,
            composed_shortcut_key: None,
            trigger_state: None,
            trigger_theshold: None,
            amount: None,
            check_mode: None,
            check_mode_param: None,
            mapping_tag: None,
        }
    }
}

impl MappingUpdateConfig {
    /// A request that names nothing but the mapping.
    pub fn new(id: u64) -> (config: Self)
        ensures
            config@ == MappingUpdateConfigView::blank(id),
    {
        MappingUpdateConfig {
            id,
            composed_button: None,
            composed_shortcut_key: None,
            trigger_state: None,
            trigger_theshold: None,
            amount: None,
            check_mode: None,
            check_mode_param: None,
            mapping_tag: None,
        }
    }

    /// Names the source button.
    pub fn with_composed_button(self, button: String) -> (config: Self)
        ensures
            config@ == (MappingUpdateConfigView { composed_button: Some(button@), ..self@ }),
    {
        let mut config = self;
        config.composed_button = Some(button);
        config
    }

    /// Names the action string.
    pub fn with_composed_shortcut_key(self, key: String) -> (config: Self)
        ensures
            config@ == (MappingUpdateConfigView { composed_shortcut_key: Some(key@), ..self@ }),
    {
        let mut config = self;
        config.composed_shortcut_key = Some(key);
        config
    }

    /// Names the trigger policy.
    pub fn with_trigger_state(self, state: TriggerState) -> (config: Self)
        ensures
            config@ == (MappingUpdateConfigView { trigger_state: Some(state), ..self@ }),
    {
        let mut config = self;
        config.trigger_state = Some(state);
        config
    }

    /// Names the pressure that an analog trigger must pass.
    pub fn with_trigger_threshold(self, threshold: i32) -> (config: Self)
        ensures
            config@ == (MappingUpdateConfigView { trigger_theshold: Some(threshold), ..self@ }),
    {
        let mut config = self;
        config.trigger_theshold = Some(threshold);
        config
    }

    /// Names the notches of the mouse wheel.
    pub fn with_amount(self, amount: i32) -> (config: Self)
        ensures
            config@ == (MappingUpdateConfigView { amount: Some(amount), ..self@ }),
    {
        let mut config = self;
        config.amount = Some(amount);
        config
    }

    /// Names the press pattern.
    pub fn with_check_mode(self, mode: CheckMode) -> (config: Self)
        ensures
            config@ == (MappingUpdateConfigView { check_mode: Some(mode), ..self@ }),
    {
        let mut config = self;
        config.check_mode = Some(mode);
        config
    }

    /// Names the parameter of the press pattern.
    pub fn with_check_mode_param(self, param: u64) -> (config: Self)
        ensures
            config@ == (MappingUpdateConfigView { check_mode_param: Some(param), ..self@ }),
    {
        let mut config = self;
        config.check_mode_param = Some(param);
        config
    }
}

/// Why a request on the mapping table was refused.
#[derive(Debug)]
pub enum MappingError {
    /// The request names no action string.
    MissingShortcutKey,
    /// The table holds no mapping with the id of the request.
    NotFound,
    /// The action string of the request is malformed.
    Parse(ParseError),
}

/// A refusal as a mathematical value.
pub enum MappingErrorView {
    MissingShortcutKey,
    NotFound,
    Parse(ParseErrorView),
}

impl View for MappingError {
    type V = MappingErrorView;

    open spec fn view(&self) -> MappingErrorView {
        match self {
            MappingError::MissingShortcutKey => MappingErrorView::MissingShortcutKey,
            MappingError::NotFound => MappingErrorView::NotFound,
            MappingError::Parse(error) => MappingErrorView::Parse(error@),
        }
    }
}

/// The action with the wheel amount of the request put in, where the action
/// turns the wheel and the request names an amount.
pub open spec fn with_wheel_amount(action: ActionView, amount: Option<i32>) -> ActionView {
    match (action.primary, amount) {
        (PrimaryAction::MouseWheel { .. }, Some(notches)) => ActionView {
            primary: PrimaryAction::MouseWheel { amount: notches },
            ..action
        },
        _ => action,
    }
}

/// The value of an option, or `default` where it is empty.
pub open spec fn or_default<T>(value: Option<T>, default: T) -> T {
    match value {
        Some(v) => v,
        None => default,
    }
}

/// The new mapping that a request describes, given the action that its
/// action string reads as.
pub open spec fn built(
    config: MappingUpdateConfigView,
    id: u64,
    action: ActionView,
    mapping_tag: Option<MappingTag>,
) -> MappingView {
    MappingView {
        id,
        composed_button: or_default(config.composed_button, Seq::empty()),
        composed_shortcut_key: config.composed_shortcut_key->0,
        check_mode: or_default(config.check_mode, CheckMode::Single),
        check_mode_param: or_default(config.check_mode_param, DEFAULT_CHECK_PARAM),
        trigger_theshold: or_default(config.trigger_theshold, DEFAULT_TRIGGER_THRESHOLD),
        action: with_wheel_amount(action, config.amount),
        trigger_state: or_default(config.trigger_state, TriggerState::initial(300, 100, 800, 0)),
        mapping_tag,
    }
}

/// A trigger policy with the settings of `settings` and the running state
/// of `running`.
pub open spec fn resettled(running: TriggerState, settings: TriggerState) -> TriggerState {
    TriggerState {
        continually_trigger: settings.continually_trigger,
        interval: settings.interval,
        initial_interval: settings.initial_interval,
        min_interval: settings.min_interval,
        acceleration: settings.acceleration,
        ..running
    }
}

/// The mapping after a request that names an action string, given the
/// action that the string reads as.
pub open spec fn updated(
    mapping: MappingView,
    config: MappingUpdateConfigView,
    action: ActionView,
) -> MappingView {
    MappingView {
        id: mapping.id,
        composed_button: or_default(config.composed_button, mapping.composed_button),
        composed_shortcut_key: config.composed_shortcut_key->0,
        check_mode: or_default(config.check_mode, mapping.check_mode),
        check_mode_param: or_default(config.check_mode_param, mapping.check_mode_param),
        trigger_theshold: or_default(config.trigger_theshold, mapping.trigger_theshold),
        action: with_wheel_amount(action, config.amount),
        trigger_state: match config.trigger_state {
            Some(settings) => resettled(mapping.trigger_state, settings),
            None => mapping.trigger_state,
        },
        mapping_tag: match config.mapping_tag {
            Some(tag) => Some(tag),
            None => mapping.mapping_tag,
        },
    }
}

/// What reading the request gives: the new mapping, or why there is none.
pub open spec fn create_spec(config: MappingUpdateConfigView, id: u64) -> Result<
    MappingView,
    MappingErrorView,
> {
    match config.composed_shortcut_key {
        None => Err(MappingErrorView::MissingShortcutKey),
        Some(key) => match parse_spec(key) {
            Ok(action) => Ok(built(config, id, action, None)),
            Err(error) => Err(MappingErrorView::Parse(error)),
        },
    }
}

/// The views of the two sides of the result of `create_mapping_from_config`.
pub open spec fn created_view(result: Result<Mapping, MappingError>) -> Result<
    MappingView,
    MappingErrorView,
> {
    match result {
        Ok(mapping) => Ok(mapping@),
        Err(error) => Err(error@),
    }
}

/// Puts the wheel amount of a request into an action that turns the wheel.
pub fn apply_wheel_amount(action: Action, amount: Option<i32>) -> (adjusted: Action)
    ensures
        adjusted@ == with_wheel_amount(action@, amount),
{
    let mut adjusted = action;
    match (adjusted.primary, amount) {
        (PrimaryAction::MouseWheel { .. }, Some(notches)) => {
            adjusted.primary = PrimaryAction::MouseWheel { amount: notches };
        },
        _ => {},
    }
    adjusted
}

/// Makes the mapping that a request describes, with the given id, without
/// putting it into a table.
///
/// Fails with `MissingShortcutKey` where the request names no action
/// string, and with the parse error where the string is malformed.
pub fn create_mapping_from_config(config: &MappingUpdateConfig, id: u64) -> (result: Result<
    Mapping,
    MappingError,
>)
    ensures
        created_view(result) == create_spec(config@, id),
{
    match &config.composed_shortcut_key {
        None => Err(MappingError::MissingShortcutKey),
        Some(key) => match parse_composed_key_to_action(key.as_str()) {
            Err(error) => Err(MappingError::Parse(error)),
            Ok(action) => {
                let composed_button = match &config.composed_button {
                    Some(button) => button.clone(),
                    None => String::new(),
                };
                let check_mode = match config.check_mode {
                    Some(mode) => mode,
                    None => CheckMode::Single,
                };
                let check_mode_param = match config.check_mode_param {
                    Some(param) => param,
                    None => DEFAULT_CHECK_PARAM,
                };
                let trigger_theshold = match config.trigger_theshold {
                    Some(threshold) => threshold,
                    None => DEFAULT_TRIGGER_THRESHOLD,
                };
                let trigger_state = match config.trigger_state {
                    Some(state) => state,
                    None => TriggerState::default(),
                };
                Ok(
                    Mapping {
                        id,
                        composed_button,
                        composed_shortcut_key: key.clone(),
                        check_mode,
                        check_mode_param,
                        trigger_theshold,
                        action: apply_wheel_amount(action, config.amount),
                        trigger_state,
                        mapping_tag: None,
                    },
                )
            },
        },
    }
}

} // verus!
