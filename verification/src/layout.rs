//! Button names as the user writes them, per controller family.

use vstd::prelude::*;
use crate::datas::ControllerButtons;
use crate::device::ControllerType;
use crate::text::str_eq;

verus! {

/// The table of button names of one controller family.
#[derive(Clone, Copy, Debug, PartialEq, Eq, Structural)]
pub enum ButtonLayout {
    Xbox,
    PlayStation,
    Switch,
    Other,
}

/// The button behind a name that all families share.
pub open spec fn shared_button(name: Seq<char>) -> Option<ControllerButtons> {
    if name == "LeftStick"@ {
        Some(ControllerButtons::LStick)
    } else if name == "RightStick"@ {
        Some(ControllerButtons::RStick)
    } else if name == "DPadUp"@ {
        Some(ControllerButtons::Up)
    } else if name == "DPadDown"@ {
        Some(ControllerButtons::Down)
    } else if name == "DPadLeft"@ {
        Some(ControllerButtons::Left)
    } else if name == "DPadRight"@ {
        Some(ControllerButtons::Right)
    } else {
        None
    }
}

/// The trigger behind a name; families with analog triggers share these.
pub open spec fn trigger_button(name: Seq<char>) -> Option<ControllerButtons> {
    if name == "RT"@ {
        Some(ControllerButtons::RT)
    } else if name == "LT"@ {
        Some(ControllerButtons::LT)
    } else {
        None
    }
}

/// The button behind a name on a controller of unknown family.
pub open spec fn other_button(name: Seq<char>) -> Option<ControllerButtons> {
    if name == "Y"@ {
        Some(ControllerButtons::North)
    } else if name == "X"@ {
        Some(ControllerButtons::West)
    } else if name == "A"@ {
        Some(ControllerButtons::South)
    } else if name == "B"@ {
        Some(ControllerButtons::East)
    } else if name == "RB"@ {
        Some(ControllerButtons::RB)
    } else if name == "LB"@ {
        Some(ControllerButtons::LB)
    } else if name == "Back"@ {
        Some(ControllerButtons::Back)
    } else if name == "Start"@ {
        Some(ControllerButtons::Start)
    } else if name == "Guide"@ {
        Some(ControllerButtons::Guide)
    } else {
        shared_button(name)
    }
}

/// The button behind a name on an Xbox controller.
pub open spec fn xbox_button(name: Seq<char>) -> Option<ControllerButtons> {
    if trigger_button(name) is Some {
        trigger_button(name)
    } else {
        other_button(name)
    }
}

/// The button behind a name on a PlayStation controller.
pub open spec fn playstation_button(name: Seq<char>) -> Option<ControllerButtons> {
    if name == "Triangle"@ {
        Some(ControllerButtons::North)
    } else if name == "Square"@ {
        Some(ControllerButtons::West)
    } else if name == "Cross"@ {
        Some(ControllerButtons::South)
    } else if name == "Circle"@ {
        Some(ControllerButtons::East)
    } else if name == "R1"@ {
        Some(ControllerButtons::RB)
    } else if name == "L1"@ {
        Some(ControllerButtons::LB)
    } else if name == "Share"@ {
        Some(ControllerButtons::Back)
    } else if name == "Options"@ {
        Some(ControllerButtons::Start)
    } else if name == "PS"@ {
        Some(ControllerButtons::Guide)
    } else if trigger_button(name) is Some {
        trigger_button(name)
    } else {
        shared_button(name)
    }
}

/// The button behind a name on a Switch controller. `A` and `B` stand
/// where `B` and `A` stand on an Xbox controller.
pub open spec fn switch_button(name: Seq<char>) -> Option<ControllerButtons> {
    if name == "Y"@ {
        Some(ControllerButtons::North)
    } else if name == "X"@ {
        Some(ControllerButtons::West)
    } else if name == "B"@ {
        Some(ControllerButtons::South)
    } else if name == "A"@ {
        Some(ControllerButtons::East)
    } else if name == "R"@ {
        Some(ControllerButtons::RB)
    } else if name == "L"@ {
        Some(ControllerButtons::LB)
    } else if name == "Minus"@ {
        Some(ControllerButtons::Back)
    } else if name == "Plus"@ {
        Some(ControllerButtons::Start)
    } else if name == "Home"@ {
        Some(ControllerButtons::Guide)
    } else if trigger_button(name) is Some {
        trigger_button(name)
    } else {
        shared_button(name)
    }
}

fn shared(name: &str) -> (button: Option<ControllerButtons>)
    ensures
        button == shared_button(name@),
{
    if str_eq(name, "LeftStick") {
        Some(ControllerButtons::LStick)
    } else if str_eq(name, "RightStick") {
        Some(ControllerButtons::RStick)
    } else if str_eq(name, "DPadUp") {
        Some(ControllerButtons::Up)
    } else if str_eq(name, "DPadDown") {
        Some(ControllerButtons::Down)
    } else if str_eq(name, "DPadLeft") {
        Some(ControllerButtons::Left)
    } else if str_eq(name, "DPadRight") {
        Some(ControllerButtons::Right)
    } else {
        None
    }
}

fn trigger(name: &str) -> (button: Option<ControllerButtons>)
    ensures
        button == trigger_button(name@),
{
    if str_eq(name, "RT") {
        Some(ControllerButtons::RT)
    } else if str_eq(name, "LT") {
        Some(ControllerButtons::LT)
    } else {
        None
    }
}

fn other(name: &str) -> (button: Option<ControllerButtons>)
    ensures
        button == other_button(name@),
{
    if str_eq(name, "Y") {
        Some(ControllerButtons::North)
    } else if str_eq(name, "X") {
        Some(ControllerButtons::West)
    } else if str_eq(name, "A") {
        Some(ControllerButtons::South)
    } else if str_eq(name, "B") {
        Some(ControllerButtons::East)
    } else if str_eq(name, "RB") {
        Some(ControllerButtons::RB)
    } else if str_eq(name, "LB") {
        Some(ControllerButtons::LB)
    } else if str_eq(name, "Back") {
        Some(ControllerButtons::Back)
    } else if str_eq(name, "Start") {
        Some(ControllerButtons::Start)
    } else if str_eq(name, "Guide") {
        Some(ControllerButtons::Guide)
    } else {
        shared(name)
    }
}

fn xbox(name: &str) -> (button: Option<ControllerButtons>)
    ensures
        button == xbox_button(name@),
{
    let found = trigger(name);
    if found.is_some() {
        found
    } else {
        other(name)
    }
}

fn playstation(name: &str) -> (button: Option<ControllerButtons>)
    ensures
        button == playstation_button(name@),
{
    if str_eq(name, "Triangle") {
        Some(ControllerButtons::North)
    } else if str_eq(name, "Square") {
        Some(ControllerButtons::West)
    } else if str_eq(name, "Cross") {
        Some(ControllerButtons::South)
    } else if str_eq(name, "Circle") {
        Some(ControllerButtons::East)
    } else if str_eq(name, "R1") {
        Some(ControllerButtons::RB)
    } else if str_eq(name, "L1") {
        Some(ControllerButtons::LB)
    } else if str_eq(name, "Share") {
        Some(ControllerButtons::Back)
    } else if str_eq(name, "Options") {
        Some(ControllerButtons::Start)
    } else if str_eq(name, "PS") {
        Some(ControllerButtons::Guide)
    } else {
        let found = trigger(name);
        if found.is_some() {
            found
        } else {
            shared(name)
        }
    }
}

fn switch(name: &str) -> (button: Option<ControllerButtons>)
    ensures
        button == switch_button(name@),
{
    if str_eq(name, "Y") {
        Some(ControllerButtons::North)
    } else if str_eq(name, "X") {
        Some(ControllerButtons::West)
    } else if str_eq(name, "B") {
        Some(ControllerButtons::South)
    } else if str_eq(name, "A") {
        Some(ControllerButtons::East)
    } else if str_eq(name, "R") {
        Some(ControllerButtons::RB)
    } else if str_eq(name, "L") {
        Some(ControllerButtons::LB)
    } else if str_eq(name, "Minus") {
        Some(ControllerButtons::Back)
    } else if str_eq(name, "Plus") {
        Some(ControllerButtons::Start)
    } else if str_eq(name, "Home") {
        Some(ControllerButtons::Guide)
    } else {
        let found = trigger(name);
        if found.is_some() {
            found
        } else {
            shared(name)
        }
    }
}

impl ButtonLayout {
    /// The button behind `name` in this layout.
    pub open spec fn get_spec(self, name: Seq<char>) -> Option<ControllerButtons> {
        match self {
            ButtonLayout::Xbox => xbox_button(name),
            ButtonLayout::PlayStation => playstation_button(name),
            ButtonLayout::Switch => switch_button(name),
            ButtonLayout::Other => other_button(name),
        }
    }

    /// Looks up the button behind `name`. Names are matched letter for
    /// letter.
    pub fn get(&self, name: &str) -> (button: Option<ControllerButtons>)
        ensures
            button == self.get_spec(name@),
    {
        match self {
            ButtonLayout::Xbox => xbox(name),
            ButtonLayout::PlayStation => playstation(name),
            ButtonLayout::Switch => switch(name),
            ButtonLayout::Other => other(name),
        }
    }
}

/// The layout of the Xbox family.
pub fn create_xbox_layout_map() -> (layout: ButtonLayout)
    ensures
        layout == ButtonLayout::Xbox,
{
    ButtonLayout::Xbox
}

/// The layout of the PlayStation family.
pub fn create_playstation_layout_map() -> (layout: ButtonLayout)
    ensures
        layout == ButtonLayout::PlayStation,
{
    ButtonLayout::PlayStation
}

/// The layout of controllers of unknown family.
pub fn create_other_layout_map() -> (layout: ButtonLayout)
    ensures
        layout == ButtonLayout::Other,
{
    ButtonLayout::Other
}

/// The layout of the Switch family.
pub fn create_switch_layout_map() -> (layout: ButtonLayout)
    ensures
        layout == ButtonLayout::Switch,
{
    ButtonLayout::Switch
}

/// The layout that goes with a controller type. A type without a layout of
/// its own uses that of the unknown family.
pub open spec fn layout_of(controller_type: ControllerType) -> ButtonLayout {
    match controller_type {
        ControllerType::Xbox => ButtonLayout::Xbox,
        ControllerType::PlayStation => ButtonLayout::PlayStation,
        ControllerType::Switch => ButtonLayout::Switch,
        _ => ButtonLayout::Other,
    }
}

/// The layout for the controller type of the device in use.
pub fn get_current_controller_layout_map(controller_type: ControllerType) -> (layout: ButtonLayout)
    ensures
        layout == layout_of(controller_type),
{
    match controller_type {
        ControllerType::Xbox => create_xbox_layout_map(),
        ControllerType::PlayStation => create_playstation_layout_map(),
        ControllerType::Switch => create_switch_layout_map(),
        _ => create_other_layout_map(),
    }
}

} // verus!
