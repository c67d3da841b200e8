use vstd::prelude::*;

use crate::gui::{Message, Routes};

verus! {

#[derive(Clone, Copy, Debug, PartialEq, Eq, Structural)]
pub enum IconType {
    Png,
    Svg,
}

/// Whether a row of the settings list is hovered and whether it is held down.
#[derive(Clone, Copy, Debug, PartialEq, Eq, Structural)]
pub struct SettingsRowState {
    pub hover: bool,
    pub pressed: bool,
}

/// What a row of the settings list shows, and the message a click emits.
pub struct SettingsRowParams {
    pub title: String,
    pub value: String,
    pub icon_1: String,
    pub icon_1_type: IconType,
    pub icon_2: String,
    pub on_click: Option<Message>,
}

/// A row of the settings list.
#[derive(Debug)]
pub struct SettingsRowComponent {
    pub title: String,
    pub value: String,
    pub icon_1: String,
    pub icon_1_type: IconType,
    pub icon_2: String,
    pub on_click: Option<Message>,
    pub state: SettingsRowState,
}

impl SettingsRowComponent {
    pub fn new(params: SettingsRowParams) -> (r: SettingsRowComponent)
        ensures
            r.title == params.title,
            r.value == params.value,
            r.icon_1 == params.icon_1,
            r.icon_1_type == params.icon_1_type,
            r.icon_2 == params.icon_2,
            r.on_click == params.on_click,
            r.state == (SettingsRowState { hover: false, pressed: false }),
    {
        SettingsRowComponent {
            title: params.title,
            value: params.value,
            icon_1: params.icon_1,
            icon_1_type: params.icon_1_type,
            icon_2: params.icon_2,
            on_click: params.on_click,
            state: SettingsRowState { hover: false, pressed: false },
        }
    }

    /// A click presses the row and emits its message, if it has one.
    pub fn on_click(&mut self) -> (r: Option<Message>)
        ensures
            r == old(self).on_click,
            final(self).state == (SettingsRowState { pressed: true, ..old(self).state }),
            final(self).title == old(self).title,
            final(self).value == old(self).value,
            final(self).on_click == old(self).on_click,
    {
        self.state.pressed = true;
        self.on_click
    }

    pub fn on_mouse_down(&mut self)
        ensures
            final(self).state == (SettingsRowState { pressed: true, ..old(self).state }),
            final(self).on_click == old(self).on_click,
    {
        self.state.pressed = true;
    }

    pub fn on_mouse_up(&mut self)
        ensures
            final(self).state == (SettingsRowState { pressed: false, ..old(self).state }),
            final(self).on_click == old(self).on_click,
    {
        self.state.pressed = false;
    }

    pub fn on_touch_down(&mut self)
        ensures
            final(self).state == (SettingsRowState { pressed: true, ..old(self).state }),
            final(self).on_click == old(self).on_click,
    {
        self.state.pressed = true;
    }

    pub fn on_touch_up(&mut self)
        ensures
            final(self).state == (SettingsRowState { pressed: false, ..old(self).state }),
            final(self).on_click == old(self).on_click,
    {
        self.state.pressed = false;
    }
}

/// An entry of the settings list: its label, its icon, and where it leads.
pub struct SettingsItem {
    pub name: String,
    pub icon: String,
    pub on_click: Routes,
}

/// The settings list, the first screen of the application.
pub struct SettingsScreen {}

impl SettingsScreen {
    pub fn new() -> (r: SettingsScreen) {
        SettingsScreen {  }
    }
}

/// The list of wireless networks in range.
pub struct AvailableNetworksScreen {
    pub available_networks_list: Vec<String>,
}

} // verus!
