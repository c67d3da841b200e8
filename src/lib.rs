use vstd::prelude::*;

pub mod async_handler;
pub mod bluetooth_screen;
pub mod delivery;
pub mod gui;
pub mod navigator;
pub mod navigator_screens;
pub mod network_details;
pub mod settings_menu;
pub mod sound_screen;

verus! {

} // verus!
