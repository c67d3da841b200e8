use vstd::prelude::*;

use crate::gui::Message;

verus! {

/// The panes of the sound screen.
#[derive(Clone, Copy, Debug, PartialEq, Eq, Structural)]
pub enum SoundScreenRoute {
    SoundScreen,
    SelectOutputDevice,
    SelectInputDevice,
}

pub struct SoundScreenState {
    pub route: SoundScreenRoute,
}

pub struct SoundScreen {
    pub state: SoundScreenState,
}

impl SoundScreen {
    pub fn new() -> (r: SoundScreen)
        ensures
            r.state.route == SoundScreenRoute::SoundScreen,
    {
        SoundScreen { state: SoundScreenState { route: SoundScreenRoute::SoundScreen } }
    }

    /// Entering the screen always shows its main pane.
    pub fn init(&mut self)
        ensures
            final(self).state.route == SoundScreenRoute::SoundScreen,
    {
        self.state.route = SoundScreenRoute::SoundScreen;
    }

    pub fn route(&self) -> (r: SoundScreenRoute)
        ensures
            r == self.state.route,
    {
        self.state.route
    }

    /// Follows a request to switch panes; other messages leave the screen as it is.
    pub fn update(&mut self, message: &Message)
        ensures
            match *message {
                Message::ChangeSoundScreenRoute { route } => final(self).state.route == route,
                _ => final(self).state.route == old(self).state.route,
            },
    {
        match message {
            Message::ChangeSoundScreenRoute { route } => {
                self.state.route = *route;
            },
            _ => {},
        }
    }
}

} // verus!
