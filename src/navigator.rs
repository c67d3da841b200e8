use vstd::prelude::*;

use crate::navigator_screens::{
    BluetoothScreen, ManageNetworksScreen, NetworkMessage, NetworkScreen, SettingsScreen,
};

verus! {

/// The screens of the application.
#[derive(Clone, Copy, Debug, PartialEq, Eq, Structural)]
pub enum Routes {
    Settings,
    Network,
    ManageNetworks,
    Bluetooth,
    Display,
}

/// A backend failure, with its description.
#[derive(Debug)]
pub struct CustomError(pub String);

pub enum Message {
    ChangeRoute(Routes),
    BackButtonPressed,
    NetworkToggled(bool),
    BluetoothToggled(bool),
    NetworkConnection(Result<bool, CustomError>),
}

/// Work the application hands to its host; the host answers with a message.
#[derive(Clone, Copy, Debug, PartialEq, Eq, Structural)]
pub enum Command {
    /// Read whether wireless is on; the answer comes back as
    /// `Message::NetworkConnection`.
    QueryWifiStatus,
}

/// The application: the stack of routes visited, whose top is shown, and the
/// screens, kept across navigation.
pub struct SettingsApp {
    navigated_routes: Vec<Routes>,
    settings_screen: SettingsScreen,
    network_screen: NetworkScreen,
    manage_networks_screen: ManageNetworksScreen,
    bluetooth_screen: BluetoothScreen,
}

impl SettingsApp {
    pub closed spec fn routes(&self) -> Seq<Routes> {
        self.navigated_routes@
    }

    pub closed spec fn network_connected(&self) -> bool {
        self.network_screen.connected()
    }

    pub closed spec fn bluetooth_connected(&self) -> bool {
        self.bluetooth_screen.connected()
    }

    /// One route is always active.
    pub open spec fn wf(&self) -> bool {
        self.routes().len() >= 1
    }

    /// Starts on the settings list and asks for the wireless status.
    pub fn new() -> (r: (SettingsApp, Command))
        ensures
            r.0.routes() == seq![Routes::Settings],
            !r.0.network_connected(),
            r.0.bluetooth_connected(),
            r.1 == Command::QueryWifiStatus,
    {
        let app = SettingsApp {
            navigated_routes: vec![Routes::Settings],
            settings_screen: SettingsScreen::new(),
            network_screen: NetworkScreen::new(),
            manage_networks_screen: ManageNetworksScreen::new(),
            bluetooth_screen: BluetoothScreen::new(),
        };
        assert(app.routes() =~= seq![Routes::Settings]);
        (app, Command::QueryWifiStatus)
    }

    /// The route shown: the last one visited.
    pub fn current_route(&self) -> (r: Routes)
        requires
            self.wf(),
        ensures
            r == self.routes().last(),
    {
        self.navigated_routes[self.navigated_routes.len() - 1]
    }

    pub fn routes_len(&self) -> (r: usize)
        ensures
            r == self.routes().len(),
    {
        self.navigated_routes.len()
    }

    pub fn network_is_connected(&self) -> (r: bool)
        ensures
            r == self.network_connected(),
    {
        self.network_screen.is_connected()
    }

    /// A route change pushes the route; the back button returns to the route
    /// visited before, and does nothing on the first one. A wireless status
    /// read from the backend sets the network switch; a failed read changes
    /// nothing, and neither does a flip of a switch.
    pub fn update(&mut self, message: Message)
        requires
            old(self).wf(),
        ensures
            final(self).wf(),
            final(self).bluetooth_connected() == old(self).bluetooth_connected(),
            match message {
                Message::ChangeRoute(route) => final(self).routes() == old(self).routes().push(route)
                    && final(self).network_connected() == old(self).network_connected(),
                Message::BackButtonPressed => final(self).routes() == (if old(self).routes().len()
                    > 1 {
                    old(self).routes().drop_last()
                } else {
                    old(self).routes()
                }) && final(self).network_connected() == old(self).network_connected(),
                Message::NetworkConnection(Ok(value)) => final(self).routes() == old(self).routes()
                    && final(self).network_connected() == value,
                _ => final(self).routes() == old(self).routes() && final(self).network_connected()
                    == old(self).network_connected(),
            },
    {
        match message {
            Message::ChangeRoute(route) => {
                self.navigated_routes.push(route);
            },
            Message::BackButtonPressed => {
                if self.navigated_routes.len() > 1 {
                    self.navigated_routes.pop();
                }
            },
            Message::NetworkToggled(_) => {},
            Message::BluetoothToggled(_) => {},
            Message::NetworkConnection(result) => match result {
                Ok(value) => {
                    self.network_screen.update(NetworkMessage::UpdateToggle(value));
                },
                Err(_) => {},
            },
        }
    }
}

} // verus!
