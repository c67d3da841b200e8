use vstd::prelude::*;

use crate::sound_screen::SoundScreenRoute;

verus! {

/// The panes reachable from the network entry of the settings list.
#[derive(Clone, Copy, Debug, PartialEq, Eq, Structural)]
pub enum NetworkScreenRoutes {
    NetworkScreen,
    NetworkDetailsScreen,
    ManageNetworksScreen,
    AvailableNetworksScreen,
    ConnectNetworkEnterCode,
}

/// The screen that is shown: exactly one at a time.
#[derive(Clone, Copy, Debug, PartialEq, Eq, Structural)]
pub enum Routes {
    SettingsList,
    Network { screen: NetworkScreenRoutes },
    BluetoothScreen,
    BluetoothPairingVerifyCode,
    BluetoothPairingEnterCode,
    BluetoothDeviceInfo,
    ScreenOffTime,
    DisplayScreen,
    AppearanceScreen,
    BatteryScreen,
    PerformanceModes,
    SoundScreen,
    LockScreen,
    LanguageScreen,
    LanguageSelect,
}

impl Default for Routes {
    fn default() -> (r: Routes)
        ensures
            r == Routes::SettingsList,
    {
        Routes::SettingsList
    }
}

/// Navigation messages.
#[derive(Clone, Copy, Debug, PartialEq, Eq, Structural)]
pub enum Message {
    ChangeRoute { route: Routes },
    ChangeSoundScreenRoute { route: SoundScreenRoute },
}

/// What the wireless backend reported, or a request to switch wireless on or off.
pub enum NetworkMessage {
    WirelessStatus { status: bool },
    ConnectedNetworkName { name: String },
    AvailableNetworksList { list: Vec<String> },
    KnownNetworksList { list: Vec<String> },
    Toggle(bool),
}

/// A command for the wireless service, sent through the application channel.
#[derive(Clone, Copy, Debug, PartialEq, Eq, Structural)]
pub enum WirelessMessage {
    Toggle { value: Option<bool> },
}

pub struct SettingsAppState {
    current_route: Routes,
    connected_network_name: String,
    available_networks_list: Vec<String>,
    known_networks_list: Vec<String>,
    wireless_status: bool,
    has_app_channel: bool,
}

pub ghost struct SettingsAppModel {
    pub current_route: Routes,
    pub connected_network_name: Seq<char>,
    pub available_networks_list: Seq<Seq<char>>,
    pub known_networks_list: Seq<Seq<char>>,
    pub wireless_status: bool,
    pub has_app_channel: bool,
}

impl View for SettingsAppState {
    type V = SettingsAppModel;

    closed spec fn view(&self) -> SettingsAppModel {
        SettingsAppModel {
            current_route: self.current_route,
            connected_network_name: self.connected_network_name@,
            available_networks_list: self.available_networks_list@.map_values(|s: String| s@),
            known_networks_list: self.known_networks_list@.map_values(|s: String| s@),
            wireless_status: self.wireless_status,
            has_app_channel: self.has_app_channel,
        }
    }
}

impl SettingsAppState {
    pub open spec fn initial(m: SettingsAppModel) -> bool {
        &&& m.current_route == Routes::SettingsList
        &&& m.connected_network_name.len() == 0
        &&& m.available_networks_list.len() == 0
        &&& m.known_networks_list.len() == 0
        &&& !m.wireless_status
        &&& !m.has_app_channel
    }

    pub fn new() -> (r: SettingsAppState)
        ensures
            Self::initial(r@),
    {
        let r = SettingsAppState {
            current_route: Routes::SettingsList,
            connected_network_name: String::new(),
            available_networks_list: Vec::new(),
            known_networks_list: Vec::new(),
            wireless_status: false,
            has_app_channel: false,
        };
        assert(r@.available_networks_list =~= Seq::<Seq<char>>::empty());
        assert(r@.known_networks_list =~= Seq::<Seq<char>>::empty());
        r
    }
}

/// The application shell: the active route and what the wireless backend
/// last reported.
pub struct SettingsApp {
    state: SettingsAppState,
}

impl View for SettingsApp {
    type V = SettingsAppModel;

    closed spec fn view(&self) -> SettingsAppModel {
        self.state@
    }
}

impl SettingsApp {
    pub fn new() -> (r: SettingsApp)
        ensures
            SettingsAppState::initial(r@),
    {
        SettingsApp { state: SettingsAppState::new() }
    }

    /// Starts over from the settings list, with nothing known of the network.
    pub fn init(&mut self)
        ensures
            SettingsAppState::initial(final(self)@),
    {
        self.state = SettingsAppState::new();
    }

    /// Records whether the application channel to the backend services is there.
    pub fn root(&mut self, has_app_channel: bool)
        ensures
            final(self)@ == (SettingsAppModel { has_app_channel, ..old(self)@ }),
    {
        self.state.has_app_channel = has_app_channel;
    }

    pub fn current_route(&self) -> (r: Routes)
        ensures
            r == self@.current_route,
    {
        self.state.current_route
    }

    pub fn wireless_status(&self) -> (r: bool)
        ensures
            r == self@.wireless_status,
    {
        self.state.wireless_status
    }

    pub fn connected_network_name(&self) -> (r: &String)
        ensures
            r@ == self@.connected_network_name,
    {
        &self.state.connected_network_name
    }

    /// Navigation: a route change makes the new route the only active one.
    pub fn update(&mut self, message: &Message)
        ensures
            match *message {
                Message::ChangeRoute { route } => final(self)@ == (SettingsAppModel {
                    current_route: route,
                    ..old(self)@
                }),
                _ => final(self)@ == old(self)@,
            },
    {
        match message {
            Message::ChangeRoute { route } => {
                self.state.current_route = *route;
            },
            _ => {},
        }
    }

    /// Stores what the wireless backend reported. A toggle request changes no
    /// state here: it becomes a command for the wireless service when the
    /// application channel is there.
    pub fn update_network(&mut self, message: NetworkMessage) -> (r: Option<WirelessMessage>)
        ensures
            match message {
                NetworkMessage::WirelessStatus { status } => final(self)@ == (SettingsAppModel {
                    wireless_status: status,
                    ..old(self)@
                }) && r is None,
                NetworkMessage::ConnectedNetworkName { name } => final(self)@ == (SettingsAppModel {
                    connected_network_name: name@,
                    ..old(self)@
                }) && r is None,
                NetworkMessage::AvailableNetworksList { list } => final(self)@ == (SettingsAppModel {
                    available_networks_list: list@.map_values(|s: String| s@),
                    ..old(self)@
                }) && r is None,
                NetworkMessage::KnownNetworksList { list } => final(self)@ == (SettingsAppModel {
                    known_networks_list: list@.map_values(|s: String| s@),
                    ..old(self)@
                }) && r is None,
                NetworkMessage::Toggle(value) => final(self)@ == old(self)@ && r == (if old(
                    self,
                )@.has_app_channel {
                    Some(WirelessMessage::Toggle { value: Some(value) })
                } else {
                    None
                }),
            },
    {
        match message {
            NetworkMessage::WirelessStatus { status } => {
                self.state.wireless_status = status;
                None
            },
            NetworkMessage::ConnectedNetworkName { name } => {
                self.state.connected_network_name = name;
                None
            },
            NetworkMessage::AvailableNetworksList { list } => {
                self.state.available_networks_list = list;
                None
            },
            NetworkMessage::KnownNetworksList { list } => {
                self.state.known_networks_list = list;
                None
            },
            NetworkMessage::Toggle(value) => {
                if self.state.has_app_channel {
                    Some(WirelessMessage::Toggle { value: Some(value) })
                } else {
                    None
                }
            },
        }
    }
}

} // verus!
