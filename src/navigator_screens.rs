use vstd::prelude::*;

use crate::navigator::Message;

verus! {

#[derive(Clone, Copy, Debug, PartialEq, Eq, Structural)]
pub enum BluetoothMessage {
    BluetoothToggled(bool),
}

/// The Bluetooth screen: whether its switch is on.
#[derive(Clone, Copy, Debug, PartialEq, Eq, Structural)]
pub struct BluetoothScreen {
    is_connected: bool,
}

impl BluetoothScreen {
    pub closed spec fn connected(&self) -> bool {
        self.is_connected
    }

    pub fn new() -> (r: BluetoothScreen)
        ensures
            r.connected(),
    {
        BluetoothScreen { is_connected: true }
    }

    pub fn is_connected(&self) -> (r: bool)
        ensures
            r == self.connected(),
    {
        self.is_connected
    }

    pub fn update(&mut self, message: BluetoothMessage)
        ensures
            match message {
                BluetoothMessage::BluetoothToggled(value) => final(self).connected() == value,
            },
    {
        match message {
            BluetoothMessage::BluetoothToggled(value) => self.is_connected = value,
        }
    }
}

/// Network screen messages: the switch was flipped by the user, or the
/// wireless status was read from the backend.
#[derive(Clone, Copy, Debug, PartialEq, Eq, Structural)]
pub enum NetworkMessage {
    UpdateToggle(bool),
    NetworkToggled(bool),
}

/// The network screen: whether its wireless switch is on.
#[derive(Clone, Copy, Debug, PartialEq, Eq, Structural)]
pub struct NetworkScreen {
    is_connected: bool,
}

impl NetworkScreen {
    pub closed spec fn connected(&self) -> bool {
        self.is_connected
    }

    pub fn new() -> (r: NetworkScreen)
        ensures
            !r.connected(),
    {
        NetworkScreen { is_connected: false }
    }

    pub fn is_connected(&self) -> (r: bool)
        ensures
            r == self.connected(),
    {
        self.is_connected
    }

    pub fn update(&mut self, message: NetworkMessage)
        ensures
            final(self).connected() == match message {
                NetworkMessage::UpdateToggle(value) => value,
                NetworkMessage::NetworkToggled(value) => value,
            },
    {
        match message {
            NetworkMessage::NetworkToggled(value) => self.is_connected = value,
            NetworkMessage::UpdateToggle(value) => self.is_connected = value,
        }
    }
}

/// Messages of the manage-networks screen. It holds no list of its own yet,
/// so a refresh leaves it as it is.
#[derive(Clone, Copy, Debug, PartialEq, Eq, Structural)]
pub enum ManageNetworksMessage {
    Refresh,
}

#[derive(Clone, Copy, Debug, PartialEq, Eq, Structural)]
pub struct ManageNetworksScreen {}

impl ManageNetworksScreen {
    pub fn new() -> (r: ManageNetworksScreen) {
        ManageNetworksScreen {  }
    }

    pub fn update(&mut self, message: ManageNetworksMessage)
        ensures
            *final(self) == *old(self),
    {
        match message {
            ManageNetworksMessage::Refresh => {},
        }
    }
}

/// The settings list: it holds no state, and messages leave it as it is.
#[derive(Clone, Copy, Debug, PartialEq, Eq, Structural)]
pub struct SettingsScreen {}

impl SettingsScreen {
    pub fn new() -> (r: SettingsScreen) {
        SettingsScreen {  }
    }

    pub fn update(&mut self, message: &Message)
        ensures
            *final(self) == *old(self),
    {
    }
}

} // verus!
