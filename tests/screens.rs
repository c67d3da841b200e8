use settings_app::gui::{Message, NetworkMessage, NetworkScreenRoutes, Routes, SettingsApp, WirelessMessage};
use settings_app::navigator::{self, Command, CustomError};
use settings_app::navigator_screens::{
    BluetoothMessage, BluetoothScreen, ManageNetworksMessage, ManageNetworksScreen, NetworkMessage as NavNetworkMessage,
    NetworkScreen, SettingsScreen,
};
use settings_app::network_details::{InterfaceAddresses, IpEntry, NetworkDetails, NetworkDetailsMessage};
use settings_app::settings_menu::{IconType, SettingsRowComponent, SettingsRowParams};
use settings_app::sound_screen::{SoundScreen, SoundScreenRoute};

fn iface(name: &str, addrs: &[(bool, &str)]) -> InterfaceAddresses {
    InterfaceAddresses {
        name: name.to_string(),
        addresses: addrs
            .iter()
            .map(|(v4, a)| IpEntry { is_ipv4: *v4, address: a.to_string() })
            .collect(),
    }
}

#[test]
fn app_route_change() {
    let mut app = SettingsApp::new();
    assert_eq!(app.current_route(), Routes::SettingsList);
    let route = Routes::Network { screen: NetworkScreenRoutes::ManageNetworksScreen };
    app.update(&Message::ChangeRoute { route });
    assert_eq!(app.current_route(), route);
    app.update(&Message::ChangeSoundScreenRoute { route: SoundScreenRoute::SelectInputDevice });
    assert_eq!(app.current_route(), route);
    app.init();
    assert_eq!(app.current_route(), Routes::default());
}

#[test]
fn app_network_messages() {
    let mut app = SettingsApp::new();
    assert_eq!(app.update_network(NetworkMessage::WirelessStatus { status: true }), None);
    assert!(app.wireless_status());
    app.update_network(NetworkMessage::ConnectedNetworkName { name: "home".to_string() });
    assert_eq!(app.connected_network_name(), "home");
    assert_eq!(app.update_network(NetworkMessage::Toggle(false)), None);
    app.root(true);
    assert_eq!(
        app.update_network(NetworkMessage::Toggle(false)),
        Some(WirelessMessage::Toggle { value: Some(false) })
    );
    assert!(app.wireless_status());
}

#[test]
fn sound_screen_routes() {
    let mut s = SoundScreen::new();
    assert_eq!(s.route(), SoundScreenRoute::SoundScreen);
    s.update(&Message::ChangeSoundScreenRoute { route: SoundScreenRoute::SelectOutputDevice });
    assert_eq!(s.route(), SoundScreenRoute::SelectOutputDevice);
    s.update(&Message::ChangeRoute { route: Routes::SoundScreen });
    assert_eq!(s.route(), SoundScreenRoute::SelectOutputDevice);
    s.init();
    assert_eq!(s.route(), SoundScreenRoute::SoundScreen);
}

#[test]
fn network_details_dialog() {
    let mut d = NetworkDetails::new();
    assert!(!d.is_model_open());
    d.update(NetworkDetailsMessage::OpenModel(true));
    assert!(d.is_model_open());
    d.update(NetworkDetailsMessage::ForgetNetwork);
    assert!(!d.is_model_open());
}

#[test]
fn ip_address_of_first_wireless_interface() {
    let list = vec![
        iface("eth0", &[(true, "10.0.0.2")]),
        iface("wlan0", &[(false, "fe80::1")]),
        iface("wlp2s0", &[(false, "fe80::2"), (true, "192.168.1.7"), (true, "192.168.1.8")]),
        iface("wlan1", &[(true, "172.16.0.1")]),
    ];
    assert_eq!(NetworkDetails::get_ip_address(&list), Some("192.168.1.7".to_string()));
}

#[test]
fn ip_address_absent() {
    assert_eq!(NetworkDetails::get_ip_address(&vec![]), None);
    let list = vec![iface("w", &[(true, "1.2.3.4")]), iface("lo", &[(true, "127.0.0.1")])];
    assert_eq!(NetworkDetails::get_ip_address(&list), None);
}

#[test]
fn settings_row_press_and_click() {
    let mut row = SettingsRowComponent::new(SettingsRowParams {
        title: "Network".to_string(),
        value: "home".to_string(),
        icon_1: "wireless_good".to_string(),
        icon_1_type: IconType::Png,
        icon_2: String::new(),
        on_click: Some(Message::ChangeRoute { route: Routes::BluetoothScreen }),
    });
    assert!(!row.state.pressed);
    row.on_mouse_down();
    assert!(row.state.pressed);
    row.on_mouse_up();
    assert!(!row.state.pressed);
    row.on_touch_down();
    assert!(row.state.pressed);
    row.on_touch_up();
    assert!(!row.state.pressed);
    assert_eq!(row.on_click(), Some(Message::ChangeRoute { route: Routes::BluetoothScreen }));
    assert!(row.state.pressed);
    assert!(!row.state.hover);
}

#[test]
fn navigator_stack() {
    let (mut app, cmd) = navigator::SettingsApp::new();
    assert_eq!(cmd, Command::QueryWifiStatus);
    assert_eq!(app.current_route(), navigator::Routes::Settings);
    app.update(navigator::Message::ChangeRoute(navigator::Routes::Network));
    app.update(navigator::Message::ChangeRoute(navigator::Routes::ManageNetworks));
    assert_eq!(app.current_route(), navigator::Routes::ManageNetworks);
    app.update(navigator::Message::BackButtonPressed);
    assert_eq!(app.current_route(), navigator::Routes::Network);
    app.update(navigator::Message::BackButtonPressed);
    app.update(navigator::Message::BackButtonPressed);
    assert_eq!(app.routes_len(), 1);
    assert_eq!(app.current_route(), navigator::Routes::Settings);
}

#[test]
fn navigator_wifi_status() {
    let (mut app, _) = navigator::SettingsApp::new();
    assert!(!app.network_is_connected());
    app.update(navigator::Message::NetworkConnection(Ok(true)));
    assert!(app.network_is_connected());
    app.update(navigator::Message::NetworkConnection(Err(CustomError("no bus".to_string()))));
    assert!(app.network_is_connected());
    app.update(navigator::Message::NetworkToggled(false));
    app.update(navigator::Message::BluetoothToggled(false));
    assert!(app.network_is_connected());
}

#[test]
fn navigator_screens() {
    let mut b = BluetoothScreen::new();
    assert!(b.is_connected());
    b.update(BluetoothMessage::BluetoothToggled(false));
    assert!(!b.is_connected());
    let mut n = NetworkScreen::new();
    assert!(!n.is_connected());
    n.update(NavNetworkMessage::NetworkToggled(true));
    assert!(n.is_connected());
    n.update(NavNetworkMessage::UpdateToggle(false));
    assert!(!n.is_connected());
    let mut m = ManageNetworksScreen::new();
    m.update(ManageNetworksMessage::Refresh);
    assert_eq!(m, ManageNetworksScreen::new());
    let mut s = SettingsScreen::new();
    s.update(&navigator::Message::BackButtonPressed);
    assert_eq!(s, SettingsScreen::new());
}
