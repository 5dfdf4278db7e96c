use netctl::device::{Device, DeviceCapabilities, DeviceState, DeviceType};
use netctl::error::NetctlError;
use netctl::events::Signal;
use netctl::integration::{CRDbusService, SCAN_GRACE_SECS};
use netctl::network_control::CRNetworkControl;
use netctl::types::{
    CRAccessPointInfo, CRConnectivity, CRDeviceInfo, CRDeviceState, CRDeviceType, CRNetworkState,
    CRVpnInfo, CRVpnState, CRVpnType, CRWiFiMode, CRWiFiSecurity,
};
use netctl::vpn::CRVPN;
use netctl::wifi::{
    translate_scan_results, CRWiFi, WpaScanResult, WpaSecurityType, WpaState, WpaStatus,
};

fn device(name: &str, addresses: &[&str], flags: &[&str]) -> Device {
    Device {
        name: name.to_string(),
        index: None,
        device_type: DeviceType::Unknown,
        state: DeviceState::Unknown,
        mac_address: Some("aa:bb:cc:00:00:01".to_string()),
        mtu: Some(1400),
        addresses: addresses.iter().map(|s| s.to_string()).collect(),
        driver: None,
        vendor: None,
        model: None,
        bus_info: None,
        capabilities: DeviceCapabilities::default(),
        flags: flags.iter().map(|s| s.to_string()).collect(),
        stats: None,
        parent: None,
        children: vec![],
    }
}

fn result(ssid: &str, percent: u8, security: WpaSecurityType) -> WpaScanResult {
    WpaScanResult {
        ssid: ssid.to_string(),
        bssid: "00:11:22:33:44:55".to_string(),
        frequency: 2412,
        signal_percent: percent,
        security_type: security,
    }
}

#[test]
fn shown_kind_goes_by_name() {
    let cases = [
        ("wlan0", CRDeviceType::WiFi),
        ("wlp2s0", CRDeviceType::WiFi),
        ("wl", CRDeviceType::WiFi),
        ("eth0", CRDeviceType::Ethernet),
        ("enp3s0", CRDeviceType::Ethernet),
        ("lo", CRDeviceType::Loopback),
        ("br0", CRDeviceType::Bridge),
        ("br-lan", CRDeviceType::Bridge),
        ("tun0", CRDeviceType::TunTap),
        ("tap0", CRDeviceType::TunTap),
        ("myvlan7", CRDeviceType::Vlan),
        ("vlan7", CRDeviceType::Vlan),
        ("wg0", CRDeviceType::Vpn),
        ("bt0", CRDeviceType::Bluetooth),
        ("bnep0", CRDeviceType::Bluetooth),
        ("docker0", CRDeviceType::Unknown),
        ("lo0", CRDeviceType::Unknown),
        ("", CRDeviceType::Unknown),
    ];
    for (name, kind) in cases {
        assert_eq!(CRDbusService::map_device_type(&device(name, &[], &[])), kind, "{}", name);
    }
}

#[test]
fn discovered_devices_are_shown_and_announced() {
    let mut nc = CRNetworkControl::new();
    let found = vec![
        device("eth0", &["fe80::1", "10.0.0.5", "10.0.0.6", "fd00::2"], &["BROADCAST", "UP"]),
        device("wlan0", &[], &["BROADCAST"]),
    ];
    let signals = CRDbusService::discover_devices(&mut nc, &found);
    assert_eq!(signals.len(), 2);
    match &signals[0] {
        Signal::DeviceAdded { path } => assert_eq!(path, "/org/crrouter/NetworkControl/Devices/eth0"),
        other => panic!("unexpected: {:?}", other),
    }
    match &signals[1] {
        Signal::DeviceAdded { path } => assert_eq!(path, "/org/crrouter/NetworkControl/Devices/wlan0"),
        other => panic!("unexpected: {:?}", other),
    }
    let eth = nc.get_device("/org/crrouter/NetworkControl/Devices/eth0").unwrap();
    assert_eq!(eth.device_type, CRDeviceType::Ethernet);
    assert_eq!(eth.state, CRDeviceState::Activated);
    assert_eq!(eth.ipv4_address.as_deref(), Some("10.0.0.5"));
    assert_eq!(eth.ipv6_address.as_deref(), Some("fe80::1"));
    assert_eq!(eth.hw_address.as_deref(), Some("aa:bb:cc:00:00:01"));
    assert_eq!(eth.mtu, 1400);
    let wlan = nc.get_device("/org/crrouter/NetworkControl/Devices/wlan0").unwrap();
    assert_eq!(wlan.device_type, CRDeviceType::WiFi);
    assert_eq!(wlan.state, CRDeviceState::Disconnected);
    assert_eq!(wlan.ipv4_address, None);
    assert_eq!(wlan.ipv6_address, None);

    let mut bare = device("eth0", &[], &[]);
    bare.mtu = None;
    bare.mac_address = None;
    let shown = CRDbusService::describe_for_clients(&bare);
    assert_eq!(shown.mtu, 1500);
    assert_eq!(shown.hw_address, None);
    assert!(CRDbusService::discover_devices(&mut nc, &vec![]).is_empty());
    assert_eq!(nc.list_devices().len(), 2);
}

#[test]
fn states_are_updated_and_announced() {
    let mut nc = CRNetworkControl::new();
    nc.add_device(CRDeviceInfo::new("eth0".to_string(), CRDeviceType::Ethernet));
    match CRDbusService::update_device_state(&mut nc, "eth0", CRDeviceState::Failed).unwrap() {
        Signal::DeviceStateChanged { path, state } => {
            assert_eq!(path, "/org/crrouter/NetworkControl/Devices/eth0");
            assert_eq!(state, CRDeviceState::Failed);
        }
        other => panic!("unexpected: {:?}", other),
    }
    let e = CRDbusService::update_device_state(&mut nc, "eth1", CRDeviceState::Failed).unwrap_err();
    assert!(matches!(e, NetctlError::NotFound(_)));
    assert_eq!(e.message(), "Device /org/crrouter/NetworkControl/Devices/eth1 not found");

    assert!(matches!(
        CRDbusService::update_network_state(&mut nc, CRNetworkState::Connecting),
        Signal::StateChanged { network_state: CRNetworkState::Connecting }
    ));
    assert_eq!(nc.get_network_state(), CRNetworkState::Connecting);
    assert!(matches!(
        CRDbusService::update_connectivity(&mut nc, CRConnectivity::Limited),
        Signal::ConnectivityChanged { connectivity: CRConnectivity::Limited }
    ));
    assert_eq!(nc.get_connectivity(), CRConnectivity::Limited);

    let mut vpn = CRVPN::new();
    match CRDbusService::add_vpn_connection(&mut vpn, CRVpnInfo::new("v".to_string(), CRVpnType::OpenVpn)) {
        Signal::VpnConnectionAdded { name, vpn_type } => {
            assert_eq!(name, "v");
            assert_eq!(vpn_type, CRVpnType::OpenVpn);
        }
        other => panic!("unexpected: {:?}", other),
    }
    match CRDbusService::update_vpn_state(&mut vpn, "v", CRVpnState::Connecting).unwrap() {
        Signal::VpnStateChanged { name, vpn_state } => {
            assert_eq!(name, "v");
            assert_eq!(vpn_state, CRVpnState::Connecting);
        }
        other => panic!("unexpected: {:?}", other),
    }
    assert!(matches!(
        CRDbusService::update_vpn_state(&mut vpn, "w", CRVpnState::Connecting),
        Err(NetctlError::NotFound(_))
    ));
}

#[test]
fn wifi_interface_is_settled_once() {
    let mut service = CRDbusService::start();
    assert!(service.is_running());
    assert_eq!(service.cached_wifi_interface(), None);
    let none = vec![device("eth0", &[], &[])];
    let e = service.get_wifi_interface(&none).unwrap_err();
    assert!(matches!(e, NetctlError::NotFound(_)));
    assert_eq!(e.message(), "No WiFi interface found");
    assert_eq!(service.cached_wifi_interface(), None);

    let some = vec![device("eth0", &[], &[]), device("wlp2s0", &[], &[]), device("wlan0", &[], &[])];
    assert_eq!(service.get_wifi_interface(&some).unwrap(), "wlp2s0");
    assert_eq!(service.cached_wifi_interface().as_deref(), Some("wlp2s0"));
    // Once settled, the devices are not looked at again.
    assert_eq!(service.get_wifi_interface(&none).unwrap(), "wlp2s0");
    service.set_wifi_interface("wlan1".to_string());
    assert_eq!(service.get_wifi_interface(&some).unwrap(), "wlan1");
    assert!(service.stop().is_ok());
    assert!(!service.is_running());
}

#[test]
fn scan_replaces_the_access_points() {
    assert_eq!(SCAN_GRACE_SECS, 3);
    let mut wifi = CRWiFi::new();
    assert!(!wifi.is_scanning());
    CRDbusService::wifi_scan_begin(&mut wifi);
    assert!(wifi.is_scanning());
    let found = vec![
        result("home", 80, WpaSecurityType::Wpa2Psk),
        result("cafe", 30, WpaSecurityType::Open),
        result("corp", 55, WpaSecurityType::Wpa2Eap),
    ];
    let signal = CRDbusService::wifi_scan(&mut wifi, Ok(found)).unwrap();
    assert!(matches!(signal, Signal::ScanCompleted));
    assert!(!wifi.is_scanning());
    let aps = wifi.get_access_points();
    assert_eq!(aps.len(), 3);
    assert_eq!(aps[0].ssid, "home");
    assert_eq!(aps[0].bssid, "00:11:22:33:44:55");
    assert_eq!(aps[0].strength, 80);
    assert_eq!(aps[0].security, CRWiFiSecurity::Wpa2);
    assert_eq!(aps[0].frequency, 2412);
    assert_eq!(aps[0].mode, CRWiFiMode::Infrastructure);
    assert_eq!(aps[1].security, CRWiFiSecurity::Open);
    assert_eq!(aps[2].security, CRWiFiSecurity::Enterprise);

    // A scan that finds nothing leaves nothing behind.
    CRDbusService::wifi_scan_begin(&mut wifi);
    assert_eq!(wifi.get_access_points().len(), 3);
    assert!(CRDbusService::wifi_scan(&mut wifi, Ok(vec![])).is_ok());
    assert!(wifi.get_access_points().is_empty());
    assert!(!wifi.is_scanning());
}

#[test]
fn failed_scan_keeps_the_access_points_and_ends_the_scan() {
    let mut wifi = CRWiFi::new();
    wifi.update_access_points(vec![CRAccessPointInfo {
        ssid: "old".to_string(),
        bssid: "b".to_string(),
        strength: 1,
        security: CRWiFiSecurity::Wep,
        frequency: 5180,
        mode: CRWiFiMode::Infrastructure,
    }]);
    CRDbusService::wifi_scan_begin(&mut wifi);
    let e = CRDbusService::wifi_scan(&mut wifi, Err(NetctlError::ServiceError("down".to_string())))
        .unwrap_err();
    assert!(matches!(e, NetctlError::ServiceError(_)));
    assert_eq!(e.message(), "down");
    assert_eq!(wifi.get_access_points().len(), 1);
    assert_eq!(wifi.get_access_points()[0].ssid, "old");
    assert!(!wifi.is_scanning());
}

#[test]
fn every_security_kind_is_translated() {
    let kinds = [
        (WpaSecurityType::Open, CRWiFiSecurity::Open),
        (WpaSecurityType::Wep, CRWiFiSecurity::Wep),
        (WpaSecurityType::WpaPsk, CRWiFiSecurity::Wpa),
        (WpaSecurityType::Wpa2Psk, CRWiFiSecurity::Wpa2),
        (WpaSecurityType::Wpa3Sae, CRWiFiSecurity::Wpa3),
        (WpaSecurityType::WpaEap, CRWiFiSecurity::Enterprise),
        (WpaSecurityType::Wpa2Eap, CRWiFiSecurity::Enterprise),
    ];
    for (from, to) in kinds {
        assert_eq!(from.shown_as(), to);
        let aps = translate_scan_results(&vec![result("s", 100, from)]);
        assert_eq!(aps[0].security, to);
        assert_eq!(aps[0].strength, 100);
    }
}

#[test]
fn connecting_updates_network_and_device() {
    let mut wifi = CRWiFi::new();
    let mut nc = CRNetworkControl::new();
    nc.add_device(CRDeviceInfo::new("wlan0".to_string(), CRDeviceType::WiFi));
    let path = "/org/crrouter/NetworkControl/Devices/wlan0";

    let e = CRDbusService::wifi_connect(
        &mut wifi,
        &mut nc,
        "wlan0",
        "home",
        Err(NetctlError::Timeout("no answer".to_string())),
    )
    .unwrap_err();
    assert!(matches!(e, NetctlError::Timeout(_)));
    assert_eq!(wifi.get_current_ssid(), None);
    assert_eq!(nc.get_device(path).unwrap().state, CRDeviceState::Disconnected);

    let signals = CRDbusService::wifi_connect(&mut wifi, &mut nc, "wlan0", "home", Ok(())).unwrap();
    assert_eq!(signals.len(), 2);
    assert!(matches!(
        &signals[0],
        Signal::DeviceStateChanged { path: p, state: CRDeviceState::Activated } if p == path
    ));
    assert!(matches!(&signals[1], Signal::Connected { ssid } if ssid == "home"));
    assert_eq!(wifi.get_current_ssid().as_deref(), Some("home"));
    assert_eq!(nc.get_device(path).unwrap().state, CRDeviceState::Activated);

    let e = CRDbusService::wifi_disconnect(
        &mut wifi,
        &mut nc,
        "wlan0",
        Err(NetctlError::ServiceError("busy".to_string())),
    )
    .unwrap_err();
    assert!(matches!(e, NetctlError::ServiceError(_)));
    assert_eq!(wifi.get_current_ssid().as_deref(), Some("home"));
    assert_eq!(nc.get_device(path).unwrap().state, CRDeviceState::Activated);

    let signals = CRDbusService::wifi_disconnect(&mut wifi, &mut nc, "wlan0", Ok(())).unwrap();
    assert_eq!(signals.len(), 2);
    assert!(matches!(
        &signals[0],
        Signal::DeviceStateChanged { state: CRDeviceState::Disconnected, .. }
    ));
    assert!(matches!(&signals[1], Signal::Disconnected));
    assert_eq!(wifi.get_current_ssid(), None);

    // A device that is not in the registry is passed over.
    let signals = CRDbusService::wifi_connect(&mut wifi, &mut nc, "wlan9", "cafe", Ok(())).unwrap();
    assert_eq!(signals.len(), 1);
    assert!(matches!(&signals[0], Signal::Connected { ssid } if ssid == "cafe"));
    assert_eq!(wifi.get_current_ssid().as_deref(), Some("cafe"));
}

#[test]
fn status_needs_a_complete_association() {
    let st = |state: WpaState, ssid: Option<&str>| {
        Some(WpaStatus { state, ssid: ssid.map(|s| s.to_string()) })
    };
    assert_eq!(
        CRDbusService::wifi_status(true, st(WpaState::Completed, Some("home"))).as_deref(),
        Some("home")
    );
    assert_eq!(CRDbusService::wifi_status(true, st(WpaState::Completed, None)), None);
    assert_eq!(CRDbusService::wifi_status(false, st(WpaState::Completed, Some("home"))), None);
    assert_eq!(CRDbusService::wifi_status(true, st(WpaState::Associating, Some("home"))), None);
    assert_eq!(CRDbusService::wifi_status(true, None), None);
}

#[test]
fn access_points_can_be_set_directly() {
    let mut wifi = CRWiFi::default();
    wifi.set_scanning(true);
    wifi.set_current_ssid(Some("x".to_string()));
    let signal = CRDbusService::update_wifi_access_points(&mut wifi, vec![]);
    assert!(matches!(signal, Signal::ScanCompleted));
    assert!(wifi.is_scanning());
    assert_eq!(wifi.get_current_ssid().as_deref(), Some("x"));
}

#[test]
fn discovery_keeps_first_seen_order() {
    let mut nc = CRNetworkControl::new();
    CRDbusService::discover_devices(&mut nc, &vec![device("b0", &[], &[]), device("a0", &[], &[])]);
    CRDbusService::discover_devices(
        &mut nc,
        &vec![device("a0", &[], &["UP"]), device("c0", &[], &[]), device("a0", &[], &[])],
    );
    let listed: Vec<String> = nc.list_devices().iter().map(|d| d.interface.clone()).collect();
    assert_eq!(listed, vec!["b0".to_string(), "a0".to_string(), "c0".to_string()]);
    // The last report of a device is the one that stays.
    let a0 = nc.get_device("/org/crrouter/NetworkControl/Devices/a0").unwrap();
    assert_eq!(a0.state, CRDeviceState::Disconnected);
}

#[test]
fn devices_come_and_go_with_notifications() {
    let mut nc = CRNetworkControl::new();
    let signal = CRDbusService::add_device(&mut nc, CRDeviceInfo::new("eth0".to_string(), CRDeviceType::Ethernet));
    assert!(matches!(&signal, Signal::DeviceAdded { path } if path == "/org/crrouter/NetworkControl/Devices/eth0"));
    let signal = CRDbusService::remove_device(&mut nc, "eth0").unwrap();
    assert!(matches!(&signal, Signal::DeviceRemoved { path } if path == "/org/crrouter/NetworkControl/Devices/eth0"));
    assert!(nc.list_devices().is_empty());
    let e = CRDbusService::remove_device(&mut nc, "eth0").unwrap_err();
    assert!(matches!(e, NetctlError::NotFound(_)));
}
