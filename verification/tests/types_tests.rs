use netctl::error::{invalid_parameter, not_found, NetctlError};
use netctl::types::{
    CRConnectionState, CRConnectionType, CRConnectivity, CRDeviceInfo, CRDeviceState,
    CRDeviceType, CRNetworkState, CRRouteInfo, CRRouteType, CRVpnState, CRVpnType, CRWiFiMode,
    CRWiFiSecurity, CR_DBUS_PATH, CR_DBUS_SERVICE, CR_DEVICE_PATH_PREFIX, CR_VPN_PATH_PREFIX,
    CR_WIFI_PATH,
};

#[test]
fn states_have_their_numbers() {
    let device = [
        (CRDeviceState::Unknown, 0),
        (CRDeviceState::Unmanaged, 10),
        (CRDeviceState::Unavailable, 20),
        (CRDeviceState::Disconnected, 30),
        (CRDeviceState::Preparing, 40),
        (CRDeviceState::Configuring, 50),
        (CRDeviceState::NeedAuth, 60),
        (CRDeviceState::IpConfig, 70),
        (CRDeviceState::IpCheck, 80),
        (CRDeviceState::Secondaries, 90),
        (CRDeviceState::Activated, 100),
        (CRDeviceState::Deactivating, 110),
        (CRDeviceState::Failed, 120),
    ];
    for (i, (state, code)) in device.iter().enumerate() {
        assert_eq!(state.code(), *code);
        assert_eq!(u32::from(*state), *code);
        assert_eq!(CRDeviceState::from_code(*code), Some(*state));
        for (later, _) in &device[i + 1..] {
            assert!(state.precedes(*later));
            assert!(!later.precedes(*state));
        }
        assert!(!state.precedes(*state));
    }
    assert_eq!(CRDeviceState::from_code(5), None);
    assert_eq!(CRDeviceState::from_code(130), None);

    let network = [
        (CRNetworkState::Unknown, 0),
        (CRNetworkState::Initializing, 10),
        (CRNetworkState::Disconnected, 20),
        (CRNetworkState::Connecting, 30),
        (CRNetworkState::ConnectedLocal, 40),
        (CRNetworkState::ConnectedSite, 50),
        (CRNetworkState::ConnectedGlobal, 60),
    ];
    for (i, (state, code)) in network.iter().enumerate() {
        assert_eq!(state.code(), *code);
        assert_eq!(u32::from(*state), *code);
        assert_eq!(CRNetworkState::from_code(*code), Some(*state));
        for (later, _) in &network[i + 1..] {
            assert!(state.precedes(*later));
        }
    }
    assert_eq!(CRNetworkState::from_code(70), None);
}

#[test]
fn kinds_have_their_numbers() {
    assert_eq!(CRConnectivity::Unknown.code(), 0);
    assert_eq!(CRConnectivity::NoConnectivity.code(), 1);
    assert_eq!(CRConnectivity::Limited.code(), 2);
    assert_eq!(CRConnectivity::Portal.code(), 3);
    assert_eq!(CRConnectivity::Full.code(), 4);
    assert_eq!(u32::from(CRConnectivity::Full), 4);
    assert_eq!(CRConnectivity::from_code(5), None);

    let kinds = [
        CRDeviceType::Unknown,
        CRDeviceType::Ethernet,
        CRDeviceType::WiFi,
        CRDeviceType::Bluetooth,
        CRDeviceType::Bridge,
        CRDeviceType::Vlan,
        CRDeviceType::TunTap,
        CRDeviceType::Vpn,
        CRDeviceType::Loopback,
    ];
    for (n, kind) in kinds.iter().enumerate() {
        assert_eq!(kind.code(), n as u32);
        assert_eq!(u32::from(*kind), n as u32);
        assert_eq!(CRDeviceType::from_code(n as u32), Some(*kind));
    }
    assert_eq!(CRDeviceType::from_code(9), None);

    assert_eq!(CRWiFiSecurity::Open.code(), 0);
    assert_eq!(CRWiFiSecurity::Enterprise.code(), 5);
    assert_eq!(CRWiFiSecurity::from_code(3), Some(CRWiFiSecurity::Wpa2));
    assert_eq!(CRWiFiMode::AdHoc.code(), 3);
    assert_eq!(CRWiFiMode::from_code(1), Some(CRWiFiMode::Infrastructure));
    assert_eq!(CRVpnType::Arti.code(), 4);
    assert_eq!(CRVpnType::from_code(2), Some(CRVpnType::WireGuard));
    assert_eq!(CRVpnState::Failed.code(), 5);
    assert_eq!(CRVpnState::from_code(6), None);
    assert_eq!(CRConnectionType::Loopback.code(), 7);
    assert_eq!(CRConnectionType::from_code(5), Some(CRConnectionType::Bond));
    assert_eq!(CRConnectionState::Deactivated.code(), 4);
    assert_eq!(CRConnectionState::from_code(1), Some(CRConnectionState::Activating));
    assert_eq!(CRRouteType::Unicast.code(), 1);
    assert_eq!(u32::from(CRRouteType::Prohibit), 8);
    assert_eq!(CRDeviceState::NeedAuth.name(), "NeedAuth");
}

#[test]
fn new_entities_have_defaults() {
    assert_eq!(CR_DBUS_SERVICE, "org.crrouter.NetworkControl");
    assert_eq!(CR_DBUS_PATH, "/org/crrouter/NetworkControl");
    assert_eq!(CR_WIFI_PATH, "/org/crrouter/NetworkControl/WiFi");
    assert_eq!(CR_VPN_PATH_PREFIX, "/org/crrouter/NetworkControl/VPN");
    let d = CRDeviceInfo::new("wlan0".to_string(), CRDeviceType::WiFi);
    assert_eq!(d.path, format!("{}/{}", CR_DEVICE_PATH_PREFIX, "wlan0"));
    assert_eq!(d.interface, "wlan0");
    assert_eq!(d.device_type, CRDeviceType::WiFi);
    assert_eq!(d.state, CRDeviceState::Disconnected);
    assert_eq!(d.mtu, 1500);
    assert!(d.ipv4_address.is_none() && d.ipv6_address.is_none() && d.hw_address.is_none());
    let copy = d.clone();
    assert_eq!(copy.path, d.path);
    let r = CRRouteInfo::new("10.0.0.0/8".to_string());
    assert_eq!(r.destination, "10.0.0.0/8");
    assert_eq!(r.metric, 0);
}

#[test]
fn failures_map_to_statuses_and_texts() {
    let m = |s: &str| s.to_string();
    let cases = vec![
        (NetctlError::InvalidParameter(m("a")), 400, "a"),
        (NetctlError::NotFound(m("b")), 404, "b"),
        (NetctlError::InterfaceNotFound(m("c")), 404, "c"),
        (NetctlError::DeviceNotFound(m("d")), 404, "d"),
        (NetctlError::PermissionDenied(m("e")), 403, "e"),
        (NetctlError::Io(m("f")), 500, "f"),
        (NetctlError::ParseError(m("g")), 400, "g"),
        (NetctlError::Timeout(m("h")), 408, "h"),
        (NetctlError::AlreadyExists(m("i")), 409, "i"),
        (NetctlError::ConfigError(m("j")), 400, "j"),
        (NetctlError::ServiceError(m("k")), 503, "k"),
        (NetctlError::NotSupported(m("l")), 501, "l"),
        (NetctlError::InvalidState(m("n")), 409, "n"),
        (
            NetctlError::CommandFailed { cmd: m("ip link"), code: Some(2), stderr: m("boom") },
            500,
            "Command 'ip link' failed with code 2: boom",
        ),
        (
            NetctlError::CommandFailed { cmd: m("ip link"), code: Some(-9), stderr: m("") },
            500,
            "Command 'ip link' failed with code -9: ",
        ),
        (
            NetctlError::CommandFailed { cmd: m("ip"), code: None, stderr: m("gone") },
            500,
            "Command 'ip' failed: gone",
        ),
    ];
    for (e, status, text) in cases {
        assert_eq!(e.status_code(), status);
        assert_eq!(e.message(), text);
        let copy = e.duplicate();
        assert_eq!(copy.status_code(), status);
        assert_eq!(copy.message(), text);
    }
    assert_eq!(not_found("Route ", "x").message(), "Route x not found");
    assert!(matches!(invalid_parameter("a", "b"), NetctlError::InvalidParameter(t) if t == "ab"));
}
