use netctl::connection::CRConnection;
use netctl::dns::CRDns;
use netctl::error::NetctlError;
use netctl::network_control::CRNetworkControl;
use netctl::routing::{CRRouting, CommandOutcome, RoutingController};
use netctl::settings::{SettingValue, Settings};
use netctl::types::{
    CRConnectionInfo, CRConnectionState, CRConnectionType, CRConnectivity, CRDeviceInfo,
    CRDeviceState, CRDeviceType, CRNetworkState, CRRouteInfo, CRRouteType, CRVpnInfo, CRVpnState,
    CRVpnType,
};
use netctl::vpn::CRVPN;

fn settings(id: &str, kind: u32) -> Settings {
    let mut s = Settings::new();
    s.push("ID".to_string(), SettingValue::Str(id.to_string()));
    s.push("Type".to_string(), SettingValue::U32(kind));
    s
}

#[test]
fn added_device_is_what_lookup_gives() {
    let mut nc = CRNetworkControl::new();
    let mut first = CRDeviceInfo::new("eth0".to_string(), CRDeviceType::Ethernet);
    first.mtu = 9000;
    first.ipv4_address = Some("10.0.0.1".to_string());
    let path = first.path.clone();
    assert_eq!(path, "/org/crrouter/NetworkControl/Devices/eth0");
    nc.add_device(first);
    nc.add_device(CRDeviceInfo::new("wlan0".to_string(), CRDeviceType::WiFi));

    // Replace, not merge: the address of the first entry is gone.
    let mut second = CRDeviceInfo::new("eth0".to_string(), CRDeviceType::Ethernet);
    second.hw_address = Some("aa:bb:cc:dd:ee:ff".to_string());
    nc.add_device(second);

    let got = nc.get_device(&path).unwrap();
    assert_eq!(got.interface, "eth0");
    assert_eq!(got.mtu, 1500);
    assert_eq!(got.ipv4_address, None);
    assert_eq!(got.hw_address.as_deref(), Some("aa:bb:cc:dd:ee:ff"));
    assert_eq!(got.state, CRDeviceState::Disconnected);

    let listed: Vec<String> = nc.list_devices().iter().map(|d| d.interface.clone()).collect();
    assert_eq!(listed, vec!["eth0".to_string(), "wlan0".to_string()]);
}

#[test]
fn device_state_updates_need_a_known_device() {
    let mut nc = CRNetworkControl::new();
    let info = CRDeviceInfo::new("eth0".to_string(), CRDeviceType::Ethernet);
    let path = info.path.clone();
    nc.add_device(info);
    assert!(nc.update_device_state(&path, CRDeviceState::Activated).is_ok());
    assert_eq!(nc.get_device(&path).unwrap().state, CRDeviceState::Activated);
    let e = nc.update_device_state("/nowhere", CRDeviceState::Failed).unwrap_err();
    assert!(matches!(e, NetctlError::NotFound(_)));
    assert_eq!(e.message(), "Device /nowhere not found");
    assert!(matches!(nc.get_device("/nowhere"), Err(NetctlError::NotFound(_))));

    assert!(nc.remove_device(&path).is_ok());
    assert!(matches!(nc.remove_device(&path), Err(NetctlError::NotFound(_))));
    assert!(nc.list_devices().is_empty());
}

#[test]
fn network_state_and_connectivity_are_kept() {
    let mut nc = CRNetworkControl::default();
    assert_eq!(nc.get_network_state(), CRNetworkState::Unknown);
    assert_eq!(nc.get_connectivity(), CRConnectivity::Unknown);
    nc.set_network_state(CRNetworkState::ConnectedGlobal);
    nc.set_connectivity(CRConnectivity::Portal);
    assert_eq!(nc.get_network_state(), CRNetworkState::ConnectedGlobal);
    assert_eq!(nc.get_connectivity(), CRConnectivity::Portal);
}

#[test]
fn connection_is_found_by_identifier_and_by_name() {
    let mut store = CRConnection::new();
    let mut wanted = settings("home", 2);
    wanted.push("Autoconnect".to_string(), SettingValue::Bool(false));
    let uuid = store.add_connection(&wanted).unwrap();
    assert_eq!(uuid.len(), 36);
    assert_eq!(uuid.chars().filter(|c| *c == '-').count(), 4);

    let by_name = store.get_connection("home").unwrap();
    let by_id = store.get_connection(&uuid).unwrap();
    assert_eq!(by_name.uuid, uuid);
    assert_eq!(by_id.uuid, uuid);
    assert_eq!(by_name.id, "home");
    assert_eq!(by_id.id, "home");
    assert_eq!(by_id.conn_type, CRConnectionType::WiFi);
    assert_eq!(by_id.state, CRConnectionState::Unknown);
    assert!(!by_id.autoconnect);
    assert_eq!(by_id.device, None);
    assert_eq!(by_id.path, format!("/org/crrouter/NetworkControl/Connection/{}", uuid));

    let clone_id = store.clone_connection(&uuid, "home2").unwrap();
    assert_ne!(clone_id, uuid);
    let copy = store.get_connection("home2").unwrap();
    assert_eq!(copy.uuid, clone_id);
    assert_eq!(copy.conn_type, CRConnectionType::WiFi);
    assert!(!copy.autoconnect);
    assert_eq!(copy.state, CRConnectionState::Unknown);
    assert_eq!(store.list_connections().len(), 2);

    // Two requests never share an identifier.
    let other = store.add_connection(&settings("work", 1)).unwrap();
    assert_ne!(other, uuid);
    assert_ne!(other, clone_id);
}

#[test]
fn identifier_wins_over_name_and_older_name_over_newer() {
    let mut store = CRConnection::new();
    store.add_connection_as(&settings("b", 1), "a".to_string()).unwrap();
    store.add_connection_as(&settings("a", 2), "b".to_string()).unwrap();
    store.add_connection_as(&settings("dup", 3), "c".to_string()).unwrap();
    store.add_connection_as(&settings("dup", 4), "d".to_string()).unwrap();
    assert_eq!(store.get_connection("a").unwrap().conn_type, CRConnectionType::Ethernet);
    assert_eq!(store.get_connection("b").unwrap().conn_type, CRConnectionType::WiFi);
    assert_eq!(store.get_connection("dup").unwrap().uuid, "c");
    assert!(store.delete_connection("dup").is_ok());
    assert_eq!(store.get_connection("dup").unwrap().uuid, "d");
    let e = store.get_connection("none").unwrap_err();
    assert!(matches!(e, NetctlError::NotFound(_)));
    assert_eq!(e.message(), "Connection none not found");
}

#[test]
fn settings_are_checked_before_anything_changes() {
    let mut store = CRConnection::new();
    let cases: Vec<(Settings, &str)> = vec![
        (Settings::new(), "Missing ID field"),
        (
            {
                let mut s = Settings::new();
                s.push("ID".to_string(), SettingValue::U32(1));
                s
            },
            "Invalid ID type",
        ),
        (
            {
                let mut s = Settings::new();
                s.push("ID".to_string(), SettingValue::Str("x".to_string()));
                s
            },
            "Missing Type field",
        ),
        (
            {
                let mut s = Settings::new();
                s.push("ID".to_string(), SettingValue::Str("x".to_string()));
                s.push("Type".to_string(), SettingValue::U64(1));
                s
            },
            "Invalid Type",
        ),
        (settings("x", 8), "Invalid connection type: 8"),
        (settings("x", 4000000000), "Invalid connection type: 4000000000"),
    ];
    for (bag, text) in cases {
        let e = store.add_connection(&bag).unwrap_err();
        assert!(matches!(e, NetctlError::InvalidParameter(_)));
        assert_eq!(e.message(), text);
        assert!(store.list_connections().is_empty());
    }
    for kind in 0..8u32 {
        let id = store.add_connection(&settings("x", kind)).unwrap();
        let c = store.get_connection(&id).unwrap();
        assert_eq!(c.conn_type.code(), kind);
        assert!(c.autoconnect);
    }
    // Only a truth value under Autoconnect counts.
    let mut odd = settings("odd", 1);
    odd.push("Autoconnect".to_string(), SettingValue::Str("no".to_string()));
    let id = store.add_connection(&odd).unwrap();
    assert!(store.get_connection(&id).unwrap().autoconnect);
}

#[test]
fn connections_are_activated_modified_and_deleted() {
    let mut store = CRConnection::new();
    let uuid = store.add_connection(&settings("home", 2)).unwrap();
    assert!(store.get_active_connections().is_empty());

    assert!(store.activate_connection("home", "/dev/wlan0").is_ok());
    let c = store.get_connection(&uuid).unwrap();
    assert_eq!(c.state, CRConnectionState::Activating);
    assert_eq!(c.device.as_deref(), Some("/dev/wlan0"));
    assert_eq!(store.get_active_connections().len(), 1);

    assert!(store.update_state(&uuid, CRConnectionState::Activated).is_ok());
    assert_eq!(store.get_active_connections().len(), 1);
    assert!(matches!(
        store.update_state("home", CRConnectionState::Activated),
        Err(NetctlError::NotFound(_))
    ));

    assert!(store.deactivate_connection(&uuid).is_ok());
    let c = store.get_connection(&uuid).unwrap();
    assert_eq!(c.state, CRConnectionState::Deactivating);
    assert_eq!(c.device, None);
    assert!(store.get_active_connections().is_empty());

    let mut changes = Settings::new();
    changes.push("ID".to_string(), SettingValue::Str("office".to_string()));
    changes.push("Autoconnect".to_string(), SettingValue::Bool(false));
    changes.push("Type".to_string(), SettingValue::U32(1));
    assert!(store.modify_connection("home", &changes).is_ok());
    let c = store.get_connection("office").unwrap();
    assert_eq!(c.uuid, uuid);
    assert!(!c.autoconnect);
    assert_eq!(c.conn_type, CRConnectionType::WiFi);
    assert!(matches!(store.get_connection("home"), Err(NetctlError::NotFound(_))));

    assert_eq!(store.export_connection("office").unwrap(), "# Exported connection: office\n");
    assert!(matches!(store.export_connection("home"), Err(NetctlError::NotFound(_))));
    assert!(store.reload_connections().is_ok());

    for missing in ["home", "nothing"] {
        assert!(matches!(store.activate_connection(missing, "d"), Err(NetctlError::NotFound(_))));
        assert!(matches!(store.deactivate_connection(missing), Err(NetctlError::NotFound(_))));
        assert!(matches!(store.modify_connection(missing, &changes), Err(NetctlError::NotFound(_))));
        assert!(matches!(store.clone_connection(missing, "n"), Err(NetctlError::NotFound(_))));
        assert!(matches!(store.delete_connection(missing), Err(NetctlError::NotFound(_))));
    }
    assert!(store.delete_connection("office").is_ok());
    assert!(store.get_connection_info(&uuid).is_none());
    assert!(matches!(store.remove_connection_internal(&uuid), Err(NetctlError::NotFound(_))));
}

#[test]
fn internal_add_replaces_by_identifier() {
    let mut store = CRConnection::default();
    store.add_connection_internal(CRConnectionInfo::new(
        "u1".to_string(),
        "first".to_string(),
        CRConnectionType::Vpn,
    ));
    store.add_connection_internal(CRConnectionInfo::new(
        "u1".to_string(),
        "second".to_string(),
        CRConnectionType::Bond,
    ));
    assert_eq!(store.list_connections().len(), 1);
    let c = store.get_connection_info("u1").unwrap();
    assert_eq!(c.id, "second");
    assert_eq!(c.conn_type, CRConnectionType::Bond);
    assert_eq!(c.path, "/org/crrouter/NetworkControl/Connection/u1");
}

#[test]
fn adding_a_route_twice_leaves_one() {
    let mut r = CRRouting::new();
    assert!(r.add_route("default", "10.0.0.1", "eth0", 5).is_ok());
    assert!(r.add_route("10.1.0.0/16", "", "", 7).is_ok());
    assert!(r.add_route("default", "10.0.0.2", "eth0", 5).is_ok());
    assert_eq!(r.get_route_count(), 2);
    let routes = r.get_routes();
    let defaults: Vec<&CRRouteInfo> = routes.iter().filter(|x| x.destination == "default").collect();
    assert_eq!(defaults.len(), 1);
    assert_eq!(defaults[0].gateway.as_deref(), Some("10.0.0.2"));
    assert_eq!(routes[0].destination, "default");
    let got = r.get_route("default").unwrap();
    assert_eq!(got.gateway.as_deref(), Some("10.0.0.2"));
    assert_eq!(got.interface.as_deref(), Some("eth0"));
    assert_eq!(got.metric, 5);
    assert_eq!(got.route_type, CRRouteType::Unicast);
    assert_eq!(got.table, 254);
    assert_eq!(got.scope, 0);
    let plain = r.get_route("10.1.0.0/16").unwrap();
    assert_eq!(plain.gateway, None);
    assert_eq!(plain.interface, None);
    assert_eq!(plain.metric, 7);
}

#[test]
fn routes_need_a_destination() {
    let mut r = CRRouting::new();
    let e = r.add_route("", "10.0.0.1", "eth0", 1).unwrap_err();
    assert!(matches!(e, NetctlError::InvalidParameter(_)));
    assert_eq!(e.message(), "Destination cannot be empty");
    assert_eq!(r.get_route_count(), 0);
    let e = r.get_route("default").unwrap_err();
    assert!(matches!(e, NetctlError::NotFound(_)));
    assert_eq!(e.message(), "Route not found: default");
    let e = r.remove_route("default").unwrap_err();
    assert!(matches!(e, NetctlError::NotFound(_)));
    assert!(r.add_route("a", "", "", 0).is_ok());
    assert!(r.remove_route("a").is_ok());
    assert!(!r.remove_route_internal("a"));
}

#[test]
fn default_gateways_are_kept_by_family() {
    let mut r = CRRouting::new();
    assert_eq!(r.get_default_gateway().ipv6_flag(), None);
    assert!(r.set_default_gateway("10.0.0.1", "eth0").is_ok());
    let g = r.get_default_gateway();
    assert_eq!(g.gateway.as_deref(), Some("10.0.0.1"));
    assert_eq!(g.gateway6, None);
    assert_eq!(g.ipv6_flag(), Some(false));
    let route = r.get_route("default").unwrap();
    assert_eq!(route.gateway.as_deref(), Some("10.0.0.1"));
    assert_eq!(route.metric, 0);

    assert!(r.set_default_gateway("fe80::1", "").is_ok());
    let g = r.get_default_gateway();
    assert_eq!(g.gateway.as_deref(), Some("10.0.0.1"));
    assert_eq!(g.gateway6.as_deref(), Some("fe80::1"));
    assert_eq!(g.ipv6_flag(), Some(true));
    let route = r.get_route("default").unwrap();
    assert_eq!(route.gateway.as_deref(), Some("fe80::1"));
    assert_eq!(route.interface, None);
    assert_eq!(r.get_route_count(), 1);

    let e = r.set_default_gateway("", "eth0").unwrap_err();
    assert!(matches!(e, NetctlError::InvalidParameter(_)));
    assert_eq!(e.message(), "Gateway cannot be empty");

    assert!(r.clear_default_gateway(false).is_ok());
    let g = r.get_default_gateway();
    assert_eq!(g.gateway, None);
    assert_eq!(g.gateway6.as_deref(), Some("fe80::1"));
    assert!(matches!(r.get_route("default"), Err(NetctlError::NotFound(_))));

    assert!(r.add_route("x", "g", "i", 1).is_ok());
    assert!(r.clear_all_routes().is_ok());
    assert_eq!(r.get_route_count(), 0);
    assert_eq!(r.get_default_gateway().gateway6, None);
}

#[test]
fn forwarder_is_removed_once() {
    let mut dns = CRDns::new();
    assert!(dns.add_forwarder("1.1.1.1").is_ok());
    assert!(dns.add_forwarder("8.8.8.8").is_ok());
    assert!(dns.add_forwarder("1.1.1.1").is_ok());
    assert_eq!(dns.get_forwarders(), vec!["1.1.1.1".to_string(), "8.8.8.8".to_string()]);
    assert!(dns.remove_forwarder("1.1.1.1").is_ok());
    let e = dns.remove_forwarder("1.1.1.1").unwrap_err();
    assert!(matches!(e, NetctlError::NotFound(_)));
    assert_eq!(e.message(), "Forwarder not found: 1.1.1.1");
    assert_eq!(dns.get_forwarders(), vec!["8.8.8.8".to_string()]);
}

#[test]
fn forwarders_are_checked() {
    let mut dns = CRDns::new();
    let e = dns.add_forwarder("").unwrap_err();
    assert_eq!(e.message(), "Forwarder address cannot be empty");
    let e = dns.add_forwarder("localhost").unwrap_err();
    assert!(matches!(e, NetctlError::InvalidParameter(_)));
    assert_eq!(e.message(), "Invalid forwarder address format");
    assert!(dns.add_forwarder("::1").is_ok());

    let e = dns.set_forwarders(vec!["1.1.1.1".to_string(), "bad".to_string(), "".to_string()]).unwrap_err();
    assert_eq!(e.message(), "Invalid forwarder address: bad");
    let e = dns.set_forwarders(vec!["".to_string(), "bad".to_string()]).unwrap_err();
    assert_eq!(e.message(), "Forwarder address cannot be empty");
    assert_eq!(dns.get_forwarders(), vec!["::1".to_string()]);

    // A list that is set whole may hold an address twice; it then goes one by one.
    assert!(dns.set_forwarders(vec!["9.9.9.9".to_string(), "9.9.9.9".to_string()]).is_ok());
    assert!(dns.remove_forwarder("9.9.9.9").is_ok());
    assert!(dns.remove_forwarder("9.9.9.9").is_ok());
    assert!(dns.remove_forwarder("9.9.9.9").is_err());
}

#[test]
fn dns_server_starts_and_stops() {
    let mut dns = CRDns::default();
    let st = dns.get_status();
    assert!(!st.running);
    assert_eq!(st.listen_port, 53);
    assert_eq!(st.listen_address, None);
    assert_eq!(st.forwarder_count, 0);

    let e = dns.stop_server().unwrap_err();
    assert!(matches!(e, NetctlError::InvalidState(_)));
    assert_eq!(e.message(), "DNS server not running");
    let e = dns.start_server("", 53, vec![]).unwrap_err();
    assert!(matches!(e, NetctlError::InvalidParameter(_)));
    assert_eq!(e.message(), "Listen address cannot be empty");
    let e = dns.start_server("127.0.0.1", 0, vec![]).unwrap_err();
    assert_eq!(e.message(), "Listen port cannot be 0");
    assert!(!dns.is_running());

    assert!(dns.start_server("127.0.0.1", 5353, vec!["1.1.1.1".to_string()]).is_ok());
    let st = dns.get_status();
    assert!(st.running && dns.is_running());
    assert_eq!(st.listen_address.as_deref(), Some("127.0.0.1"));
    assert_eq!(st.listen_port, 5353);
    assert_eq!(st.forwarders, vec!["1.1.1.1".to_string()]);
    assert_eq!(st.forwarder_count, 1);
    let e = dns.start_server("127.0.0.1", 53, vec![]).unwrap_err();
    assert!(matches!(e, NetctlError::InvalidState(_)));
    assert_eq!(e.message(), "DNS server already running");
    assert_eq!(dns.get_status().listen_port, 5353);

    assert!(dns.stop_server().is_ok());
    let st = dns.get_status();
    assert!(!st.running);
    assert_eq!(st.listen_address, None);
    assert_eq!(st.listen_port, 5353);
    assert_eq!(st.forwarders, vec!["1.1.1.1".to_string()]);
    dns.set_running(true);
    assert!(dns.is_running());
}

#[test]
fn vpn_tunnels_are_kept_by_name() {
    let mut vpn = CRVPN::new();
    let info = CRVpnInfo::new("office".to_string(), CRVpnType::WireGuard);
    assert_eq!(info.path, "/org/crrouter/NetworkControl/VPN/office");
    assert_eq!(info.state, CRVpnState::Disconnected);
    vpn.add_connection(info);
    assert!(vpn.update_state("office", CRVpnState::Connected).is_ok());
    let got = vpn.get_connection("office").unwrap();
    assert_eq!(got.state, CRVpnState::Connected);
    assert_eq!(got.vpn_type, CRVpnType::WireGuard);
    let e = vpn.update_state("home", CRVpnState::Connected).unwrap_err();
    assert!(matches!(e, NetctlError::NotFound(_)));
    assert_eq!(e.message(), "VPN connection home not found");
    vpn.add_connection(CRVpnInfo::new("office".to_string(), CRVpnType::Arti));
    assert_eq!(vpn.list_connections().len(), 1);
    assert_eq!(vpn.get_connection("office").unwrap().state, CRVpnState::Disconnected);
    assert!(CRVPN::default().list_connections().is_empty());
}

#[test]
fn gateway_command_is_put_together() {
    assert_eq!(
        RoutingController::default_gateway_args("10.0.0.1", None),
        vec!["route", "add", "default", "via", "10.0.0.1"]
    );
    let args = RoutingController::default_gateway_args("10.0.0.1", Some("eth0"));
    assert_eq!(args, vec!["route", "add", "default", "via", "10.0.0.1", "dev", "eth0"]);
    assert_eq!(RoutingController::command_text(&args), "ip route add default via 10.0.0.1 dev eth0");
    assert_eq!(RoutingController::command_text(&vec![]), "ip ");

    let rc = RoutingController::new();
    let ok = CommandOutcome::Exited { success: true, code: Some(0), stderr: String::new() };
    assert!(rc.add_default_gateway("10.0.0.1", None, ok).is_ok());
    let failed = CommandOutcome::Exited {
        success: false,
        code: Some(2),
        stderr: "RTNETLINK answers: File exists".to_string(),
    };
    match rc.add_default_gateway("10.0.0.1", Some("eth0"), failed) {
        Err(NetctlError::CommandFailed { cmd, code, stderr }) => {
            assert_eq!(cmd, "ip route add default via 10.0.0.1 dev eth0");
            assert_eq!(code, Some(2));
            assert_eq!(stderr, "RTNETLINK answers: File exists");
        }
        other => panic!("unexpected: {:?}", other),
    }
    // A refused gateway or interface is reported whatever the command did.
    let fine = || CommandOutcome::Exited { success: true, code: Some(0), stderr: String::new() };
    let e = rc.add_default_gateway("gateway", None, fine()).unwrap_err();
    assert!(matches!(e, NetctlError::InvalidParameter(_)));
    assert_eq!(e.message(), "Invalid IP address: gateway");
    let e = rc.add_default_gateway("10.0.0.1", Some("eth 0"), fine()).unwrap_err();
    assert!(matches!(e, NetctlError::InvalidParameter(_)));
    assert_eq!(e.message(), "Invalid interface name: eth 0");
    let e = rc.add_default_gateway("nope", Some("eth 0"), fine()).unwrap_err();
    assert_eq!(e.message(), "Invalid IP address: nope");
    assert_eq!(
        RoutingController::plan_default_gateway("fe80::1", Some("wlan0")).unwrap(),
        vec!["route", "add", "default", "via", "fe80::1", "dev", "wlan0"]
    );
    let e = RoutingController::plan_default_gateway("10.0.0.256", None).unwrap_err();
    assert_eq!(e.message(), "Invalid IP address: 10.0.0.256");
    let e = RoutingController::plan_default_gateway("10.0.0.1", Some("")).unwrap_err();
    assert_eq!(e.message(), "Invalid interface name: ");

    let absent = CommandOutcome::NotStarted { reason: "No such file".to_string() };
    match RoutingController::default().add_default_gateway("::1", None, absent) {
        Err(NetctlError::CommandFailed { cmd, code, stderr }) => {
            assert_eq!(cmd, "ip route add default via ::1");
            assert_eq!(code, None);
            assert_eq!(stderr, "No such file");
        }
        other => panic!("unexpected: {:?}", other),
    }
}

#[test]
fn identifier_in_use_is_refused() {
    let mut store = CRConnection::new();
    assert_eq!(store.add_connection_as(&settings("home", 2), "u1".to_string()).unwrap(), "u1");
    let e = store.add_connection_as(&settings("work", 1), "u1".to_string()).unwrap_err();
    assert!(matches!(e, NetctlError::AlreadyExists(_)));
    assert_eq!(e.message(), "Connection u1 already exists");
    assert_eq!(store.list_connections().len(), 1);
    assert_eq!(store.get_connection("u1").unwrap().id, "home");
    // Settings that cannot be read are reported first.
    let e = store.add_connection_as(&Settings::new(), "u1".to_string()).unwrap_err();
    assert!(matches!(e, NetctlError::InvalidParameter(_)));

    // A copy under the source's own identifier would replace the source.
    let e = store.clone_connection_as("home", "copy", "u1".to_string()).unwrap_err();
    assert!(matches!(e, NetctlError::AlreadyExists(_)));
    assert_eq!(e.message(), "Connection u1 already exists");
    assert_eq!(store.get_connection("u1").unwrap().id, "home");
    assert!(matches!(
        store.clone_connection_as("nobody", "copy", "u1".to_string()),
        Err(NetctlError::NotFound(_))
    ));

    assert!(store.activate_connection("u1", "/dev/wlan0").is_ok());
    assert_eq!(store.clone_connection_as("home", "copy", "u2".to_string()).unwrap(), "u2");
    let uuids: Vec<String> = store.list_connections().iter().map(|c| c.uuid.clone()).collect();
    assert_eq!(uuids, vec!["u1".to_string(), "u2".to_string()]);
    let source = store.get_connection("u1").unwrap();
    assert_eq!(source.id, "home");
    assert_eq!(source.state, CRConnectionState::Activating);
    assert_eq!(source.device.as_deref(), Some("/dev/wlan0"));
    let copy = store.get_connection("u2").unwrap();
    assert_eq!(copy.id, "copy");
    assert_eq!(copy.device, None);
    assert_eq!(copy.state, CRConnectionState::Unknown);
}

#[test]
fn adding_and_cloning_succeed_where_nothing_can_collide() {
    // A new registry holds no identifier that a generated one could repeat.
    let mut store = CRConnection::new();
    let first = store.add_connection(&settings("home", 1)).unwrap();
    assert_eq!(first.len(), 36);
    assert_eq!(store.get_connection(&first).unwrap().id, "home");

    // Nor does a registry whose identifiers are all of another length.
    let mut short = CRConnection::new();
    short.add_connection_as(&settings("home", 2), "u1".to_string()).unwrap();
    let copy = short.clone_connection("home", "home2").unwrap();
    assert_eq!(copy.len(), 36);
    assert_ne!(copy, "u1");
    let cloned = short.get_connection(&copy).unwrap();
    assert_eq!(cloned.id, "home2");
    assert_eq!(cloned.conn_type, CRConnectionType::WiFi);
    assert!(cloned.autoconnect);
    assert_eq!(short.get_connection("u1").unwrap().id, "home");
    assert_eq!(short.list_connections().len(), 2);
    let added = short.add_connection(&settings("work", 1)).unwrap();
    assert_ne!(added, copy);
    assert_eq!(short.list_connections().len(), 3);
}
