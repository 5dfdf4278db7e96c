use netctl::device::{
    split_address, PlanStep, Device, DeviceAction, DeviceCapabilities, DeviceConfig, DeviceController,
    DeviceState, DeviceStats, DeviceType, SysfsProbe,
};
use netctl::error::NetctlError;
use netctl::interface::{InterfaceAddress, InterfaceInfo, InterfaceStats};

fn loopback_info() -> InterfaceInfo {
    InterfaceInfo {
        name: "lo".to_string(),
        index: Some(1),
        mac_address: None,
        mtu: Some(65536),
        state: Some("UP".to_string()),
        flags: vec!["UP".to_string(), "LOOPBACK".to_string()],
        addresses: vec![],
        stats: None,
    }
}

fn plain_device(name: &str, device_type: DeviceType) -> Device {
    Device {
        name: name.to_string(),
        index: None,
        device_type,
        state: DeviceState::Up,
        mac_address: None,
        mtu: None,
        addresses: vec![],
        driver: None,
        vendor: None,
        model: None,
        bus_info: None,
        capabilities: DeviceCapabilities::default(),
        flags: vec![],
        stats: None,
        parent: None,
        children: vec![],
    }
}

fn probe_with_driver(driver: &str) -> SysfsProbe {
    let mut probe = SysfsProbe::empty();
    probe.driver = Some(driver.to_string());
    probe
}

#[test]
fn test_device_controller_creation() {
    let controller = DeviceController::new();
    assert!(controller.list().is_empty());
}

#[test]
fn test_device_type_detection() {
    let controller = DeviceController::new();
    let iface_info = loopback_info();
    let probe = SysfsProbe::empty();
    let device_type = controller.detect_device_type("lo", &probe);
    assert_eq!(device_type, DeviceType::Loopback);
    let device = controller.describe_device("lo", iface_info, &probe);
    assert_eq!(device.device_type, DeviceType::Loopback);
    assert_eq!(device.mtu, Some(65536));
    assert_eq!(device.flags, vec!["UP".to_string(), "LOOPBACK".to_string()]);
}

#[test]
fn classifies_by_name() {
    let c = DeviceController::new();
    let none = SysfsProbe::empty();
    assert_eq!(c.detect_device_type("lo", &none), DeviceType::Loopback);
    assert_eq!(c.detect_device_type("wlan0", &none), DeviceType::Wifi);
    assert_eq!(c.detect_device_type("wlp3s0", &none), DeviceType::Wifi);
    assert_eq!(c.detect_device_type("eth0", &none), DeviceType::Ethernet);
    assert_eq!(c.detect_device_type("enp0s3", &none), DeviceType::Ethernet);
    assert_eq!(c.detect_device_type("eno1", &none), DeviceType::Ethernet);
    assert_eq!(c.detect_device_type("br-lan", &none), DeviceType::Bridge);
    assert_eq!(c.detect_device_type("bridge0", &none), DeviceType::Bridge);
    assert_eq!(c.detect_device_type("vlan10", &none), DeviceType::Vlan);
    assert_eq!(c.detect_device_type("tun0", &none), DeviceType::TunTap);
    assert_eq!(c.detect_device_type("tap1", &none), DeviceType::TunTap);
    assert_eq!(c.detect_device_type("bond0", &none), DeviceType::Bond);
    assert_eq!(c.detect_device_type("docker0", &none), DeviceType::Container);
    assert_eq!(c.detect_device_type("ppp0", &none), DeviceType::Ppp);
    assert_eq!(c.detect_device_type("wg0", &none), DeviceType::Vpn);
    assert_eq!(c.detect_device_type("foo123", &none), DeviceType::Unknown);
    assert_eq!(c.detect_device_type("", &none), DeviceType::Unknown);
    assert_eq!(c.detect_device_type("lo0", &none), DeviceType::Unknown);
}

#[test]
fn wireless_driver_makes_ethernet_name_wifi() {
    let c = DeviceController::new();
    assert_eq!(c.detect_device_type("eth0", &probe_with_driver("iwlwifi")), DeviceType::Wifi);
    assert_eq!(c.detect_device_type("eth0", &probe_with_driver("ath9k")), DeviceType::Wifi);
    assert_eq!(c.detect_device_type("eth0", &probe_with_driver("brcmwl")), DeviceType::Wifi);
    assert_eq!(c.detect_device_type("eth0", &probe_with_driver("e1000e")), DeviceType::Ethernet);
    assert_eq!(c.detect_device_type("eth0", &probe_with_driver("")), DeviceType::Ethernet);
    // The driver counts for ethernet names only.
    assert_eq!(c.detect_device_type("br-lan", &probe_with_driver("iwlwifi")), DeviceType::Bridge);
}

#[test]
fn wireless_marker_is_the_last_resort() {
    let c = DeviceController::new();
    let mut probe = SysfsProbe::empty();
    probe.wireless = true;
    assert_eq!(c.detect_device_type("foo123", &probe), DeviceType::Wifi);
    assert_eq!(c.detect_device_type("wg0", &probe), DeviceType::Vpn);
}

#[test]
fn long_veth_name_is_a_container_interface() {
    let c = DeviceController::new();
    let none = SysfsProbe::empty();
    assert_eq!(c.detect_device_type("veth0", &none), DeviceType::Veth);
    // Ten bytes: still a veth pair.
    assert_eq!(c.detect_device_type("veth123456", &none), DeviceType::Veth);
    // Eleven bytes: a container interface.
    assert_eq!(c.detect_device_type("veth1234567", &none), DeviceType::Container);
    // Bytes count, not characters: "veth" and three two-byte letters make ten.
    assert_eq!(c.detect_device_type("vethäöü", &none), DeviceType::Veth);
    assert_eq!(c.detect_device_type("vethäöüß", &none), DeviceType::Container);
}

#[test]
fn state_comes_from_report_then_flags() {
    let c = DeviceController::new();
    let mut info = loopback_info();
    assert_eq!(c.determine_device_state(&info), DeviceState::Up);
    info.state = Some("up".to_string());
    assert_eq!(c.determine_device_state(&info), DeviceState::Up);
    info.state = Some("Down".to_string());
    assert_eq!(c.determine_device_state(&info), DeviceState::Down);
    info.state = Some("DORMANT".to_string());
    assert_eq!(c.determine_device_state(&info), DeviceState::Unknown);
    info.state = None;
    assert_eq!(c.determine_device_state(&info), DeviceState::Up);
    info.flags = vec!["BROADCAST".to_string()];
    assert_eq!(c.determine_device_state(&info), DeviceState::Down);
    info.flags = vec!["up".to_string()];
    assert_eq!(c.determine_device_state(&info), DeviceState::Down);
    assert_eq!(
        DeviceController::state_from_report(Some("UP"), &vec![]),
        DeviceState::Up
    );
    assert_eq!(
        DeviceController::state_from_report(Some("up"), &vec!["UP".to_string()]),
        DeviceState::Unknown
    );
}

#[test]
fn capabilities_follow_the_kind() {
    let c = DeviceController::new();
    let mut probe = SysfsProbe::empty();
    probe.phy_available = true;
    probe.speed = Some("1000\n".to_string());
    let wifi = c.detect_capabilities(&DeviceType::Wifi, &probe);
    assert!(wifi.wifi && wifi.access_point && !wifi.bridge && !wifi.vlan);
    assert!(wifi.speeds.is_empty());
    let eth = c.detect_capabilities(&DeviceType::Ethernet, &probe);
    assert!(!eth.wifi && !eth.access_point && eth.bridge && eth.vlan);
    assert_eq!(eth.speeds, vec![1000]);
    let bridge = c.detect_capabilities(&DeviceType::Bridge, &probe);
    assert!(bridge.bridge && !bridge.vlan && !bridge.wifi);
    let other = c.detect_capabilities(&DeviceType::Loopback, &probe);
    assert!(!other.bridge && !other.vlan && !other.wifi && !other.access_point);
    assert_eq!(other.mtu_range, None);
    assert!(!other.wake_on_lan);

    probe.phy_available = false;
    probe.speed = Some("-1\n".to_string());
    assert!(!c.detect_capabilities(&DeviceType::Wifi, &probe).access_point);
    assert!(c.detect_capabilities(&DeviceType::Ethernet, &probe).speeds.is_empty());
    probe.speed = Some("4294967295".to_string());
    assert_eq!(c.detect_capabilities(&DeviceType::Ethernet, &probe).speeds, vec![4294967295]);
    probe.speed = Some("4294967296".to_string());
    assert!(c.detect_capabilities(&DeviceType::Ethernet, &probe).speeds.is_empty());
}

#[test]
fn metadata_is_read_from_the_probe() {
    let c = DeviceController::new();
    let mut probe = SysfsProbe::empty();
    probe.driver = Some("e1000e".to_string());
    probe.vendor = Some("0x8086\n".to_string());
    probe.model = Some("  0x15d8 \n".to_string());
    probe.uevent = Some(
        "DRIVER=e1000e\nPCI_CLASS=20000\r\nPCI_SLOT_NAME=0000:00:1f.6\nMODALIAS=x\n".to_string(),
    );
    let (driver, vendor, model, bus) = c.get_device_metadata(&probe);
    assert_eq!(driver.as_deref(), Some("e1000e"));
    assert_eq!(vendor.as_deref(), Some("0x8086"));
    assert_eq!(model.as_deref(), Some("0x15d8"));
    assert_eq!(bus.as_deref(), Some("0000:00:1f.6"));

    probe.uevent = Some("PCI_SLOT_NAME=PCI_SLOT_NAME=0000:01:00.0\r\nPCI_SLOT_NAME=other".to_string());
    assert_eq!(c.get_device_metadata(&probe).3.as_deref(), Some("0000:01:00.0"));
    probe.uevent = Some("DRIVER=e1000e\n".to_string());
    assert_eq!(c.get_device_metadata(&probe).3, None);
    probe.uevent = None;
    assert_eq!(c.get_device_metadata(&probe).3, None);
}

#[test]
fn hierarchy_is_read_from_the_probe() {
    let c = DeviceController::new();
    let mut probe = SysfsProbe::empty();
    probe.lower = Some(" eth0\n".to_string());
    probe.bridge_ports = vec!["eth1".to_string(), "eth2".to_string()];
    let (parent, children) = c.get_device_hierarchy(&probe);
    assert_eq!(parent.as_deref(), Some("eth0"));
    assert_eq!(children, vec!["eth1".to_string(), "eth2".to_string()]);
}

#[test]
fn describe_device_puts_everything_together() {
    let c = DeviceController::new();
    let info = InterfaceInfo {
        name: "eth0".to_string(),
        index: Some(2),
        mac_address: Some("aa:bb:cc:dd:ee:ff".to_string()),
        mtu: Some(1500),
        state: Some("down".to_string()),
        flags: vec!["BROADCAST".to_string()],
        addresses: vec![
            InterfaceAddress { address: "192.168.1.5".to_string() },
            InterfaceAddress { address: "fe80::1".to_string() },
        ],
        stats: Some(InterfaceStats {
            rx_bytes: 1,
            rx_packets: 2,
            rx_errors: 3,
            rx_dropped: 4,
            tx_bytes: 5,
            tx_packets: 6,
            tx_errors: 7,
            tx_dropped: 8,
        }),
    };
    let mut probe = probe_with_driver("e1000e");
    probe.speed = Some("100".to_string());
    let d = c.describe_device("eth0", info, &probe);
    assert_eq!(d.name, "eth0");
    assert_eq!(d.index, Some(2));
    assert_eq!(d.device_type, DeviceType::Ethernet);
    assert_eq!(d.state, DeviceState::Down);
    assert_eq!(d.mac_address.as_deref(), Some("aa:bb:cc:dd:ee:ff"));
    assert_eq!(d.addresses, vec!["192.168.1.5".to_string(), "fe80::1".to_string()]);
    assert_eq!(d.driver.as_deref(), Some("e1000e"));
    assert_eq!(d.capabilities.speeds, vec![100]);
    assert_eq!(
        d.stats,
        Some(DeviceStats {
            rx_bytes: 1,
            rx_packets: 2,
            rx_errors: 3,
            rx_dropped: 4,
            tx_bytes: 5,
            tx_packets: 6,
            tx_errors: 7,
            tx_dropped: 8,
        })
    );
    assert_eq!(d.parent, None);
    assert!(d.children.is_empty());
}

#[test]
fn registry_replaces_and_lists_in_order() {
    let mut c = DeviceController::new();
    c.remember(plain_device("eth0", DeviceType::Ethernet));
    c.remember(plain_device("br0", DeviceType::Bridge));
    let mut again = plain_device("eth0", DeviceType::Ethernet);
    again.mtu = Some(9000);
    c.remember(again);
    assert_eq!(c.list(), vec!["eth0".to_string(), "br0".to_string()]);
    assert_eq!(c.get_device("eth0").unwrap().mtu, Some(9000));
    assert_eq!(c.list_devices().len(), 2);
    let err = c.get_device("eth9").unwrap_err();
    assert!(matches!(err, NetctlError::NotFound(_)));
    assert_eq!(err.message(), "Device eth9 not found");
}

#[test]
fn devices_are_filtered_by_kind() {
    let mut c = DeviceController::new();
    c.remember(plain_device("eth0", DeviceType::Ethernet));
    c.remember(plain_device("wlan0", DeviceType::Wifi));
    c.remember(plain_device("eth1", DeviceType::Ethernet));
    let eth = c.get_devices_by_type(DeviceType::Ethernet);
    let names: Vec<String> = eth.iter().map(|d| d.name.clone()).collect();
    assert_eq!(names, vec!["eth0".to_string(), "eth1".to_string()]);
    assert!(c.get_devices_by_type(DeviceType::Bond).is_empty());
}

#[test]
fn only_virtual_devices_can_be_deleted() {
    let kinds = [
        (DeviceType::Ethernet, false),
        (DeviceType::Wifi, false),
        (DeviceType::Loopback, false),
        (DeviceType::Bridge, true),
        (DeviceType::Vlan, true),
        (DeviceType::TunTap, true),
        (DeviceType::Veth, true),
        (DeviceType::Bond, true),
        (DeviceType::Vpn, false),
        (DeviceType::Container, false),
        (DeviceType::Ppp, false),
        (DeviceType::Unknown, false),
    ];
    for (kind, deletable) in kinds {
        assert_eq!(kind.is_virtual(), deletable);
        let mut c = DeviceController::new();
        c.remember(plain_device("dev0", kind));
        let r = c.delete_device("dev0");
        if deletable {
            assert!(r.is_ok());
            assert!(matches!(c.get_device("dev0"), Err(NetctlError::NotFound(_))));
            assert!(c.list().is_empty());
        } else {
            let e = r.unwrap_err();
            assert!(matches!(e, NetctlError::InvalidParameter(_)));
            assert_eq!(e.message(), "Cannot delete physical device: dev0");
            assert!(c.get_device("dev0").is_ok());
        }
    }
    let mut c = DeviceController::new();
    assert!(matches!(c.delete_device("nope"), Err(NetctlError::NotFound(_))));
}

#[test]
fn addresses_are_split_at_the_slash() {
    assert_eq!(split_address("10.0.0.1/24").unwrap(), ("10.0.0.1".to_string(), 24));
    assert_eq!(split_address("fe80::1/64").unwrap(), ("fe80::1".to_string(), 64));
    assert_eq!(split_address("/0").unwrap(), ("".to_string(), 0));
    assert_eq!(split_address("a/+8").unwrap(), ("a".to_string(), 8));
    assert_eq!(split_address("a/255").unwrap(), ("a".to_string(), 255));
    assert_eq!(split_address("a/0008").unwrap(), ("a".to_string(), 8));
    for bad in ["10.0.0.1", "10.0.0.1/24/1", "", "a//1"] {
        let e = split_address(bad).unwrap_err();
        assert!(matches!(e, NetctlError::InvalidParameter(_)));
        assert_eq!(e.message(), format!("Invalid address format: {}. Expected IP/PREFIX", bad));
    }
    for (bad, rest) in [("a/256", "256"), ("a/", ""), ("a/-1", "-1"), ("a/ 8", " 8"), ("a/8x", "8x"), ("a/+", "+")] {
        let e = split_address(bad).unwrap_err();
        assert!(matches!(e, NetctlError::InvalidParameter(_)));
        assert_eq!(e.message(), format!("Invalid prefix: {}", rest));
    }
}

fn empty_config() -> DeviceConfig {
    DeviceConfig {
        state: None,
        mtu: None,
        mac_address: None,
        add_addresses: vec![],
        remove_addresses: vec![],
    }
}

fn show(actions: &[DeviceAction]) -> Vec<String> {
    actions.iter().map(|a| format!("{:?}", a)).collect()
}

#[test]
fn configuration_becomes_steps_in_order() {
    let c = DeviceController::new();
    let plan = c.configure_device(&empty_config());
    assert!(plan.actions.is_empty() && plan.error.is_none());

    let config = DeviceConfig {
        state: Some(DeviceState::Up),
        mtu: Some(1400),
        mac_address: Some("02:00:00:00:00:01".to_string()),
        add_addresses: vec!["10.0.0.2/24".to_string(), "fd00::2/64".to_string()],
        remove_addresses: vec!["10.0.0.1/24".to_string()],
    };
    let plan = c.configure_device(&config);
    assert!(plan.error.is_none());
    assert_eq!(
        show(&plan.actions),
        vec![
            "Up".to_string(),
            "SetMtu(1400)".to_string(),
            "SetMac(\"02:00:00:00:00:01\")".to_string(),
            "AddIp { ip: \"10.0.0.2\", prefix: 24 }".to_string(),
            "AddIp { ip: \"fd00::2\", prefix: 64 }".to_string(),
            "DelIp { ip: \"10.0.0.1\", prefix: 24 }".to_string(),
        ]
    );

    let mut down = empty_config();
    down.state = Some(DeviceState::Down);
    assert_eq!(show(&c.configure_device(&down).actions), vec!["Down".to_string()]);
}

#[test]
fn configuration_stops_at_the_first_fault() {
    let c = DeviceController::new();
    let mut bad_state = empty_config();
    bad_state.state = Some(DeviceState::Unmanaged);
    bad_state.mtu = Some(1400);
    let plan = c.configure_device(&bad_state);
    assert!(plan.actions.is_empty());
    let e = plan.error.unwrap();
    assert!(matches!(e, NetctlError::InvalidParameter(_)));
    assert_eq!(e.message(), "Cannot set device to state: Unmanaged");

    let mut bad_add = empty_config();
    bad_add.mtu = Some(1400);
    bad_add.add_addresses = vec!["10.0.0.2/24".to_string(), "oops".to_string(), "10.0.0.3/24".to_string()];
    bad_add.remove_addresses = vec!["10.0.0.1/24".to_string()];
    let plan = c.configure_device(&bad_add);
    assert_eq!(
        show(&plan.actions),
        vec!["SetMtu(1400)".to_string(), "AddIp { ip: \"10.0.0.2\", prefix: 24 }".to_string()]
    );
    assert_eq!(plan.error.unwrap().message(), "Invalid address format: oops. Expected IP/PREFIX");

    let mut bad_del = empty_config();
    bad_del.add_addresses = vec!["10.0.0.2/24".to_string()];
    bad_del.remove_addresses = vec!["10.0.0.1/999".to_string()];
    let plan = c.configure_device(&bad_del);
    assert_eq!(show(&plan.actions), vec!["AddIp { ip: \"10.0.0.2\", prefix: 24 }".to_string()]);
    assert_eq!(plan.error.unwrap().message(), "Invalid prefix: 999");
}

#[test]
fn filter_words_name_kinds() {
    assert_eq!(DeviceType::parse("wifi").unwrap(), DeviceType::Wifi);
    assert_eq!(DeviceType::parse("WiFi").unwrap(), DeviceType::Wifi);
    assert_eq!(DeviceType::parse("ETHERNET").unwrap(), DeviceType::Ethernet);
    assert_eq!(DeviceType::parse("TunTap").unwrap(), DeviceType::TunTap);
    for kind in [
        DeviceType::Ethernet,
        DeviceType::Wifi,
        DeviceType::Loopback,
        DeviceType::Bridge,
        DeviceType::Vlan,
        DeviceType::TunTap,
        DeviceType::Veth,
        DeviceType::Bond,
        DeviceType::Vpn,
        DeviceType::Container,
        DeviceType::Ppp,
    ] {
        assert_eq!(DeviceType::parse(kind.name()).unwrap(), kind);
    }
    for bad in ["unknown", "", "wi-fi"] {
        let e = DeviceType::parse(bad).unwrap_err();
        assert!(matches!(e, NetctlError::InvalidParameter(_)));
        assert_eq!(e.message(), format!("Unknown device type: {}", bad));
    }
    assert_eq!(DeviceType::Unknown.name(), "unknown");
    assert!(matches!(
        DeviceType::from_lowercase("WIFI", "WIFI"),
        Err(NetctlError::InvalidParameter(_))
    ));
}

#[test]
fn monitoring_needs_no_preparation() {
    assert!(DeviceController::new().monitor_devices().is_ok());
    assert!(DeviceController::default().list().is_empty());
}

#[test]
fn lookups_that_fail_are_passed_over() {
    let results = vec![
        Ok(plain_device("eth0", DeviceType::Ethernet)),
        Err(NetctlError::InterfaceNotFound("gone0".to_string())),
        Ok(plain_device("wlan0", DeviceType::Wifi)),
        Err(NetctlError::Io("busy".to_string())),
        Ok(plain_device("br0", DeviceType::Bridge)),
    ];
    let found = DeviceController::found_devices(&results);
    let names: Vec<String> = found.iter().map(|d| d.name.clone()).collect();
    assert_eq!(names, vec!["eth0".to_string(), "wlan0".to_string(), "br0".to_string()]);
    assert!(DeviceController::found_devices(&vec![]).is_empty());
    assert!(DeviceController::found_devices(&vec![Err(NetctlError::Io("x".to_string()))]).is_empty());

    let mut c = DeviceController::new();
    c.remember(plain_device("old0", DeviceType::Veth));
    c.refresh(&found);
    assert_eq!(c.list(), vec!["eth0".to_string(), "wlan0".to_string(), "br0".to_string()]);
    assert!(matches!(c.get_device("old0"), Err(NetctlError::NotFound(_))));
    assert_eq!(c.get_devices_by_type(DeviceType::Wifi).len(), 1);
    c.refresh(&vec![]);
    assert!(c.list().is_empty());
}

fn drive(config: &DeviceConfig, outcomes: Vec<Result<(), NetctlError>>) -> (usize, Result<(), NetctlError>) {
    let plan = DeviceController::new().configure_device(config);
    let mut outcomes = outcomes.into_iter();
    let mut made = 0;
    let mut step = plan.step_after(0, Ok(()));
    loop {
        match step {
            PlanStep::Run { position } => {
                assert_eq!(position, made);
                assert!(position < plan.actions.len());
                made += 1;
                step = plan.step_after(made, outcomes.next().unwrap_or(Ok(())));
            }
            PlanStep::Done { result } => return (made, result),
        }
    }
}

#[test]
fn first_failed_step_ends_the_run() {
    let config = DeviceConfig {
        state: Some(DeviceState::Up),
        mtu: Some(1400),
        mac_address: None,
        add_addresses: vec!["10.0.0.5/24".to_string(), "10.0.0.6/16".to_string()],
        remove_addresses: vec!["10.0.0.1/24".to_string()],
    };
    let (made, result) = drive(&config, vec![]);
    assert_eq!(made, 5);
    assert!(result.is_ok());

    let failure = || NetctlError::CommandFailed {
        cmd: "ip link set dev eth0 mtu 1400".to_string(),
        code: Some(2),
        stderr: "no".to_string(),
    };
    let (made, result) = drive(&config, vec![Ok(()), Err(failure()), Ok(())]);
    assert_eq!(made, 2);
    assert_eq!(result.unwrap_err().message(), failure().message());
    let (made, result) = drive(&config, vec![Err(failure())]);
    assert_eq!(made, 1);
    assert!(matches!(result, Err(NetctlError::CommandFailed { .. })));

    // A plan that carries a fault of its own ends with it after its steps.
    let mut faulty = empty_config();
    faulty.mtu = Some(1400);
    faulty.add_addresses = vec!["10.0.0.5/24".to_string(), "oops".to_string()];
    let (made, result) = drive(&faulty, vec![]);
    assert_eq!(made, 2);
    assert_eq!(result.unwrap_err().message(), "Invalid address format: oops. Expected IP/PREFIX");
    // A step that fails comes before the plan's own fault.
    let (made, result) = drive(&faulty, vec![Err(failure())]);
    assert_eq!(made, 1);
    assert!(matches!(result, Err(NetctlError::CommandFailed { .. })));

    let (made, result) = drive(&empty_config(), vec![]);
    assert_eq!(made, 0);
    assert!(result.is_ok());
    let mut bad = empty_config();
    bad.state = Some(DeviceState::Error);
    let (made, result) = drive(&bad, vec![]);
    assert_eq!(made, 0);
    assert!(matches!(result, Err(NetctlError::InvalidParameter(_))));
}
