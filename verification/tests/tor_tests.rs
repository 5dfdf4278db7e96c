use netctl::error::NetctlError;
use netctl::settings::{SettingItem, SettingValue, Settings};
use netctl::tor::{
    ConnectionConfig, PluginState, TorConnectionStatus, TorPlugin, TorReply,
};
use netctl::tor_server::{
    default_data_dir, default_true, CRTorServer, OnionServiceConfig, OnionStatus, ServerConfig,
};

fn config(uuid: &str, kind: &str, settings: Settings) -> ConnectionConfig {
    ConnectionConfig {
        uuid: uuid.to_string(),
        name: "tor".to_string(),
        conn_type: kind.to_string(),
        settings,
    }
}

fn with_port(port: u64) -> Settings {
    let mut s = Settings::new();
    s.push("socks_port".to_string(), SettingValue::U64(port));
    s
}

fn with_countries(items: Vec<SettingItem>) -> Settings {
    let mut s = Settings::new();
    s.push("exit_countries".to_string(), SettingValue::List(items));
    s
}

#[test]
fn tor_settings_are_checked() {
    assert!(TorPlugin::validate_tor_config(&Settings::new()).is_ok());
    assert!(TorPlugin::validate_tor_config(&with_port(65535)).is_ok());
    let e = TorPlugin::validate_tor_config(&with_port(65536)).unwrap_err();
    assert!(matches!(e, NetctlError::InvalidParameter(_)));
    assert_eq!(e.message(), "socks_port must be 0-65535");
    let mut text_port = Settings::new();
    text_port.push("socks_port".to_string(), SettingValue::Str("99999".to_string()));
    assert!(TorPlugin::validate_tor_config(&text_port).is_ok());

    let ok = with_countries(vec![
        SettingItem::Str("de".to_string()),
        SettingItem::Other,
        SettingItem::Str("US".to_string()),
    ]);
    assert!(TorPlugin::validate_tor_config(&ok).is_ok());
    let bad = with_countries(vec![
        SettingItem::Str("de".to_string()),
        SettingItem::Str("deu".to_string()),
        SettingItem::Str("x".to_string()),
    ]);
    let e = TorPlugin::validate_tor_config(&bad).unwrap_err();
    assert_eq!(e.message(), "Invalid country code: deu. Use ISO 3166-1 alpha-2");
    // Two bytes, not two characters.
    let e = TorPlugin::validate_tor_config(&with_countries(vec![SettingItem::Str("äö".to_string())]))
        .unwrap_err();
    assert_eq!(e.message(), "Invalid country code: äö. Use ISO 3166-1 alpha-2");
    assert!(TorPlugin::validate_tor_config(&with_countries(vec![SettingItem::Str("ä".to_string())])).is_ok());
    let mut not_a_list = Settings::new();
    not_a_list.push("exit_countries".to_string(), SettingValue::Str("germany".to_string()));
    assert!(TorPlugin::validate_tor_config(&not_a_list).is_ok());
}

#[test]
fn socks_port_comes_from_the_settings() {
    assert_eq!(TorPlugin::get_socks_port(&Settings::new()), 9050);
    assert_eq!(TorPlugin::get_socks_port(&with_port(9150)), 9150);
    assert_eq!(TorPlugin::get_socks_port(&with_port(0)), 0);
    assert_eq!(TorPlugin::get_socks_port(&with_port(65536 + 80)), 80);
    let mut other = Settings::new();
    other.push("socks_port".to_string(), SettingValue::U32(1080));
    assert_eq!(TorPlugin::get_socks_port(&other), 9050);
}

#[test]
fn configurations_need_a_known_kind() {
    let plugin = TorPlugin::with_defaults();
    assert_eq!(plugin.get_data_dir(), "/var/lib/netctl/tor");
    assert_eq!(plugin.metadata().id, "tor");
    assert_eq!(plugin.metadata().dbus_path.as_deref(), Some("/org/crrouter/NetworkControl/Tor"));
    assert!(plugin.validate_config(&config("u", "tor", Settings::new())).is_ok());
    assert!(plugin.validate_config(&config("u", "vpn", Settings::new())).is_ok());
    let e = plugin.validate_config(&config("u", "wifi", Settings::new())).unwrap_err();
    assert!(matches!(e, NetctlError::InvalidParameter(_)));
    assert_eq!(e.message(), "Invalid connection type: wifi");
    let e = plugin.validate_config(&config("u", "tor", with_port(70000))).unwrap_err();
    assert_eq!(e.message(), "socks_port must be 0-65535");
}

#[test]
fn activation_without_backend_is_not_supported() {
    let mut plugin = TorPlugin::new("/tmp/tor".to_string());
    assert_eq!(plugin.state(), PluginState::Uninitialized);
    assert!(plugin.initialize().is_ok());
    assert_eq!(plugin.state(), PluginState::Ready);
    assert!(!plugin.is_enabled());
    assert!(plugin.enable().is_ok());
    assert!(plugin.is_enabled());
    assert!(plugin.disable().is_ok());
    assert!(!plugin.is_enabled());

    assert_eq!(plugin.create_connection(config("u1", "tor", Settings::new())).unwrap(), "u1");
    let e = plugin.activate("u1").unwrap_err();
    assert!(matches!(e, NetctlError::NotSupported(_)));
    assert_eq!(e.message(), "Tor support not compiled in. Rebuild with --features vpn-tor");
    assert_eq!(plugin.get_status("u1").unwrap(), PluginState::Activating);
    let props = plugin.dbus_properties().unwrap();
    assert_eq!(props.status, "Error");
    assert_eq!(props.error_message.as_deref(), Some("Tor support not compiled in"));
    assert_eq!(props.socks_address, None);
    assert!(matches!(plugin.activate("u2"), Err(NetctlError::NotFound(_))));
}

#[test]
fn activation_goes_through_bootstrap() {
    let mut plugin = TorPlugin::with_defaults();
    plugin.set_backend_available(true);
    assert!(plugin.dbus_properties().is_none());
    plugin.create_connection(config("u1", "tor", with_port(9150))).unwrap();
    plugin.create_connection(config("u2", "tor", Settings::new())).unwrap();
    assert_eq!(plugin.get_status("u1").unwrap(), PluginState::Ready);

    assert!(plugin.activate("u2").is_ok());
    assert_eq!(plugin.get_status("u2").unwrap(), PluginState::Activating);
    let e = plugin.bootstrap_client("u2", Err("no network".to_string()), 5).unwrap_err();
    assert!(matches!(e, NetctlError::ServiceError(_)));
    assert_eq!(e.message(), "Tor bootstrap failed: no network");
    assert_eq!(plugin.get_status("u2").unwrap(), PluginState::Activating);

    assert!(plugin.activate("u2").is_ok());
    assert!(plugin.bootstrap_client("u2", Ok(()), 100).is_ok());
    assert_eq!(plugin.get_status("u2").unwrap(), PluginState::Active);
    assert_eq!(plugin.get_stats("u2", 160).unwrap().uptime, 60);
    assert_eq!(plugin.get_stats("u2", 90).unwrap().uptime, 0);
    assert_eq!(plugin.get_stats("u1", 160).unwrap().uptime, 0);
    assert!(matches!(plugin.get_stats("u3", 0), Err(NetctlError::NotFound(_))));

    // Properties show the first connection, the address the first active one.
    let props = plugin.dbus_properties().unwrap();
    assert_eq!(props.status, "Disconnected");
    assert_eq!(props.socks_port, 9150);
    assert_eq!(props.socks_address, None);
    match plugin.handle_dbus_method("GetSocksAddress", &Settings::new()).unwrap() {
        TorReply::SocksAddress { address } => assert_eq!(address.as_deref(), Some("127.0.0.1:9050")),
        other => panic!("unexpected: {:?}", other),
    }
    match plugin.handle_dbus_method("GetBootstrapProgress", &Settings::new()).unwrap() {
        TorReply::BootstrapProgress { progress, status } => {
            assert_eq!(progress, 0);
            assert_eq!(status, "Disconnected");
        }
        other => panic!("unexpected: {:?}", other),
    }

    assert!(plugin.deactivate("u2").is_ok());
    assert_eq!(plugin.get_status("u2").unwrap(), PluginState::Ready);
    match plugin.handle_dbus_method("GetSocksAddress", &Settings::new()).unwrap() {
        TorReply::SocksAddress { address } => assert_eq!(address, None),
        other => panic!("unexpected: {:?}", other),
    }
    assert!(matches!(plugin.deactivate("u3"), Err(NetctlError::NotFound(_))));
    assert!(matches!(plugin.bootstrap_client("u3", Ok(()), 0), Err(NetctlError::NotFound(_))));
}

#[test]
fn methods_are_answered() {
    let mut plugin = TorPlugin::with_defaults();
    match plugin.handle_dbus_method("GetBootstrapProgress", &Settings::new()).unwrap() {
        TorReply::BootstrapProgress { progress, status } => {
            assert_eq!(progress, 0);
            assert_eq!(status, "Disconnected");
        }
        other => panic!("unexpected: {:?}", other),
    }
    assert!(matches!(
        plugin.handle_dbus_method("NewIdentity", &Settings::new()),
        Ok(TorReply::Success)
    ));
    let mut params = Settings::new();
    params.push("country".to_string(), SettingValue::Str("de".to_string()));
    assert!(matches!(plugin.handle_dbus_method("SetExitCountry", &params), Ok(TorReply::Success)));
    let e = plugin.handle_dbus_method("SetExitCountry", &Settings::new()).unwrap_err();
    assert!(matches!(e, NetctlError::InvalidParameter(_)));
    assert_eq!(e.message(), "country parameter required");
    let e = plugin.handle_dbus_method("Reboot", &params).unwrap_err();
    assert!(matches!(e, NetctlError::NotSupported(_)));
    assert_eq!(e.message(), "Method 'Reboot' not supported");

    plugin.set_backend_available(true);
    plugin.create_connection(config("u1", "tor", Settings::new())).unwrap();
    plugin.activate("u1").unwrap();
    plugin.bootstrap_client("u1", Ok(()), 1).unwrap();
    match plugin.handle_dbus_method("GetBootstrapProgress", &Settings::new()).unwrap() {
        TorReply::BootstrapProgress { progress, status } => {
            assert_eq!(progress, 100);
            assert_eq!(status, TorConnectionStatus::Connected.name());
        }
        other => panic!("unexpected: {:?}", other),
    }
    let props = plugin.dbus_properties().unwrap();
    assert_eq!(props.bootstrap_progress, 100);
    assert_eq!(props.socks_address.as_deref(), Some("127.0.0.1:9050"));
}

#[test]
fn connections_are_updated_listed_and_deleted() {
    let mut plugin = TorPlugin::with_defaults();
    plugin.set_backend_available(true);
    plugin.create_connection(config("u1", "tor", Settings::new())).unwrap();
    plugin.create_connection(config("u2", "vpn", with_port(1080))).unwrap();
    let listed = plugin.list_connections().unwrap();
    assert_eq!(listed.len(), 2);
    assert_eq!(listed[0].uuid, "u1");
    assert_eq!(listed[1].conn_type, "vpn");

    assert!(plugin.update_connection("u1", config("u1", "tor", with_port(9999))).is_ok());
    assert_eq!(plugin.dbus_properties().unwrap().socks_port, 9999);
    assert!(matches!(
        plugin.update_connection("u1", config("u1", "wifi", Settings::new())),
        Err(NetctlError::InvalidParameter(_))
    ));
    assert!(matches!(
        plugin.update_connection("u9", config("u9", "tor", Settings::new())),
        Err(NetctlError::NotFound(_))
    ));
    // A bad configuration is reported before a missing connection.
    assert!(matches!(
        plugin.update_connection("u9", config("u9", "tor", with_port(70000))),
        Err(NetctlError::InvalidParameter(_))
    ));

    plugin.activate("u1").unwrap();
    plugin.bootstrap_client("u1", Ok(()), 1).unwrap();
    assert!(plugin.delete_connection("u1").is_ok());
    assert!(matches!(plugin.get_status("u1"), Err(NetctlError::NotFound(_))));
    assert!(plugin.delete_connection("u1").is_ok());
    assert_eq!(plugin.list_connections().unwrap().len(), 1);

    plugin.activate("u2").unwrap();
    plugin.bootstrap_client("u2", Ok(()), 1).unwrap();
    assert!(plugin.shutdown().is_ok());
    assert_eq!(plugin.state(), PluginState::Uninitialized);
    assert_eq!(plugin.get_status("u2").unwrap(), PluginState::Ready);
    assert_eq!(plugin.dbus_properties().unwrap().status, "Disconnected");
}

#[test]
fn onion_defaults() {
    assert!(default_true());
    assert_eq!(default_data_dir(), "/var/lib/netctl/tor-server");
    let config = ServerConfig::default();
    assert_eq!(config.data_dir, "");
    assert!(config.services.is_empty());
    assert_eq!(OnionStatus::Stopped.code(), 0);
    assert_eq!(OnionStatus::Starting.code(), 1);
    assert_eq!(OnionStatus::Running.code(), 2);
    assert_eq!(OnionStatus::Stopping.code(), 3);
    assert_eq!(OnionStatus::Error.code(), 4);
    assert_eq!(OnionStatus::from_code(2), Some(OnionStatus::Running));
    assert_eq!(OnionStatus::from_code(5), None);
    assert_eq!(OnionStatus::Running.name(), "Running");
}

#[test]
fn onion_addresses_are_placeholders() {
    let filler = "x".repeat(56);
    assert_eq!(CRTorServer::generate_onion_address("web"), format!("web{}.onion", filler));
    assert_eq!(
        CRTorServer::generate_onion_address("mywebsite123"),
        format!("mywebsit{}.onion", filler)
    );
    assert_eq!(CRTorServer::generate_onion_address("12345678"), format!("12345678{}.onion", filler));
    assert_eq!(CRTorServer::generate_onion_address(""), format!("{}.onion", filler));
}

#[test]
fn onion_services_run_their_course() {
    let mut server = CRTorServer::new(ServerConfig {
        data_dir: "/tmp/onion".to_string(),
        services: vec![],
    });
    assert_eq!(server.get_data_dir(), "/tmp/onion");
    server.load_service(OnionServiceConfig {
        name: "preset".to_string(),
        local_port: 22,
        virtual_port: 22,
        version_3: default_true(),
        authorized_clients: vec![],
    });
    assert_eq!(server.create_service("web", 8080, 80).unwrap(), true);
    let e = server.create_service("web", 1, 2).unwrap_err();
    assert!(matches!(e, NetctlError::AlreadyExists(_)));
    assert_eq!(e.message(), "Service 'web' already exists");
    assert_eq!(server.list_services(), vec!["preset".to_string(), "web".to_string()]);

    let st = server.get_service_status("web").unwrap();
    assert_eq!(st.name, "web");
    assert_eq!(st.status, OnionStatus::Stopped);
    assert_eq!(st.local_port, 8080);
    assert_eq!(st.virtual_port, 80);
    assert_eq!(st.onion_address, None);
    assert_eq!(st.error_message, None);
    let e = server.get_onion_address("web").unwrap_err();
    assert!(matches!(e, NetctlError::InvalidState(_)));
    assert_eq!(e.message(), "Service not running");

    assert!(server.needs_directory("web"));
    assert!(!server.needs_directory("nope"));
    let e = server.start_service("web", Err("read-only".to_string())).unwrap_err();
    assert!(matches!(e, NetctlError::ServiceError(_)));
    assert_eq!(e.message(), "Failed to create directory: read-only");
    let st = server.get_service_status("web").unwrap();
    assert_eq!(st.status, OnionStatus::Error);
    assert_eq!(st.error_message.as_deref(), Some("Failed to create directory: read-only"));

    let addr = server.start_service("web", Ok(())).unwrap();
    assert_eq!(addr, CRTorServer::generate_onion_address("web"));
    assert_eq!(server.get_onion_address("web").unwrap(), addr);
    let st = server.get_service_status("web").unwrap();
    assert_eq!(st.status, OnionStatus::Running);
    assert_eq!(st.error_message.as_deref(), Some("STUB: Not a real onion service"));
    assert!(!server.needs_directory("web"));
    // Starting a running service keeps it as it is, whatever the directory says.
    assert_eq!(server.start_service("web", Err("ignored".to_string())).unwrap(), addr);
    let e = server.regenerate_address("web").unwrap_err();
    assert!(matches!(e, NetctlError::InvalidState(_)));
    assert_eq!(e.message(), "Stop service before regenerating address");

    assert_eq!(server.stop_service("web").unwrap(), true);
    let st = server.get_service_status("web").unwrap();
    assert_eq!(st.status, OnionStatus::Stopped);
    assert_eq!(st.onion_address, None);
    assert_eq!(st.error_message, None);
    assert_eq!(server.regenerate_address("web").unwrap(), format!("web{}.onion", "y".repeat(52)));

    assert_eq!(server.remove_service("web").unwrap(), true);
    for r in [
        server.remove_service("web").map(|_| ()),
        server.stop_service("web").map(|_| ()),
        server.start_service("web", Ok(())).map(|_| ()),
        server.get_service_status("web").map(|_| ()),
        server.get_onion_address("web").map(|_| ()),
        server.regenerate_address("web").map(|_| ()),
        server.list_authorized_clients("web").map(|_| ()),
        server.add_authorized_client("web", "k").map(|_| ()),
        server.remove_authorized_client("web", "k").map(|_| ()),
    ] {
        let e = r.unwrap_err();
        assert!(matches!(e, NetctlError::NotFound(_)));
        assert_eq!(e.message(), "Service 'web' not found");
    }
    assert_eq!(server.list_services(), vec!["preset".to_string()]);
}

#[test]
fn onion_clients_are_authorized_by_key() {
    let mut server = CRTorServer::new(ServerConfig::default());
    server.create_service("web", 8080, 80).unwrap();
    let key_a = "A".repeat(52);
    let key_b = "B".repeat(52);
    let e = server.add_authorized_client("web", "short").unwrap_err();
    assert!(matches!(e, NetctlError::InvalidParameter(_)));
    assert_eq!(e.message(), "Invalid public key format");
    assert!(server.add_authorized_client("web", &"C".repeat(53)).is_err());
    assert_eq!(server.add_authorized_client("web", &key_a).unwrap(), true);
    assert_eq!(server.add_authorized_client("web", &key_b).unwrap(), true);
    assert_eq!(server.add_authorized_client("web", &key_a).unwrap(), true);
    assert_eq!(
        server.list_authorized_clients("web").unwrap(),
        vec![key_a.clone(), key_b.clone(), key_a.clone()]
    );
    assert_eq!(server.remove_authorized_client("web", &key_a).unwrap(), true);
    assert_eq!(server.list_authorized_clients("web").unwrap(), vec![key_b.clone()]);
    assert_eq!(server.remove_authorized_client("web", &key_a).unwrap(), false);
    assert_eq!(server.list_authorized_clients("web").unwrap(), vec![key_b]);
}
