//! The values that describe devices, access points, tunnels, connections and
//! routes, with the numbers that stand for their states on the wire.

use vstd::prelude::*;
use vstd::std_specs::convert::FromSpecImpl;
use crate::text::{clone_opt_string, concat3};

verus! {

/// Well-known name of the service.
pub const CR_DBUS_SERVICE: &'static str = "org.crrouter.NetworkControl";

/// Object path of the service root.
pub const CR_DBUS_PATH: &'static str = "/org/crrouter/NetworkControl";

/// Object path under which each device appears.
pub const CR_DEVICE_PATH_PREFIX: &'static str = "/org/crrouter/NetworkControl/Devices";

/// Object path of the WiFi interface.
pub const CR_WIFI_PATH: &'static str = "/org/crrouter/NetworkControl/WiFi";

/// Object path under which each VPN tunnel appears.
pub const CR_VPN_PATH_PREFIX: &'static str = "/org/crrouter/NetworkControl/VPN";

/// Object path of the connection interface, and prefix of each connection's path.
pub const CR_CONNECTION_PATH: &'static str = "/org/crrouter/NetworkControl/Connection";

/// Object path of the DHCP interface.
pub const CR_DHCP_PATH: &'static str = "/org/crrouter/NetworkControl/DHCP";

/// Object path of the DNS interface.
pub const CR_DNS_PATH: &'static str = "/org/crrouter/NetworkControl/DNS";

/// Object path of the routing interface.
pub const CR_ROUTING_PATH: &'static str = "/org/crrouter/NetworkControl/Routing";

/// Object path of the privilege interface.
pub const CR_PRIVILEGE_PATH: &'static str = "/org/crrouter/NetworkControl/Privilege";

/// Overall state of the network. A higher number means further along towards full connectivity.
#[derive(Clone, Copy, Debug, PartialEq, Eq, Structural)]
pub enum CRNetworkState {
    /// Nothing is known yet.
    Unknown,
    /// The service is starting.
    Initializing,
    /// No connection is up.
    Disconnected,
    /// A connection is being brought up.
    Connecting,
    /// Connected, link-local reach only.
    ConnectedLocal,
    /// Connected, site-wide reach.
    ConnectedSite,
    /// Connected, with internet access.
    ConnectedGlobal,
}

impl CRNetworkState {
    /// The number that stands for this value on the wire.
    pub open spec fn spec_code(self) -> u32 {
        match self {
            CRNetworkState::Unknown => 0,
            CRNetworkState::Initializing => 10,
            CRNetworkState::Disconnected => 20,
            CRNetworkState::Connecting => 30,
            CRNetworkState::ConnectedLocal => 40,
            CRNetworkState::ConnectedSite => 50,
            CRNetworkState::ConnectedGlobal => 60,
        }
    }

    /// The number that stands for this value on the wire.
    #[verifier::when_used_as_spec(spec_code)]
    pub fn code(self) -> (r: u32)
        ensures
            r == self.spec_code(),
    {
        match self {
            CRNetworkState::Unknown => 0,
            CRNetworkState::Initializing => 10,
            CRNetworkState::Disconnected => 20,
            CRNetworkState::Connecting => 30,
            CRNetworkState::ConnectedLocal => 40,
            CRNetworkState::ConnectedSite => 50,
            CRNetworkState::ConnectedGlobal => 60,
        }
    }

    /// The value that a wire number stands for, if it stands for one.
    pub open spec fn spec_from_code(c: u32) -> Option<Self> {
        if c == 0 {
            Some(CRNetworkState::Unknown)
        } else if c == 10 {
            Some(CRNetworkState::Initializing)
        } else if c == 20 {
            Some(CRNetworkState::Disconnected)
        } else if c == 30 {
            Some(CRNetworkState::Connecting)
        } else if c == 40 {
            Some(CRNetworkState::ConnectedLocal)
        } else if c == 50 {
            Some(CRNetworkState::ConnectedSite)
        } else if c == 60 {
            Some(CRNetworkState::ConnectedGlobal)
        } else {
            None
        }
    }

    /// The value that a wire number stands for, if it stands for one.
    #[verifier::when_used_as_spec(spec_from_code)]
    pub fn from_code(c: u32) -> (r: Option<Self>)
        ensures
            r == Self::spec_from_code(c),
    {
        if c == 0 {
            Some(CRNetworkState::Unknown)
        } else if c == 10 {
            Some(CRNetworkState::Initializing)
        } else if c == 20 {
            Some(CRNetworkState::Disconnected)
        } else if c == 30 {
            Some(CRNetworkState::Connecting)
        } else if c == 40 {
            Some(CRNetworkState::ConnectedLocal)
        } else if c == 50 {
            Some(CRNetworkState::ConnectedSite)
        } else if c == 60 {
            Some(CRNetworkState::ConnectedGlobal)
        } else {
            None
        }
    }

    /// A number that was written for a value reads back as that value, and
    /// a number that reads as a value is the one written for it.
    pub proof fn lemma_code_round_trip(self, c: u32)
        ensures
            Self::spec_from_code(self.spec_code()) == Some(self),
            Self::spec_from_code(c) == Some(self) ==> self.spec_code() == c,
    {
    }

    /// The variant's name as written in the source.
    pub open spec fn spec_name(self) -> Seq<char> {
        match self {
            CRNetworkState::Unknown => "Unknown"@,
            CRNetworkState::Initializing => "Initializing"@,
            CRNetworkState::Disconnected => "Disconnected"@,
            CRNetworkState::Connecting => "Connecting"@,
            CRNetworkState::ConnectedLocal => "ConnectedLocal"@,
            CRNetworkState::ConnectedSite => "ConnectedSite"@,
            CRNetworkState::ConnectedGlobal => "ConnectedGlobal"@,
        }
    }

    /// The variant's name as written in the source.
    pub fn name(self) -> (r: &'static str)
        ensures
            r@ == self.spec_name(),
    {
        match self {
            CRNetworkState::Unknown => "Unknown",
            CRNetworkState::Initializing => "Initializing",
            CRNetworkState::Disconnected => "Disconnected",
            CRNetworkState::Connecting => "Connecting",
            CRNetworkState::ConnectedLocal => "ConnectedLocal",
            CRNetworkState::ConnectedSite => "ConnectedSite",
            CRNetworkState::ConnectedGlobal => "ConnectedGlobal",
        }
    }
}

/// What a connectivity check found. A classification, not a scale.
#[derive(Clone, Copy, Debug, PartialEq, Eq, Structural)]
pub enum CRConnectivity {
    /// Not checked.
    Unknown,
    /// No connectivity.
    NoConnectivity,
    /// Local network only.
    Limited,
    /// Behind a captive portal.
    Portal,
    /// Internet access.
    Full,
}

impl CRConnectivity {
    /// The number that stands for this value on the wire.
    pub open spec fn spec_code(self) -> u32 {
        match self {
            CRConnectivity::Unknown => 0,
            CRConnectivity::NoConnectivity => 1,
            CRConnectivity::Limited => 2,
            CRConnectivity::Portal => 3,
            CRConnectivity::Full => 4,
        }
    }

    /// The number that stands for this value on the wire.
    #[verifier::when_used_as_spec(spec_code)]
    pub fn code(self) -> (r: u32)
        ensures
            r == self.spec_code(),
    {
        match self {
            CRConnectivity::Unknown => 0,
            CRConnectivity::NoConnectivity => 1,
            CRConnectivity::Limited => 2,
            CRConnectivity::Portal => 3,
            CRConnectivity::Full => 4,
        }
    }

    /// The value that a wire number stands for, if it stands for one.
    pub open spec fn spec_from_code(c: u32) -> Option<Self> {
        if c == 0 {
            Some(CRConnectivity::Unknown)
        } else if c == 1 {
            Some(CRConnectivity::NoConnectivity)
        } else if c == 2 {
            Some(CRConnectivity::Limited)
        } else if c == 3 {
            Some(CRConnectivity::Portal)
        } else if c == 4 {
            Some(CRConnectivity::Full)
        } else {
            None
        }
    }

    /// The value that a wire number stands for, if it stands for one.
    #[verifier::when_used_as_spec(spec_from_code)]
    pub fn from_code(c: u32) -> (r: Option<Self>)
        ensures
            r == Self::spec_from_code(c),
    {
        if c == 0 {
            Some(CRConnectivity::Unknown)
        } else if c == 1 {
            Some(CRConnectivity::NoConnectivity)
        } else if c == 2 {
            Some(CRConnectivity::Limited)
        } else if c == 3 {
            Some(CRConnectivity::Portal)
        } else if c == 4 {
            Some(CRConnectivity::Full)
        } else {
            None
        }
    }

    /// A number that was written for a value reads back as that value, and
    /// a number that reads as a value is the one written for it.
    pub proof fn lemma_code_round_trip(self, c: u32)
        ensures
            Self::spec_from_code(self.spec_code()) == Some(self),
            Self::spec_from_code(c) == Some(self) ==> self.spec_code() == c,
    {
    }

    /// The variant's name as written in the source.
    pub open spec fn spec_name(self) -> Seq<char> {
        match self {
            CRConnectivity::Unknown => "Unknown"@,
            CRConnectivity::NoConnectivity => "NoConnectivity"@,
            CRConnectivity::Limited => "Limited"@,
            CRConnectivity::Portal => "Portal"@,
            CRConnectivity::Full => "Full"@,
        }
    }

    /// The variant's name as written in the source.
    pub fn name(self) -> (r: &'static str)
        ensures
            r@ == self.spec_name(),
    {
        match self {
            CRConnectivity::Unknown => "Unknown",
            CRConnectivity::NoConnectivity => "NoConnectivity",
            CRConnectivity::Limited => "Limited",
            CRConnectivity::Portal => "Portal",
            CRConnectivity::Full => "Full",
        }
    }
}

/// Kind of a device as shown to clients.
#[derive(Clone, Copy, Debug, PartialEq, Eq, Structural)]
pub enum CRDeviceType {
    /// Not recognised.
    Unknown,
    /// Wired ethernet.
    Ethernet,
    /// Wireless adapter.
    WiFi,
    /// Bluetooth network device.
    Bluetooth,
    /// Bridge.
    Bridge,
    /// VLAN interface.
    Vlan,
    /// TUN or TAP interface.
    TunTap,
    /// VPN tunnel interface.
    Vpn,
    /// Loopback.
    Loopback,
}

impl CRDeviceType {
    /// The number that stands for this value on the wire.
    pub open spec fn spec_code(self) -> u32 {
        match self {
            CRDeviceType::Unknown => 0,
            CRDeviceType::Ethernet => 1,
            CRDeviceType::WiFi => 2,
            CRDeviceType::Bluetooth => 3,
            CRDeviceType::Bridge => 4,
            CRDeviceType::Vlan => 5,
            CRDeviceType::TunTap => 6,
            CRDeviceType::Vpn => 7,
            CRDeviceType::Loopback => 8,
        }
    }

    /// The number that stands for this value on the wire.
    #[verifier::when_used_as_spec(spec_code)]
    pub fn code(self) -> (r: u32)
        ensures
            r == self.spec_code(),
    {
        match self {
            CRDeviceType::Unknown => 0,
            CRDeviceType::Ethernet => 1,
            CRDeviceType::WiFi => 2,
            CRDeviceType::Bluetooth => 3,
            CRDeviceType::Bridge => 4,
            CRDeviceType::Vlan => 5,
            CRDeviceType::TunTap => 6,
            CRDeviceType::Vpn => 7,
            CRDeviceType::Loopback => 8,
        }
    }

    /// The value that a wire number stands for, if it stands for one.
    pub open spec fn spec_from_code(c: u32) -> Option<Self> {
        if c == 0 {
            Some(CRDeviceType::Unknown)
        } else if c == 1 {
            Some(CRDeviceType::Ethernet)
        } else if c == 2 {
            Some(CRDeviceType::WiFi)
        } else if c == 3 {
            Some(CRDeviceType::Bluetooth)
        } else if c == 4 {
            Some(CRDeviceType::Bridge)
        } else if c == 5 {
            Some(CRDeviceType::Vlan)
        } else if c == 6 {
            Some(CRDeviceType::TunTap)
        } else if c == 7 {
            Some(CRDeviceType::Vpn)
        } else if c == 8 {
            Some(CRDeviceType::Loopback)
        } else {
            None
        }
    }

    /// The value that a wire number stands for, if it stands for one.
    #[verifier::when_used_as_spec(spec_from_code)]
    pub fn from_code(c: u32) -> (r: Option<Self>)
        ensures
            r == Self::spec_from_code(c),
    {
        if c == 0 {
            Some(CRDeviceType::Unknown)
        } else if c == 1 {
            Some(CRDeviceType::Ethernet)
        } else if c == 2 {
            Some(CRDeviceType::WiFi)
        } else if c == 3 {
            Some(CRDeviceType::Bluetooth)
        } else if c == 4 {
            Some(CRDeviceType::Bridge)
        } else if c == 5 {
            Some(CRDeviceType::Vlan)
        } else if c == 6 {
            Some(CRDeviceType::TunTap)
        } else if c == 7 {
            Some(CRDeviceType::Vpn)
        } else if c == 8 {
            Some(CRDeviceType::Loopback)
        } else {
            None
        }
    }

    /// A number that was written for a value reads back as that value, and
    /// a number that reads as a value is the one written for it.
    pub proof fn lemma_code_round_trip(self, c: u32)
        ensures
            Self::spec_from_code(self.spec_code()) == Some(self),
            Self::spec_from_code(c) == Some(self) ==> self.spec_code() == c,
    {
    }

    /// The variant's name as written in the source.
    pub open spec fn spec_name(self) -> Seq<char> {
        match self {
            CRDeviceType::Unknown => "Unknown"@,
            CRDeviceType::Ethernet => "Ethernet"@,
            CRDeviceType::WiFi => "WiFi"@,
            CRDeviceType::Bluetooth => "Bluetooth"@,
            CRDeviceType::Bridge => "Bridge"@,
            CRDeviceType::Vlan => "Vlan"@,
            CRDeviceType::TunTap => "TunTap"@,
            CRDeviceType::Vpn => "Vpn"@,
            CRDeviceType::Loopback => "Loopback"@,
        }
    }

    /// The variant's name as written in the source.
    pub fn name(self) -> (r: &'static str)
        ensures
            r@ == self.spec_name(),
    {
        match self {
            CRDeviceType::Unknown => "Unknown",
            CRDeviceType::Ethernet => "Ethernet",
            CRDeviceType::WiFi => "WiFi",
            CRDeviceType::Bluetooth => "Bluetooth",
            CRDeviceType::Bridge => "Bridge",
            CRDeviceType::Vlan => "Vlan",
            CRDeviceType::TunTap => "TunTap",
            CRDeviceType::Vpn => "Vpn",
            CRDeviceType::Loopback => "Loopback",
        }
    }
}

/// Lifecycle state of a device. A higher number means further along; `Deactivating` and `Failed` follow `Activated`.
#[derive(Clone, Copy, Debug, PartialEq, Eq, Structural)]
pub enum CRDeviceState {
    /// Nothing is known yet.
    Unknown,
    /// Present but not managed.
    Unmanaged,
    /// Managed but not usable now.
    Unavailable,
    /// Usable, not connected.
    Disconnected,
    /// Getting ready to connect.
    Preparing,
    /// Being configured.
    Configuring,
    /// Waiting for credentials.
    NeedAuth,
    /// Requesting addresses.
    IpConfig,
    /// Checking reachability.
    IpCheck,
    /// Waiting for dependent connections.
    Secondaries,
    /// Connected.
    Activated,
    /// Being taken down.
    Deactivating,
    /// Activation failed.
    Failed,
}

impl CRDeviceState {
    /// The number that stands for this value on the wire.
    pub open spec fn spec_code(self) -> u32 {
        match self {
            CRDeviceState::Unknown => 0,
            CRDeviceState::Unmanaged => 10,
            CRDeviceState::Unavailable => 20,
            CRDeviceState::Disconnected => 30,
            CRDeviceState::Preparing => 40,
            CRDeviceState::Configuring => 50,
            CRDeviceState::NeedAuth => 60,
            CRDeviceState::IpConfig => 70,
            CRDeviceState::IpCheck => 80,
            CRDeviceState::Secondaries => 90,
            CRDeviceState::Activated => 100,
            CRDeviceState::Deactivating => 110,
            CRDeviceState::Failed => 120,
        }
    }

    /// The number that stands for this value on the wire.
    #[verifier::when_used_as_spec(spec_code)]
    pub fn code(self) -> (r: u32)
        ensures
            r == self.spec_code(),
    {
        match self {
            CRDeviceState::Unknown => 0,
            CRDeviceState::Unmanaged => 10,
            CRDeviceState::Unavailable => 20,
            CRDeviceState::Disconnected => 30,
            CRDeviceState::Preparing => 40,
            CRDeviceState::Configuring => 50,
            CRDeviceState::NeedAuth => 60,
            CRDeviceState::IpConfig => 70,
            CRDeviceState::IpCheck => 80,
            CRDeviceState::Secondaries => 90,
            CRDeviceState::Activated => 100,
            CRDeviceState::Deactivating => 110,
            CRDeviceState::Failed => 120,
        }
    }

    /// The value that a wire number stands for, if it stands for one.
    pub open spec fn spec_from_code(c: u32) -> Option<Self> {
        if c == 0 {
            Some(CRDeviceState::Unknown)
        } else if c == 10 {
            Some(CRDeviceState::Unmanaged)
        } else if c == 20 {
            Some(CRDeviceState::Unavailable)
        } else if c == 30 {
            Some(CRDeviceState::Disconnected)
        } else if c == 40 {
            Some(CRDeviceState::Preparing)
        } else if c == 50 {
            Some(CRDeviceState::Configuring)
        } else if c == 60 {
            Some(CRDeviceState::NeedAuth)
        } else if c == 70 {
            Some(CRDeviceState::IpConfig)
        } else if c == 80 {
            Some(CRDeviceState::IpCheck)
        } else if c == 90 {
            Some(CRDeviceState::Secondaries)
        } else if c == 100 {
            Some(CRDeviceState::Activated)
        } else if c == 110 {
            Some(CRDeviceState::Deactivating)
        } else if c == 120 {
            Some(CRDeviceState::Failed)
        } else {
            None
        }
    }

    /// The value that a wire number stands for, if it stands for one.
    #[verifier::when_used_as_spec(spec_from_code)]
    pub fn from_code(c: u32) -> (r: Option<Self>)
        ensures
            r == Self::spec_from_code(c),
    {
        if c == 0 {
            Some(CRDeviceState::Unknown)
        } else if c == 10 {
            Some(CRDeviceState::Unmanaged)
        } else if c == 20 {
            Some(CRDeviceState::Unavailable)
        } else if c == 30 {
            Some(CRDeviceState::Disconnected)
        } else if c == 40 {
            Some(CRDeviceState::Preparing)
        } else if c == 50 {
            Some(CRDeviceState::Configuring)
        } else if c == 60 {
            Some(CRDeviceState::NeedAuth)
        } else if c == 70 {
            Some(CRDeviceState::IpConfig)
        } else if c == 80 {
            Some(CRDeviceState::IpCheck)
        } else if c == 90 {
            Some(CRDeviceState::Secondaries)
        } else if c == 100 {
            Some(CRDeviceState::Activated)
        } else if c == 110 {
            Some(CRDeviceState::Deactivating)
        } else if c == 120 {
            Some(CRDeviceState::Failed)
        } else {
            None
        }
    }

    /// A number that was written for a value reads back as that value, and
    /// a number that reads as a value is the one written for it.
    pub proof fn lemma_code_round_trip(self, c: u32)
        ensures
            Self::spec_from_code(self.spec_code()) == Some(self),
            Self::spec_from_code(c) == Some(self) ==> self.spec_code() == c,
    {
    }

    /// The variant's name as written in the source.
    pub open spec fn spec_name(self) -> Seq<char> {
        match self {
            CRDeviceState::Unknown => "Unknown"@,
            CRDeviceState::Unmanaged => "Unmanaged"@,
            CRDeviceState::Unavailable => "Unavailable"@,
            CRDeviceState::Disconnected => "Disconnected"@,
            CRDeviceState::Preparing => "Preparing"@,
            CRDeviceState::Configuring => "Configuring"@,
            CRDeviceState::NeedAuth => "NeedAuth"@,
            CRDeviceState::IpConfig => "IpConfig"@,
            CRDeviceState::IpCheck => "IpCheck"@,
            CRDeviceState::Secondaries => "Secondaries"@,
            CRDeviceState::Activated => "Activated"@,
            CRDeviceState::Deactivating => "Deactivating"@,
            CRDeviceState::Failed => "Failed"@,
        }
    }

    /// The variant's name as written in the source.
    pub fn name(self) -> (r: &'static str)
        ensures
            r@ == self.spec_name(),
    {
        match self {
            CRDeviceState::Unknown => "Unknown",
            CRDeviceState::Unmanaged => "Unmanaged",
            CRDeviceState::Unavailable => "Unavailable",
            CRDeviceState::Disconnected => "Disconnected",
            CRDeviceState::Preparing => "Preparing",
            CRDeviceState::Configuring => "Configuring",
            CRDeviceState::NeedAuth => "NeedAuth",
            CRDeviceState::IpConfig => "IpConfig",
            CRDeviceState::IpCheck => "IpCheck",
            CRDeviceState::Secondaries => "Secondaries",
            CRDeviceState::Activated => "Activated",
            CRDeviceState::Deactivating => "Deactivating",
            CRDeviceState::Failed => "Failed",
        }
    }
}

/// How an access point is secured.
#[derive(Clone, Copy, Debug, PartialEq, Eq, Structural)]
pub enum CRWiFiSecurity {
    /// Open network, no security.
    Open,
    /// WEP.
    Wep,
    /// WPA.
    Wpa,
    /// WPA2.
    Wpa2,
    /// WPA3.
    Wpa3,
    /// 802.1X.
    Enterprise,
}

impl CRWiFiSecurity {
    /// The number that stands for this value on the wire.
    pub open spec fn spec_code(self) -> u32 {
        match self {
            CRWiFiSecurity::Open => 0,
            CRWiFiSecurity::Wep => 1,
            CRWiFiSecurity::Wpa => 2,
            CRWiFiSecurity::Wpa2 => 3,
            CRWiFiSecurity::Wpa3 => 4,
            CRWiFiSecurity::Enterprise => 5,
        }
    }

    /// The number that stands for this value on the wire.
    #[verifier::when_used_as_spec(spec_code)]
    pub fn code(self) -> (r: u32)
        ensures
            r == self.spec_code(),
    {
        match self {
            CRWiFiSecurity::Open => 0,
            CRWiFiSecurity::Wep => 1,
            CRWiFiSecurity::Wpa => 2,
            CRWiFiSecurity::Wpa2 => 3,
            CRWiFiSecurity::Wpa3 => 4,
            CRWiFiSecurity::Enterprise => 5,
        }
    }

    /// The value that a wire number stands for, if it stands for one.
    pub open spec fn spec_from_code(c: u32) -> Option<Self> {
        if c == 0 {
            Some(CRWiFiSecurity::Open)
        } else if c == 1 {
            Some(CRWiFiSecurity::Wep)
        } else if c == 2 {
            Some(CRWiFiSecurity::Wpa)
        } else if c == 3 {
            Some(CRWiFiSecurity::Wpa2)
        } else if c == 4 {
            Some(CRWiFiSecurity::Wpa3)
        } else if c == 5 {
            Some(CRWiFiSecurity::Enterprise)
        } else {
            None
        }
    }

    /// The value that a wire number stands for, if it stands for one.
    #[verifier::when_used_as_spec(spec_from_code)]
    pub fn from_code(c: u32) -> (r: Option<Self>)
        ensures
            r == Self::spec_from_code(c),
    {
        if c == 0 {
            Some(CRWiFiSecurity::Open)
        } else if c == 1 {
            Some(CRWiFiSecurity::Wep)
        } else if c == 2 {
            Some(CRWiFiSecurity::Wpa)
        } else if c == 3 {
            Some(CRWiFiSecurity::Wpa2)
        } else if c == 4 {
            Some(CRWiFiSecurity::Wpa3)
        } else if c == 5 {
            Some(CRWiFiSecurity::Enterprise)
        } else {
            None
        }
    }

    /// A number that was written for a value reads back as that value, and
    /// a number that reads as a value is the one written for it.
    pub proof fn lemma_code_round_trip(self, c: u32)
        ensures
            Self::spec_from_code(self.spec_code()) == Some(self),
            Self::spec_from_code(c) == Some(self) ==> self.spec_code() == c,
    {
    }

    /// The variant's name as written in the source.
    pub open spec fn spec_name(self) -> Seq<char> {
        match self {
            CRWiFiSecurity::Open => "Open"@,
            CRWiFiSecurity::Wep => "Wep"@,
            CRWiFiSecurity::Wpa => "Wpa"@,
            CRWiFiSecurity::Wpa2 => "Wpa2"@,
            CRWiFiSecurity::Wpa3 => "Wpa3"@,
            CRWiFiSecurity::Enterprise => "Enterprise"@,
        }
    }

    /// The variant's name as written in the source.
    pub fn name(self) -> (r: &'static str)
        ensures
            r@ == self.spec_name(),
    {
        match self {
            CRWiFiSecurity::Open => "Open",
            CRWiFiSecurity::Wep => "Wep",
            CRWiFiSecurity::Wpa => "Wpa",
            CRWiFiSecurity::Wpa2 => "Wpa2",
            CRWiFiSecurity::Wpa3 => "Wpa3",
            CRWiFiSecurity::Enterprise => "Enterprise",
        }
    }
}

/// Mode an access point or adapter operates in.
#[derive(Clone, Copy, Debug, PartialEq, Eq, Structural)]
pub enum CRWiFiMode {
    /// Not known.
    Unknown,
    /// Client of an access point.
    Infrastructure,
    /// Acting as access point.
    AccessPoint,
    /// Peer to peer.
    AdHoc,
}

impl CRWiFiMode {
    /// The number that stands for this value on the wire.
    pub open spec fn spec_code(self) -> u32 {
        match self {
            CRWiFiMode::Unknown => 0,
            CRWiFiMode::Infrastructure => 1,
            CRWiFiMode::AccessPoint => 2,
            CRWiFiMode::AdHoc => 3,
        }
    }

    /// The number that stands for this value on the wire.
    #[verifier::when_used_as_spec(spec_code)]
    pub fn code(self) -> (r: u32)
        ensures
            r == self.spec_code(),
    {
        match self {
            CRWiFiMode::Unknown => 0,
            CRWiFiMode::Infrastructure => 1,
            CRWiFiMode::AccessPoint => 2,
            CRWiFiMode::AdHoc => 3,
        }
    }

    /// The value that a wire number stands for, if it stands for one.
    pub open spec fn spec_from_code(c: u32) -> Option<Self> {
        if c == 0 {
            Some(CRWiFiMode::Unknown)
        } else if c == 1 {
            Some(CRWiFiMode::Infrastructure)
        } else if c == 2 {
            Some(CRWiFiMode::AccessPoint)
        } else if c == 3 {
            Some(CRWiFiMode::AdHoc)
        } else {
            None
        }
    }

    /// The value that a wire number stands for, if it stands for one.
    #[verifier::when_used_as_spec(spec_from_code)]
    pub fn from_code(c: u32) -> (r: Option<Self>)
        ensures
            r == Self::spec_from_code(c),
    {
        if c == 0 {
            Some(CRWiFiMode::Unknown)
        } else if c == 1 {
            Some(CRWiFiMode::Infrastructure)
        } else if c == 2 {
            Some(CRWiFiMode::AccessPoint)
        } else if c == 3 {
            Some(CRWiFiMode::AdHoc)
        } else {
            None
        }
    }

    /// A number that was written for a value reads back as that value, and
    /// a number that reads as a value is the one written for it.
    pub proof fn lemma_code_round_trip(self, c: u32)
        ensures
            Self::spec_from_code(self.spec_code()) == Some(self),
            Self::spec_from_code(c) == Some(self) ==> self.spec_code() == c,
    {
    }

    /// The variant's name as written in the source.
    pub open spec fn spec_name(self) -> Seq<char> {
        match self {
            CRWiFiMode::Unknown => "Unknown"@,
            CRWiFiMode::Infrastructure => "Infrastructure"@,
            CRWiFiMode::AccessPoint => "AccessPoint"@,
            CRWiFiMode::AdHoc => "AdHoc"@,
        }
    }

    /// The variant's name as written in the source.
    pub fn name(self) -> (r: &'static str)
        ensures
            r@ == self.spec_name(),
    {
        match self {
            CRWiFiMode::Unknown => "Unknown",
            CRWiFiMode::Infrastructure => "Infrastructure",
            CRWiFiMode::AccessPoint => "AccessPoint",
            CRWiFiMode::AdHoc => "AdHoc",
        }
    }
}

/// Protocol of a VPN tunnel.
#[derive(Clone, Copy, Debug, PartialEq, Eq, Structural)]
pub enum CRVpnType {
    /// Not known.
    Unknown,
    /// OpenVPN.
    OpenVpn,
    /// WireGuard.
    WireGuard,
    /// IPsec.
    IPsec,
    /// Tor through Arti.
    Arti,
}

impl CRVpnType {
    /// The number that stands for this value on the wire.
    pub open spec fn spec_code(self) -> u32 {
        match self {
            CRVpnType::Unknown => 0,
            CRVpnType::OpenVpn => 1,
            CRVpnType::WireGuard => 2,
            CRVpnType::IPsec => 3,
            CRVpnType::Arti => 4,
        }
    }

    /// The number that stands for this value on the wire.
    #[verifier::when_used_as_spec(spec_code)]
    pub fn code(self) -> (r: u32)
        ensures
            r == self.spec_code(),
    {
        match self {
            CRVpnType::Unknown => 0,
            CRVpnType::OpenVpn => 1,
            CRVpnType::WireGuard => 2,
            CRVpnType::IPsec => 3,
            CRVpnType::Arti => 4,
        }
    }

    /// The value that a wire number stands for, if it stands for one.
    pub open spec fn spec_from_code(c: u32) -> Option<Self> {
        if c == 0 {
            Some(CRVpnType::Unknown)
        } else if c == 1 {
            Some(CRVpnType::OpenVpn)
        } else if c == 2 {
            Some(CRVpnType::WireGuard)
        } else if c == 3 {
            Some(CRVpnType::IPsec)
        } else if c == 4 {
            Some(CRVpnType::Arti)
        } else {
            None
        }
    }

    /// The value that a wire number stands for, if it stands for one.
    #[verifier::when_used_as_spec(spec_from_code)]
    pub fn from_code(c: u32) -> (r: Option<Self>)
        ensures
            r == Self::spec_from_code(c),
    {
        if c == 0 {
            Some(CRVpnType::Unknown)
        } else if c == 1 {
            Some(CRVpnType::OpenVpn)
        } else if c == 2 {
            Some(CRVpnType::WireGuard)
        } else if c == 3 {
            Some(CRVpnType::IPsec)
        } else if c == 4 {
            Some(CRVpnType::Arti)
        } else {
            None
        }
    }

    /// A number that was written for a value reads back as that value, and
    /// a number that reads as a value is the one written for it.
    pub proof fn lemma_code_round_trip(self, c: u32)
        ensures
            Self::spec_from_code(self.spec_code()) == Some(self),
            Self::spec_from_code(c) == Some(self) ==> self.spec_code() == c,
    {
    }

    /// The variant's name as written in the source.
    pub open spec fn spec_name(self) -> Seq<char> {
        match self {
            CRVpnType::Unknown => "Unknown"@,
            CRVpnType::OpenVpn => "OpenVpn"@,
            CRVpnType::WireGuard => "WireGuard"@,
            CRVpnType::IPsec => "IPsec"@,
            CRVpnType::Arti => "Arti"@,
        }
    }

    /// The variant's name as written in the source.
    pub fn name(self) -> (r: &'static str)
        ensures
            r@ == self.spec_name(),
    {
        match self {
            CRVpnType::Unknown => "Unknown",
            CRVpnType::OpenVpn => "OpenVpn",
            CRVpnType::WireGuard => "WireGuard",
            CRVpnType::IPsec => "IPsec",
            CRVpnType::Arti => "Arti",
        }
    }
}

/// Lifecycle state of a VPN tunnel.
#[derive(Clone, Copy, Debug, PartialEq, Eq, Structural)]
pub enum CRVpnState {
    /// Nothing is known yet.
    Unknown,
    /// Down.
    Disconnected,
    /// Being brought up.
    Connecting,
    /// Up.
    Connected,
    /// Being taken down.
    Disconnecting,
    /// Bringing it up failed.
    Failed,
}

impl CRVpnState {
    /// The number that stands for this value on the wire.
    pub open spec fn spec_code(self) -> u32 {
        match self {
            CRVpnState::Unknown => 0,
            CRVpnState::Disconnected => 1,
            CRVpnState::Connecting => 2,
            CRVpnState::Connected => 3,
            CRVpnState::Disconnecting => 4,
            CRVpnState::Failed => 5,
        }
    }

    /// The number that stands for this value on the wire.
    #[verifier::when_used_as_spec(spec_code)]
    pub fn code(self) -> (r: u32)
        ensures
            r == self.spec_code(),
    {
        match self {
            CRVpnState::Unknown => 0,
            CRVpnState::Disconnected => 1,
            CRVpnState::Connecting => 2,
            CRVpnState::Connected => 3,
            CRVpnState::Disconnecting => 4,
            CRVpnState::Failed => 5,
        }
    }

    /// The value that a wire number stands for, if it stands for one.
    pub open spec fn spec_from_code(c: u32) -> Option<Self> {
        if c == 0 {
            Some(CRVpnState::Unknown)
        } else if c == 1 {
            Some(CRVpnState::Disconnected)
        } else if c == 2 {
            Some(CRVpnState::Connecting)
        } else if c == 3 {
            Some(CRVpnState::Connected)
        } else if c == 4 {
            Some(CRVpnState::Disconnecting)
        } else if c == 5 {
            Some(CRVpnState::Failed)
        } else {
            None
        }
    }

    /// The value that a wire number stands for, if it stands for one.
    #[verifier::when_used_as_spec(spec_from_code)]
    pub fn from_code(c: u32) -> (r: Option<Self>)
        ensures
            r == Self::spec_from_code(c),
    {
        if c == 0 {
            Some(CRVpnState::Unknown)
        } else if c == 1 {
            Some(CRVpnState::Disconnected)
        } else if c == 2 {
            Some(CRVpnState::Connecting)
        } else if c == 3 {
            Some(CRVpnState::Connected)
        } else if c == 4 {
            Some(CRVpnState::Disconnecting)
        } else if c == 5 {
            Some(CRVpnState::Failed)
        } else {
            None
        }
    }

    /// A number that was written for a value reads back as that value, and
    /// a number that reads as a value is the one written for it.
    pub proof fn lemma_code_round_trip(self, c: u32)
        ensures
            Self::spec_from_code(self.spec_code()) == Some(self),
            Self::spec_from_code(c) == Some(self) ==> self.spec_code() == c,
    {
    }

    /// The variant's name as written in the source.
    pub open spec fn spec_name(self) -> Seq<char> {
        match self {
            CRVpnState::Unknown => "Unknown"@,
            CRVpnState::Disconnected => "Disconnected"@,
            CRVpnState::Connecting => "Connecting"@,
            CRVpnState::Connected => "Connected"@,
            CRVpnState::Disconnecting => "Disconnecting"@,
            CRVpnState::Failed => "Failed"@,
        }
    }

    /// The variant's name as written in the source.
    pub fn name(self) -> (r: &'static str)
        ensures
            r@ == self.spec_name(),
    {
        match self {
            CRVpnState::Unknown => "Unknown",
            CRVpnState::Disconnected => "Disconnected",
            CRVpnState::Connecting => "Connecting",
            CRVpnState::Connected => "Connected",
            CRVpnState::Disconnecting => "Disconnecting",
            CRVpnState::Failed => "Failed",
        }
    }
}

/// Kind of a connection profile.
#[derive(Clone, Copy, Debug, PartialEq, Eq, Structural)]
pub enum CRConnectionType {
    /// Not known.
    Unknown,
    /// Wired ethernet.
    Ethernet,
    /// Wireless.
    WiFi,
    /// VPN.
    Vpn,
    /// Bridge.
    Bridge,
    /// Bond.
    Bond,
    /// VLAN.
    Vlan,
    /// Loopback.
    Loopback,
}

impl CRConnectionType {
    /// The number that stands for this value on the wire.
    pub open spec fn spec_code(self) -> u32 {
        match self {
            CRConnectionType::Unknown => 0,
            CRConnectionType::Ethernet => 1,
            CRConnectionType::WiFi => 2,
            CRConnectionType::Vpn => 3,
            CRConnectionType::Bridge => 4,
            CRConnectionType::Bond => 5,
            CRConnectionType::Vlan => 6,
            CRConnectionType::Loopback => 7,
        }
    }

    /// The number that stands for this value on the wire.
    #[verifier::when_used_as_spec(spec_code)]
    pub fn code(self) -> (r: u32)
        ensures
            r == self.spec_code(),
    {
        match self {
            CRConnectionType::Unknown => 0,
            CRConnectionType::Ethernet => 1,
            CRConnectionType::WiFi => 2,
            CRConnectionType::Vpn => 3,
            CRConnectionType::Bridge => 4,
            CRConnectionType::Bond => 5,
            CRConnectionType::Vlan => 6,
            CRConnectionType::Loopback => 7,
        }
    }

    /// The value that a wire number stands for, if it stands for one.
    pub open spec fn spec_from_code(c: u32) -> Option<Self> {
        if c == 0 {
            Some(CRConnectionType::Unknown)
        } else if c == 1 {
            Some(CRConnectionType::Ethernet)
        } else if c == 2 {
            Some(CRConnectionType::WiFi)
        } else if c == 3 {
            Some(CRConnectionType::Vpn)
        } else if c == 4 {
            Some(CRConnectionType::Bridge)
        } else if c == 5 {
            Some(CRConnectionType::Bond)
        } else if c == 6 {
            Some(CRConnectionType::Vlan)
        } else if c == 7 {
            Some(CRConnectionType::Loopback)
        } else {
            None
        }
    }

    /// The value that a wire number stands for, if it stands for one.
    #[verifier::when_used_as_spec(spec_from_code)]
    pub fn from_code(c: u32) -> (r: Option<Self>)
        ensures
            r == Self::spec_from_code(c),
    {
        if c == 0 {
            Some(CRConnectionType::Unknown)
        } else if c == 1 {
            Some(CRConnectionType::Ethernet)
        } else if c == 2 {
            Some(CRConnectionType::WiFi)
        } else if c == 3 {
            Some(CRConnectionType::Vpn)
        } else if c == 4 {
            Some(CRConnectionType::Bridge)
        } else if c == 5 {
            Some(CRConnectionType::Bond)
        } else if c == 6 {
            Some(CRConnectionType::Vlan)
        } else if c == 7 {
            Some(CRConnectionType::Loopback)
        } else {
            None
        }
    }

    /// A number that was written for a value reads back as that value, and
    /// a number that reads as a value is the one written for it.
    pub proof fn lemma_code_round_trip(self, c: u32)
        ensures
            Self::spec_from_code(self.spec_code()) == Some(self),
            Self::spec_from_code(c) == Some(self) ==> self.spec_code() == c,
    {
    }

    /// The variant's name as written in the source.
    pub open spec fn spec_name(self) -> Seq<char> {
        match self {
            CRConnectionType::Unknown => "Unknown"@,
            CRConnectionType::Ethernet => "Ethernet"@,
            CRConnectionType::WiFi => "WiFi"@,
            CRConnectionType::Vpn => "Vpn"@,
            CRConnectionType::Bridge => "Bridge"@,
            CRConnectionType::Bond => "Bond"@,
            CRConnectionType::Vlan => "Vlan"@,
            CRConnectionType::Loopback => "Loopback"@,
        }
    }

    /// The variant's name as written in the source.
    pub fn name(self) -> (r: &'static str)
        ensures
            r@ == self.spec_name(),
    {
        match self {
            CRConnectionType::Unknown => "Unknown",
            CRConnectionType::Ethernet => "Ethernet",
            CRConnectionType::WiFi => "WiFi",
            CRConnectionType::Vpn => "Vpn",
            CRConnectionType::Bridge => "Bridge",
            CRConnectionType::Bond => "Bond",
            CRConnectionType::Vlan => "Vlan",
            CRConnectionType::Loopback => "Loopback",
        }
    }
}

/// Lifecycle state of a connection profile. A new profile is `Unknown` until it is first activated.
#[derive(Clone, Copy, Debug, PartialEq, Eq, Structural)]
pub enum CRConnectionState {
    /// Never activated.
    Unknown,
    /// Being brought up.
    Activating,
    /// Up.
    Activated,
    /// Being taken down.
    Deactivating,
    /// Down.
    Deactivated,
}

impl CRConnectionState {
    /// The number that stands for this value on the wire.
    pub open spec fn spec_code(self) -> u32 {
        match self {
            CRConnectionState::Unknown => 0,
            CRConnectionState::Activating => 1,
            CRConnectionState::Activated => 2,
            CRConnectionState::Deactivating => 3,
            CRConnectionState::Deactivated => 4,
        }
    }

    /// The number that stands for this value on the wire.
    #[verifier::when_used_as_spec(spec_code)]
    pub fn code(self) -> (r: u32)
        ensures
            r == self.spec_code(),
    {
        match self {
            CRConnectionState::Unknown => 0,
            CRConnectionState::Activating => 1,
            CRConnectionState::Activated => 2,
            CRConnectionState::Deactivating => 3,
            CRConnectionState::Deactivated => 4,
        }
    }

    /// The value that a wire number stands for, if it stands for one.
    pub open spec fn spec_from_code(c: u32) -> Option<Self> {
        if c == 0 {
            Some(CRConnectionState::Unknown)
        } else if c == 1 {
            Some(CRConnectionState::Activating)
        } else if c == 2 {
            Some(CRConnectionState::Activated)
        } else if c == 3 {
            Some(CRConnectionState::Deactivating)
        } else if c == 4 {
            Some(CRConnectionState::Deactivated)
        } else {
            None
        }
    }

    /// The value that a wire number stands for, if it stands for one.
    #[verifier::when_used_as_spec(spec_from_code)]
    pub fn from_code(c: u32) -> (r: Option<Self>)
        ensures
            r == Self::spec_from_code(c),
    {
        if c == 0 {
            Some(CRConnectionState::Unknown)
        } else if c == 1 {
            Some(CRConnectionState::Activating)
        } else if c == 2 {
            Some(CRConnectionState::Activated)
        } else if c == 3 {
            Some(CRConnectionState::Deactivating)
        } else if c == 4 {
            Some(CRConnectionState::Deactivated)
        } else {
            None
        }
    }

    /// A number that was written for a value reads back as that value, and
    /// a number that reads as a value is the one written for it.
    pub proof fn lemma_code_round_trip(self, c: u32)
        ensures
            Self::spec_from_code(self.spec_code()) == Some(self),
            Self::spec_from_code(c) == Some(self) ==> self.spec_code() == c,
    {
    }

    /// The variant's name as written in the source.
    pub open spec fn spec_name(self) -> Seq<char> {
        match self {
            CRConnectionState::Unknown => "Unknown"@,
            CRConnectionState::Activating => "Activating"@,
            CRConnectionState::Activated => "Activated"@,
            CRConnectionState::Deactivating => "Deactivating"@,
            CRConnectionState::Deactivated => "Deactivated"@,
        }
    }

    /// The variant's name as written in the source.
    pub fn name(self) -> (r: &'static str)
        ensures
            r@ == self.spec_name(),
    {
        match self {
            CRConnectionState::Unknown => "Unknown",
            CRConnectionState::Activating => "Activating",
            CRConnectionState::Activated => "Activated",
            CRConnectionState::Deactivating => "Deactivating",
            CRConnectionState::Deactivated => "Deactivated",
        }
    }
}

/// Kind of a route, numbered as the kernel numbers them.
#[derive(Clone, Copy, Debug, PartialEq, Eq, Structural)]
pub enum CRRouteType {
    /// Unspecified.
    Unspec,
    /// Gateway or direct route.
    Unicast,
    /// Accepted locally.
    Local,
    /// Accepted locally as broadcast.
    Broadcast,
    /// Accepted locally as broadcast, sent as unicast.
    Anycast,
    /// Multicast route.
    Multicast,
    /// Dropped silently.
    Blackhole,
    /// Destination unreachable.
    Unreachable,
    /// Administratively prohibited.
    Prohibit,
}

impl CRRouteType {
    /// The number that stands for this value on the wire.
    pub open spec fn spec_code(self) -> u32 {
        match self {
            CRRouteType::Unspec => 0,
            CRRouteType::Unicast => 1,
            CRRouteType::Local => 2,
            CRRouteType::Broadcast => 3,
            CRRouteType::Anycast => 4,
            CRRouteType::Multicast => 5,
            CRRouteType::Blackhole => 6,
            CRRouteType::Unreachable => 7,
            CRRouteType::Prohibit => 8,
        }
    }

    /// The number that stands for this value on the wire.
    #[verifier::when_used_as_spec(spec_code)]
    pub fn code(self) -> (r: u32)
        ensures
            r == self.spec_code(),
    {
        match self {
            CRRouteType::Unspec => 0,
            CRRouteType::Unicast => 1,
            CRRouteType::Local => 2,
            CRRouteType::Broadcast => 3,
            CRRouteType::Anycast => 4,
            CRRouteType::Multicast => 5,
            CRRouteType::Blackhole => 6,
            CRRouteType::Unreachable => 7,
            CRRouteType::Prohibit => 8,
        }
    }

    /// The value that a wire number stands for, if it stands for one.
    pub open spec fn spec_from_code(c: u32) -> Option<Self> {
        if c == 0 {
            Some(CRRouteType::Unspec)
        } else if c == 1 {
            Some(CRRouteType::Unicast)
        } else if c == 2 {
            Some(CRRouteType::Local)
        } else if c == 3 {
            Some(CRRouteType::Broadcast)
        } else if c == 4 {
            Some(CRRouteType::Anycast)
        } else if c == 5 {
            Some(CRRouteType::Multicast)
        } else if c == 6 {
            Some(CRRouteType::Blackhole)
        } else if c == 7 {
            Some(CRRouteType::Unreachable)
        } else if c == 8 {
            Some(CRRouteType::Prohibit)
        } else {
            None
        }
    }

    /// The value that a wire number stands for, if it stands for one.
    #[verifier::when_used_as_spec(spec_from_code)]
    pub fn from_code(c: u32) -> (r: Option<Self>)
        ensures
            r == Self::spec_from_code(c),
    {
        if c == 0 {
            Some(CRRouteType::Unspec)
        } else if c == 1 {
            Some(CRRouteType::Unicast)
        } else if c == 2 {
            Some(CRRouteType::Local)
        } else if c == 3 {
            Some(CRRouteType::Broadcast)
        } else if c == 4 {
            Some(CRRouteType::Anycast)
        } else if c == 5 {
            Some(CRRouteType::Multicast)
        } else if c == 6 {
            Some(CRRouteType::Blackhole)
        } else if c == 7 {
            Some(CRRouteType::Unreachable)
        } else if c == 8 {
            Some(CRRouteType::Prohibit)
        } else {
            None
        }
    }

    /// A number that was written for a value reads back as that value, and
    /// a number that reads as a value is the one written for it.
    pub proof fn lemma_code_round_trip(self, c: u32)
        ensures
            Self::spec_from_code(self.spec_code()) == Some(self),
            Self::spec_from_code(c) == Some(self) ==> self.spec_code() == c,
    {
    }

    /// The variant's name as written in the source.
    pub open spec fn spec_name(self) -> Seq<char> {
        match self {
            CRRouteType::Unspec => "Unspec"@,
            CRRouteType::Unicast => "Unicast"@,
            CRRouteType::Local => "Local"@,
            CRRouteType::Broadcast => "Broadcast"@,
            CRRouteType::Anycast => "Anycast"@,
            CRRouteType::Multicast => "Multicast"@,
            CRRouteType::Blackhole => "Blackhole"@,
            CRRouteType::Unreachable => "Unreachable"@,
            CRRouteType::Prohibit => "Prohibit"@,
        }
    }

    /// The variant's name as written in the source.
    pub fn name(self) -> (r: &'static str)
        ensures
            r@ == self.spec_name(),
    {
        match self {
            CRRouteType::Unspec => "Unspec",
            CRRouteType::Unicast => "Unicast",
            CRRouteType::Local => "Local",
            CRRouteType::Broadcast => "Broadcast",
            CRRouteType::Anycast => "Anycast",
            CRRouteType::Multicast => "Multicast",
            CRRouteType::Blackhole => "Blackhole",
            CRRouteType::Unreachable => "Unreachable",
            CRRouteType::Prohibit => "Prohibit",
        }
    }
}

impl From<CRDeviceType> for u32 {
    fn from(v: CRDeviceType) -> (r: u32) {
        v.code()
    }
}

impl FromSpecImpl<CRDeviceType> for u32 {
    open spec fn obeys_from_spec() -> bool {
        true
    }

    /// A device type converts to its wire number.
    open spec fn from_spec(v: CRDeviceType) -> u32 {
        v.spec_code()
    }
}

impl From<CRDeviceState> for u32 {
    fn from(v: CRDeviceState) -> (r: u32) {
        v.code()
    }
}

impl FromSpecImpl<CRDeviceState> for u32 {
    open spec fn obeys_from_spec() -> bool {
        true
    }

    /// A device state converts to its wire number.
    open spec fn from_spec(v: CRDeviceState) -> u32 {
        v.spec_code()
    }
}

impl From<CRNetworkState> for u32 {
    fn from(v: CRNetworkState) -> (r: u32) {
        v.code()
    }
}

impl FromSpecImpl<CRNetworkState> for u32 {
    open spec fn obeys_from_spec() -> bool {
        true
    }

    /// A network state converts to its wire number.
    open spec fn from_spec(v: CRNetworkState) -> u32 {
        v.spec_code()
    }
}

impl From<CRConnectivity> for u32 {
    fn from(v: CRConnectivity) -> (r: u32) {
        v.code()
    }
}

impl FromSpecImpl<CRConnectivity> for u32 {
    open spec fn obeys_from_spec() -> bool {
        true
    }

    /// A connectivity converts to its wire number.
    open spec fn from_spec(v: CRConnectivity) -> u32 {
        v.spec_code()
    }
}

impl From<CRRouteType> for u32 {
    fn from(v: CRRouteType) -> (r: u32) {
        v.code()
    }
}

impl FromSpecImpl<CRRouteType> for u32 {
    open spec fn obeys_from_spec() -> bool {
        true
    }

    /// A route type converts to its wire number.
    open spec fn from_spec(v: CRRouteType) -> u32 {
        v.spec_code()
    }
}

impl CRDeviceState {
    /// Whether `self` comes before `other` on the activation scale.
    pub open spec fn spec_precedes(self, other: CRDeviceState) -> bool {
        self.spec_code() < other.spec_code()
    }

    /// Whether `self` comes before `other` on the activation scale.
    #[verifier::when_used_as_spec(spec_precedes)]
    pub fn precedes(self, other: CRDeviceState) -> (r: bool)
        ensures
            r == self.spec_precedes(other),
    {
        self.code() < other.code()
    }
}

impl CRNetworkState {
    /// Whether `self` comes before `other` on the connectivity scale.
    pub open spec fn spec_precedes(self, other: CRNetworkState) -> bool {
        self.spec_code() < other.spec_code()
    }

    /// Whether `self` comes before `other` on the connectivity scale.
    #[verifier::when_used_as_spec(spec_precedes)]
    pub fn precedes(self, other: CRNetworkState) -> (r: bool)
        ensures
            r == self.spec_precedes(other),
    {
        self.code() < other.code()
    }
}

/// A device as shown to clients.
#[derive(Debug)]
pub struct CRDeviceInfo {
    /// Object path of the device.
    pub path: String,
    /// Interface name.
    pub interface: String,
    /// Kind of device.
    pub device_type: CRDeviceType,
    /// Lifecycle state.
    pub state: CRDeviceState,
    /// First IPv4 address seen.
    pub ipv4_address: Option<String>,
    /// First IPv6 address seen.
    pub ipv6_address: Option<String>,
    /// Hardware address.
    pub hw_address: Option<String>,
    /// MTU.
    pub mtu: u32,
}

/// A `CRDeviceInfo` with its texts as character sequences.
pub struct DeviceInfoView {
    pub path: Seq<char>,
    pub interface: Seq<char>,
    pub device_type: CRDeviceType,
    pub state: CRDeviceState,
    pub ipv4_address: Option<Seq<char>>,
    pub ipv6_address: Option<Seq<char>>,
    pub hw_address: Option<Seq<char>>,
    pub mtu: u32,
}

/// The view of an optional string.
pub open spec fn opt_view(o: Option<String>) -> Option<Seq<char>> {
    match o {
        Some(s) => Some(s@),
        None => None,
    }
}

impl View for CRDeviceInfo {
    type V = DeviceInfoView;

    open spec fn view(&self) -> DeviceInfoView {
        DeviceInfoView {
            path: self.path@,
            interface: self.interface@,
            device_type: self.device_type,
            state: self.state,
            ipv4_address: opt_view(self.ipv4_address),
            ipv6_address: opt_view(self.ipv6_address),
            hw_address: opt_view(self.hw_address),
            mtu: self.mtu,
        }
    }
}

/// Object path of the device with interface name `interface`.
pub open spec fn device_path(interface: Seq<char>) -> Seq<char> {
    CR_DEVICE_PATH_PREFIX@ + "/"@ + interface
}

/// Object path of the VPN tunnel called `name`.
pub open spec fn vpn_path(name: Seq<char>) -> Seq<char> {
    CR_VPN_PATH_PREFIX@ + "/"@ + name
}

/// Object path of the connection with identifier `uuid`.
pub open spec fn connection_path(uuid: Seq<char>) -> Seq<char> {
    CR_CONNECTION_PATH@ + "/"@ + uuid
}

/// What a freshly described device looks like: disconnected, no addresses,
/// MTU 1500, and a path made from its interface name.
pub open spec fn new_device_info(interface: Seq<char>, device_type: CRDeviceType) -> DeviceInfoView {
    DeviceInfoView {
        path: device_path(interface),
        interface,
        device_type,
        state: CRDeviceState::Disconnected,
        ipv4_address: None,
        ipv6_address: None,
        hw_address: None,
        mtu: 1500,
    }
}

impl CRDeviceInfo {
    /// A device of the given kind with default values.
    pub fn new(interface: String, device_type: CRDeviceType) -> (r: Self)
        ensures
            r@ == new_device_info(interface@, device_type),
    {
        let path = concat3(CR_DEVICE_PATH_PREFIX, "/", interface.as_str());
        CRDeviceInfo {
            path,
            interface,
            device_type,
            state: CRDeviceState::Disconnected,
            ipv4_address: None,
            ipv6_address: None,
            hw_address: None,
            mtu: 1500,
        }
    }
}

impl Clone for CRDeviceInfo {
    fn clone(&self) -> (r: Self)
        ensures
            r@ == self@,
    {
        CRDeviceInfo {
            path: self.path.clone(),
            interface: self.interface.clone(),
            device_type: self.device_type,
            state: self.state,
            ipv4_address: clone_opt_string(&self.ipv4_address),
            ipv6_address: clone_opt_string(&self.ipv6_address),
            hw_address: clone_opt_string(&self.hw_address),
            mtu: self.mtu,
        }
    }
}

/// One access point found by a scan.
#[derive(Debug)]
pub struct CRAccessPointInfo {
    /// Network name.
    pub ssid: String,
    /// Hardware address of the access point.
    pub bssid: String,
    /// Signal strength, 0 to 100.
    pub strength: u8,
    /// How the network is secured.
    pub security: CRWiFiSecurity,
    /// Frequency in MHz.
    pub frequency: u32,
    /// Operating mode.
    pub mode: CRWiFiMode,
}

/// A `CRAccessPointInfo` with its texts as character sequences.
pub struct AccessPointView {
    pub ssid: Seq<char>,
    pub bssid: Seq<char>,
    pub strength: u8,
    pub security: CRWiFiSecurity,
    pub frequency: u32,
    pub mode: CRWiFiMode,
}

impl View for CRAccessPointInfo {
    type V = AccessPointView;

    open spec fn view(&self) -> AccessPointView {
        AccessPointView {
            ssid: self.ssid@,
            bssid: self.bssid@,
            strength: self.strength,
            security: self.security,
            frequency: self.frequency,
            mode: self.mode,
        }
    }
}

impl Clone for CRAccessPointInfo {
    fn clone(&self) -> (r: Self)
        ensures
            r@ == self@,
    {
        CRAccessPointInfo {
            ssid: self.ssid.clone(),
            bssid: self.bssid.clone(),
            strength: self.strength,
            security: self.security,
            frequency: self.frequency,
            mode: self.mode,
        }
    }
}

/// A VPN tunnel as shown to clients.
#[derive(Debug)]
pub struct CRVpnInfo {
    /// Name of the tunnel.
    pub name: String,
    /// Object path of the tunnel.
    pub path: String,
    /// Protocol.
    pub vpn_type: CRVpnType,
    /// Lifecycle state.
    pub state: CRVpnState,
    /// Local address while connected.
    pub local_ip: Option<String>,
    /// Address of the remote end.
    pub remote_address: Option<String>,
}

/// A `CRVpnInfo` with its texts as character sequences.
pub struct VpnInfoView {
    pub name: Seq<char>,
    pub path: Seq<char>,
    pub vpn_type: CRVpnType,
    pub state: CRVpnState,
    pub local_ip: Option<Seq<char>>,
    pub remote_address: Option<Seq<char>>,
}

impl View for CRVpnInfo {
    type V = VpnInfoView;

    open spec fn view(&self) -> VpnInfoView {
        VpnInfoView {
            name: self.name@,
            path: self.path@,
            vpn_type: self.vpn_type,
            state: self.state,
            local_ip: opt_view(self.local_ip),
            remote_address: opt_view(self.remote_address),
        }
    }
}

/// What a freshly described tunnel looks like: disconnected, no addresses,
/// and a path made from its name.
pub open spec fn new_vpn_info(name: Seq<char>, vpn_type: CRVpnType) -> VpnInfoView {
    VpnInfoView {
        name,
        path: vpn_path(name),
        vpn_type,
        state: CRVpnState::Disconnected,
        local_ip: None,
        remote_address: None,
    }
}

impl CRVpnInfo {
    /// A tunnel of the given protocol with default values.
    pub fn new(name: String, vpn_type: CRVpnType) -> (r: Self)
        ensures
            r@ == new_vpn_info(name@, vpn_type),
    {
        let path = concat3(CR_VPN_PATH_PREFIX, "/", name.as_str());
        CRVpnInfo {
            name,
            path,
            vpn_type,
            state: CRVpnState::Disconnected,
            local_ip: None,
            remote_address: None,
        }
    }
}

impl Clone for CRVpnInfo {
    fn clone(&self) -> (r: Self)
        ensures
            r@ == self@,
    {
        CRVpnInfo {
            name: self.name.clone(),
            path: self.path.clone(),
            vpn_type: self.vpn_type,
            state: self.state,
            local_ip: clone_opt_string(&self.local_ip),
            remote_address: clone_opt_string(&self.remote_address),
        }
    }
}

/// A connection profile.
#[derive(Debug)]
pub struct CRConnectionInfo {
    /// Generated identifier, unique among all profiles.
    pub uuid: String,
    /// Display name given by the user; need not be unique.
    pub id: String,
    /// Kind of connection.
    pub conn_type: CRConnectionType,
    /// Lifecycle state.
    pub state: CRConnectionState,
    /// Whether the profile is brought up without being asked.
    pub autoconnect: bool,
    /// Device the profile is bound to while active.
    pub device: Option<String>,
    /// Object path of the profile.
    pub path: String,
}

/// A `CRConnectionInfo` with its texts as character sequences.
pub struct ConnectionInfoView {
    pub uuid: Seq<char>,
    pub id: Seq<char>,
    pub conn_type: CRConnectionType,
    pub state: CRConnectionState,
    pub autoconnect: bool,
    pub device: Option<Seq<char>>,
    pub path: Seq<char>,
}

impl View for CRConnectionInfo {
    type V = ConnectionInfoView;

    open spec fn view(&self) -> ConnectionInfoView {
        ConnectionInfoView {
            uuid: self.uuid@,
            id: self.id@,
            conn_type: self.conn_type,
            state: self.state,
            autoconnect: self.autoconnect,
            device: opt_view(self.device),
            path: self.path@,
        }
    }
}

/// What a new profile looks like: never activated, autoconnect on, bound to
/// no device, and a path made from its identifier.
pub open spec fn new_connection_info(
    uuid: Seq<char>,
    id: Seq<char>,
    conn_type: CRConnectionType,
) -> ConnectionInfoView {
    ConnectionInfoView {
        uuid,
        id,
        conn_type,
        state: CRConnectionState::Unknown,
        autoconnect: true,
        device: None,
        path: connection_path(uuid),
    }
}

impl CRConnectionInfo {
    /// A profile of the given kind with default values.
    pub fn new(uuid: String, id: String, conn_type: CRConnectionType) -> (r: Self)
        ensures
            r@ == new_connection_info(uuid@, id@, conn_type),
    {
        let path = concat3(CR_CONNECTION_PATH, "/", uuid.as_str());
        CRConnectionInfo {
            uuid,
            id,
            conn_type,
            state: CRConnectionState::Unknown,
            autoconnect: true,
            device: None,
            path,
        }
    }
}

impl Clone for CRConnectionInfo {
    fn clone(&self) -> (r: Self)
        ensures
            r@ == self@,
    {
        CRConnectionInfo {
            uuid: self.uuid.clone(),
            id: self.id.clone(),
            conn_type: self.conn_type,
            state: self.state,
            autoconnect: self.autoconnect,
            device: clone_opt_string(&self.device),
            path: self.path.clone(),
        }
    }
}

/// Number of the main routing table.
pub const MAIN_ROUTE_TABLE: u32 = 254;

/// One entry of the routing table.
#[derive(Debug)]
pub struct CRRouteInfo {
    /// Destination prefix, or `default`.
    pub destination: String,
    /// Next hop.
    pub gateway: Option<String>,
    /// Interface the route goes out on.
    pub interface: Option<String>,
    /// Metric; lower wins.
    pub metric: u32,
    /// Kind of route.
    pub route_type: CRRouteType,
    /// Routing table the entry belongs to.
    pub table: u32,
    /// Scope of the destination.
    pub scope: u32,
}

/// A `CRRouteInfo` with its texts as character sequences.
pub struct RouteInfoView {
    pub destination: Seq<char>,
    pub gateway: Option<Seq<char>>,
    pub interface: Option<Seq<char>>,
    pub metric: u32,
    pub route_type: CRRouteType,
    pub table: u32,
    pub scope: u32,
}

impl View for CRRouteInfo {
    type V = RouteInfoView;

    open spec fn view(&self) -> RouteInfoView {
        RouteInfoView {
            destination: self.destination@,
            gateway: opt_view(self.gateway),
            interface: opt_view(self.interface),
            metric: self.metric,
            route_type: self.route_type,
            table: self.table,
            scope: self.scope,
        }
    }
}

/// What a new route looks like: a unicast route in the main table with
/// metric 0, global scope, and neither gateway nor interface.
pub open spec fn new_route_info(destination: Seq<char>) -> RouteInfoView {
    RouteInfoView {
        destination,
        gateway: None,
        interface: None,
        metric: 0,
        route_type: CRRouteType::Unicast,
        table: MAIN_ROUTE_TABLE,
        scope: 0,
    }
}

impl CRRouteInfo {
    /// A route to `destination` with default values.
    pub fn new(destination: String) -> (r: Self)
        ensures
            r@ == new_route_info(destination@),
    {
        CRRouteInfo {
            destination,
            gateway: None,
            interface: None,
            metric: 0,
            route_type: CRRouteType::Unicast,
            table: MAIN_ROUTE_TABLE,
            scope: 0,
        }
    }
}

impl Clone for CRRouteInfo {
    fn clone(&self) -> (r: Self)
        ensures
            r@ == self@,
    {
        CRRouteInfo {
            destination: self.destination.clone(),
            gateway: clone_opt_string(&self.gateway),
            interface: clone_opt_string(&self.interface),
            metric: self.metric,
            route_type: self.route_type,
            table: self.table,
            scope: self.scope,
        }
    }
}

} // verus!
