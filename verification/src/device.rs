//! Devices: what kind each one is, what it can do, and the registry of the
//! ones that discovery has seen.

use vstd::prelude::*;
use crate::error::{invalid_parameter, not_found, ErrorView, NetctlError};
use crate::interface::{address_strings, InterfaceInfo, InterfaceInfoView, InterfaceStats};
use crate::registry::{order_with, order_without, view_all, Registry};
use crate::text::{
    clone_opt_string, clone_strings, contains_char, contains_str, contains_string, has_prefix,
    has_substring, lowercase, parse_number, parse_unsigned, split_once_char, starts_with, str_eq,
    to_lowercase, to_uppercase, trim, trimmed, uppercase, views,
};
use crate::types::opt_view;

verus! {

/// Kind of a network device.
#[derive(Clone, Copy, Debug, PartialEq, Eq, Structural)]
pub enum DeviceType {
    /// Physical ethernet adapter.
    Ethernet,
    /// Wireless adapter.
    Wifi,
    /// Loopback.
    Loopback,
    /// Bridge.
    Bridge,
    /// VLAN interface.
    Vlan,
    /// TUN or TAP interface.
    TunTap,
    /// One end of a virtual ethernet pair.
    Veth,
    /// Bond or team.
    Bond,
    /// VPN tunnel interface.
    Vpn,
    /// Interface of a container network.
    Container,
    /// PPP interface.
    Ppp,
    /// Anything else.
    Unknown,
}

impl DeviceType {
    /// The lower-case name the kind goes by in requests and responses.
    pub open spec fn spec_name(self) -> Seq<char> {
        match self {
            DeviceType::Ethernet => "ethernet"@,
            DeviceType::Wifi => "wifi"@,
            DeviceType::Loopback => "loopback"@,
            DeviceType::Bridge => "bridge"@,
            DeviceType::Vlan => "vlan"@,
            DeviceType::TunTap => "tuntap"@,
            DeviceType::Veth => "veth"@,
            DeviceType::Bond => "bond"@,
            DeviceType::Vpn => "vpn"@,
            DeviceType::Container => "container"@,
            DeviceType::Ppp => "ppp"@,
            DeviceType::Unknown => "unknown"@,
        }
    }

    /// The lower-case name the kind goes by in requests and responses.
    pub fn name(self) -> (r: &'static str)
        ensures
            r@ == self.spec_name(),
    {
        match self {
            DeviceType::Ethernet => "ethernet",
            DeviceType::Wifi => "wifi",
            DeviceType::Loopback => "loopback",
            DeviceType::Bridge => "bridge",
            DeviceType::Vlan => "vlan",
            DeviceType::TunTap => "tuntap",
            DeviceType::Veth => "veth",
            DeviceType::Bond => "bond",
            DeviceType::Vpn => "vpn",
            DeviceType::Container => "container",
            DeviceType::Ppp => "ppp",
            DeviceType::Unknown => "unknown",
        }
    }

    /// Whether devices of this kind are virtual, and so may be deleted.
    pub open spec fn spec_is_virtual(self) -> bool {
        self == DeviceType::Veth || self == DeviceType::Bridge || self == DeviceType::Vlan || self
            == DeviceType::TunTap || self == DeviceType::Bond
    }

    /// Whether devices of this kind are virtual, and so may be deleted.
    #[verifier::when_used_as_spec(spec_is_virtual)]
    pub fn is_virtual(self) -> (r: bool)
        ensures
            r == self.spec_is_virtual(),
    {
        match self {
            DeviceType::Veth | DeviceType::Bridge | DeviceType::Vlan | DeviceType::TunTap
            | DeviceType::Bond => true,
            _ => false,
        }
    }

    /// The kind that a lower-case filter word selects. `unknown` selects none.
    pub open spec fn from_filter_word(word: Seq<char>) -> Option<DeviceType> {
        if word == "wifi"@ {
            Some(DeviceType::Wifi)
        } else if word == "ethernet"@ {
            Some(DeviceType::Ethernet)
        } else if word == "loopback"@ {
            Some(DeviceType::Loopback)
        } else if word == "bridge"@ {
            Some(DeviceType::Bridge)
        } else if word == "vlan"@ {
            Some(DeviceType::Vlan)
        } else if word == "tuntap"@ {
            Some(DeviceType::TunTap)
        } else if word == "veth"@ {
            Some(DeviceType::Veth)
        } else if word == "bond"@ {
            Some(DeviceType::Bond)
        } else if word == "vpn"@ {
            Some(DeviceType::Vpn)
        } else if word == "container"@ {
            Some(DeviceType::Container)
        } else if word == "ppp"@ {
            Some(DeviceType::Ppp)
        } else {
            None
        }
    }

    /// The kind that the lower-case word `word` selects, or `InvalidParameter`
    /// naming `given`, the word as the caller wrote it.
    pub fn from_lowercase(word: &str, given: &str) -> (r: Result<DeviceType, NetctlError>)
        ensures
            match Self::from_filter_word(word@) {
                Some(t) => r == Ok::<DeviceType, NetctlError>(t),
                None => r matches Err(e) && e@ == ErrorView::InvalidParameter(
                    "Unknown device type: "@ + given@,
                ),
            },
    {
        if str_eq(word, "wifi") {
            Ok(DeviceType::Wifi)
        } else if str_eq(word, "ethernet") {
            Ok(DeviceType::Ethernet)
        } else if str_eq(word, "loopback") {
            Ok(DeviceType::Loopback)
        } else if str_eq(word, "bridge") {
            Ok(DeviceType::Bridge)
        } else if str_eq(word, "vlan") {
            Ok(DeviceType::Vlan)
        } else if str_eq(word, "tuntap") {
            Ok(DeviceType::TunTap)
        } else if str_eq(word, "veth") {
            Ok(DeviceType::Veth)
        } else if str_eq(word, "bond") {
            Ok(DeviceType::Bond)
        } else if str_eq(word, "vpn") {
            Ok(DeviceType::Vpn)
        } else if str_eq(word, "container") {
            Ok(DeviceType::Container)
        } else if str_eq(word, "ppp") {
            Ok(DeviceType::Ppp)
        } else {
            Err(invalid_parameter("Unknown device type: ", given))
        }
    }

    /// The kind that a filter word selects, whatever its letter case.
    pub fn parse(type_str: &str) -> (r: Result<DeviceType, NetctlError>)
        ensures
            match Self::from_filter_word(lowercase(type_str@)) {
                Some(t) => r == Ok::<DeviceType, NetctlError>(t),
                None => r matches Err(e) && e@ == ErrorView::InvalidParameter(
                    "Unknown device type: "@ + type_str@,
                ),
            },
    {
        let lower = to_lowercase(type_str);
        Self::from_lowercase(lower.as_str(), type_str)
    }
}

/// Administrative state of a device.
#[derive(Clone, Copy, Debug, PartialEq, Eq, Structural)]
pub enum DeviceState {
    /// Up and operational.
    Up,
    /// Down.
    Down,
    /// Present but not managed.
    Unmanaged,
    /// Not usable now, for example blocked by rfkill.
    Unavailable,
    /// In an error state.
    Error,
    /// Not known.
    Unknown,
}

impl DeviceState {
    /// The variant's name as written in the source.
    pub open spec fn spec_name(self) -> Seq<char> {
        match self {
            DeviceState::Up => "Up"@,
            DeviceState::Down => "Down"@,
            DeviceState::Unmanaged => "Unmanaged"@,
            DeviceState::Unavailable => "Unavailable"@,
            DeviceState::Error => "Error"@,
            DeviceState::Unknown => "Unknown"@,
        }
    }

    /// The variant's name as written in the source.
    pub fn name(self) -> (r: &'static str)
        ensures
            r@ == self.spec_name(),
    {
        match self {
            DeviceState::Up => "Up",
            DeviceState::Down => "Down",
            DeviceState::Unmanaged => "Unmanaged",
            DeviceState::Unavailable => "Unavailable",
            DeviceState::Error => "Error",
            DeviceState::Unknown => "Unknown",
        }
    }
}

/// What a device can do.
#[derive(Debug)]
pub struct DeviceCapabilities {
    /// Supports WiFi operations.
    pub wifi: bool,
    /// Can act as access point.
    pub access_point: bool,
    /// Can be part of a bridge.
    pub bridge: bool,
    /// Supports VLAN tagging.
    pub vlan: bool,
    /// Smallest and largest MTU.
    pub mtu_range: Option<(u32, u32)>,
    /// Link speeds in Mbps.
    pub speeds: Vec<u32>,
    /// Supports Wake-on-LAN.
    pub wake_on_lan: bool,
}

/// `DeviceCapabilities` with its list as a sequence.
pub struct CapabilitiesView {
    pub wifi: bool,
    pub access_point: bool,
    pub bridge: bool,
    pub vlan: bool,
    pub mtu_range: Option<(u32, u32)>,
    pub speeds: Seq<u32>,
    pub wake_on_lan: bool,
}

impl View for DeviceCapabilities {
    type V = CapabilitiesView;

    open spec fn view(&self) -> CapabilitiesView {
        CapabilitiesView {
            wifi: self.wifi,
            access_point: self.access_point,
            bridge: self.bridge,
            vlan: self.vlan,
            mtu_range: self.mtu_range,
            speeds: self.speeds@,
            wake_on_lan: self.wake_on_lan,
        }
    }
}

/// No capability at all.
pub open spec fn no_capabilities() -> CapabilitiesView {
    CapabilitiesView {
        wifi: false,
        access_point: false,
        bridge: false,
        vlan: false,
        mtu_range: None,
        speeds: Seq::empty(),
        wake_on_lan: false,
    }
}

impl Default for DeviceCapabilities {
    fn default() -> (r: Self)
        ensures
            r@ == no_capabilities(),
    {
        DeviceCapabilities {
            wifi: false,
            access_point: false,
            bridge: false,
            vlan: false,
            mtu_range: None,
            speeds: Vec::new(),
            wake_on_lan: false,
        }
    }
}

impl Clone for DeviceCapabilities {
    fn clone(&self) -> (r: Self)
        ensures
            r@ == self@,
    {
        let mut speeds: Vec<u32> = Vec::new();
        let mut i: usize = 0;
        while i < self.speeds.len()
            invariant
                i <= self.speeds.len(),
                speeds@ == self.speeds@.subrange(0, i as int),
            decreases self.speeds.len() - i,
        {
            speeds.push(self.speeds[i]);
            i += 1;
        }
        assert(speeds@ =~= self.speeds@);
        DeviceCapabilities {
            wifi: self.wifi,
            access_point: self.access_point,
            bridge: self.bridge,
            vlan: self.vlan,
            mtu_range: self.mtu_range,
            speeds,
            wake_on_lan: self.wake_on_lan,
        }
    }
}

/// Traffic counters of a device.
#[derive(Clone, Copy, Debug, PartialEq, Eq)]
pub struct DeviceStats {
    /// Bytes received.
    pub rx_bytes: u64,
    /// Packets received.
    pub rx_packets: u64,
    /// Receive errors.
    pub rx_errors: u64,
    /// Packets dropped on receive.
    pub rx_dropped: u64,
    /// Bytes sent.
    pub tx_bytes: u64,
    /// Packets sent.
    pub tx_packets: u64,
    /// Send errors.
    pub tx_errors: u64,
    /// Packets dropped on send.
    pub tx_dropped: u64,
}

/// The device counters that stand for the given interface counters.
pub open spec fn stats_of(s: Option<InterfaceStats>) -> Option<DeviceStats> {
    match s {
        Some(s) => Some(
            DeviceStats {
                rx_bytes: s.rx_bytes,
                rx_packets: s.rx_packets,
                rx_errors: s.rx_errors,
                rx_dropped: s.rx_dropped,
                tx_bytes: s.tx_bytes,
                tx_packets: s.tx_packets,
                tx_errors: s.tx_errors,
                tx_dropped: s.tx_dropped,
            },
        ),
        None => None,
    }
}

/// Everything known about one device.
#[derive(Debug)]
pub struct Device {
    /// Device name, such as `eth0`.
    pub name: String,
    /// Kernel index.
    pub index: Option<u32>,
    /// Kind of device.
    pub device_type: DeviceType,
    /// Administrative state.
    pub state: DeviceState,
    /// Hardware address.
    pub mac_address: Option<String>,
    /// MTU.
    pub mtu: Option<u32>,
    /// Addresses, IPv4 and IPv6.
    pub addresses: Vec<String>,
    /// Driver name.
    pub driver: Option<String>,
    /// Vendor identifier.
    pub vendor: Option<String>,
    /// Model identifier.
    pub model: Option<String>,
    /// Bus position.
    pub bus_info: Option<String>,
    /// What the device can do.
    pub capabilities: DeviceCapabilities,
    /// Interface flags.
    pub flags: Vec<String>,
    /// Traffic counters.
    pub stats: Option<DeviceStats>,
    /// Device this one sits on.
    pub parent: Option<String>,
    /// Devices that sit on this one.
    pub children: Vec<String>,
}

/// A `Device` with its texts as character sequences.
pub struct DeviceView {
    pub name: Seq<char>,
    pub index: Option<u32>,
    pub device_type: DeviceType,
    pub state: DeviceState,
    pub mac_address: Option<Seq<char>>,
    pub mtu: Option<u32>,
    pub addresses: Seq<Seq<char>>,
    pub driver: Option<Seq<char>>,
    pub vendor: Option<Seq<char>>,
    pub model: Option<Seq<char>>,
    pub bus_info: Option<Seq<char>>,
    pub capabilities: CapabilitiesView,
    pub flags: Seq<Seq<char>>,
    pub stats: Option<DeviceStats>,
    pub parent: Option<Seq<char>>,
    pub children: Seq<Seq<char>>,
}

impl View for Device {
    type V = DeviceView;

    open spec fn view(&self) -> DeviceView {
        DeviceView {
            name: self.name@,
            index: self.index,
            device_type: self.device_type,
            state: self.state,
            mac_address: opt_view(self.mac_address),
            mtu: self.mtu,
            addresses: views(self.addresses@),
            driver: opt_view(self.driver),
            vendor: opt_view(self.vendor),
            model: opt_view(self.model),
            bus_info: opt_view(self.bus_info),
            capabilities: self.capabilities@,
            flags: views(self.flags@),
            stats: self.stats,
            parent: opt_view(self.parent),
            children: views(self.children@),
        }
    }
}

impl Clone for Device {
    fn clone(&self) -> (r: Self)
        ensures
            r@ == self@,
    {
        Device {
            name: self.name.clone(),
            index: self.index,
            device_type: self.device_type,
            state: self.state,
            mac_address: clone_opt_string(&self.mac_address),
            mtu: self.mtu,
            addresses: clone_strings(&self.addresses),
            driver: clone_opt_string(&self.driver),
            vendor: clone_opt_string(&self.vendor),
            model: clone_opt_string(&self.model),
            bus_info: clone_opt_string(&self.bus_info),
            capabilities: self.capabilities.clone(),
            flags: clone_strings(&self.flags),
            stats: self.stats,
            parent: clone_opt_string(&self.parent),
            children: clone_strings(&self.children),
        }
    }
}

/// A veth-prefixed name longer than this many bytes belongs to a container
/// runtime, not to a plain veth pair.
pub const VETH_CONTAINER_NAME_LEN: usize = 10;

/// Number of bytes that `name` takes as a Rust string.
pub open spec fn byte_len(name: Seq<char>) -> nat {
    vstd::utf8::encode_utf8(name).len()
}

/// Whether a driver name points to a wireless driver.
pub open spec fn is_wireless_driver(driver: Seq<char>) -> bool {
    has_substring(driver, "wifi"@) || has_substring(driver, "wl"@) || has_substring(
        driver,
        "ath"@,
    ) || has_substring(driver, "iwl"@)
}

/// The kind of the device called `name`, given the name of its driver, if it
/// has one, and whether the system marks it as wireless.
///
/// The first rule that applies decides: the name `lo`; the prefixes `wlan`
/// and `wlp`; the prefixes `eth`, `en`, `eno`, where a wireless driver makes
/// it WiFi; `br-` and `bridge`; `vlan`; `tun` and `tap`; `veth`, where a long
/// name makes it a container interface; `bond`; `docker`; `ppp`; `wg`; and
/// last the wireless marker.
pub open spec fn classify(name: Seq<char>, driver: Option<Seq<char>>, wireless: bool) -> DeviceType {
    if name == "lo"@ {
        DeviceType::Loopback
    } else if has_prefix(name, "wlan"@) || has_prefix(name, "wlp"@) {
        DeviceType::Wifi
    } else if has_prefix(name, "eth"@) || has_prefix(name, "en"@) || has_prefix(name, "eno"@) {
        if driver is Some && is_wireless_driver(driver->0) {
            DeviceType::Wifi
        } else {
            DeviceType::Ethernet
        }
    } else if has_prefix(name, "br-"@) || has_prefix(name, "bridge"@) {
        DeviceType::Bridge
    } else if has_prefix(name, "vlan"@) {
        DeviceType::Vlan
    } else if has_prefix(name, "tun"@) || has_prefix(name, "tap"@) {
        DeviceType::TunTap
    } else if has_prefix(name, "veth"@) {
        if byte_len(name) > VETH_CONTAINER_NAME_LEN {
            DeviceType::Container
        } else {
            DeviceType::Veth
        }
    } else if has_prefix(name, "bond"@) {
        DeviceType::Bond
    } else if has_prefix(name, "docker"@) {
        DeviceType::Container
    } else if has_prefix(name, "ppp"@) {
        DeviceType::Ppp
    } else if has_prefix(name, "wg"@) {
        DeviceType::Vpn
    } else if wireless {
        DeviceType::Wifi
    } else {
        DeviceType::Unknown
    }
}

/// What was read from the system about one device, beyond what the link
/// layer reports. Each text is the raw content of the entry it came from.
#[derive(Debug)]
pub struct SysfsProbe {
    /// Name of the driver the device is bound to.
    pub driver: Option<String>,
    /// Content of the vendor entry.
    pub vendor: Option<String>,
    /// Content of the device entry.
    pub model: Option<String>,
    /// Content of the uevent entry.
    pub uevent: Option<String>,
    /// Whether the device has a wireless entry.
    pub wireless: bool,
    /// Whether the wireless layer knows a radio for the device.
    pub phy_available: bool,
    /// Content of the speed entry.
    pub speed: Option<String>,
    /// Content of the entry that links to the lower device.
    pub lower: Option<String>,
    /// Names of the bridge ports.
    pub bridge_ports: Vec<String>,
}

/// A `SysfsProbe` with its texts as character sequences.
pub struct SysfsProbeView {
    pub driver: Option<Seq<char>>,
    pub vendor: Option<Seq<char>>,
    pub model: Option<Seq<char>>,
    pub uevent: Option<Seq<char>>,
    pub wireless: bool,
    pub phy_available: bool,
    pub speed: Option<Seq<char>>,
    pub lower: Option<Seq<char>>,
    pub bridge_ports: Seq<Seq<char>>,
}

impl View for SysfsProbe {
    type V = SysfsProbeView;

    open spec fn view(&self) -> SysfsProbeView {
        SysfsProbeView {
            driver: opt_view(self.driver),
            vendor: opt_view(self.vendor),
            model: opt_view(self.model),
            uevent: opt_view(self.uevent),
            wireless: self.wireless,
            phy_available: self.phy_available,
            speed: opt_view(self.speed),
            lower: opt_view(self.lower),
            bridge_ports: views(self.bridge_ports@),
        }
    }
}

impl SysfsProbe {
    /// A probe that found nothing.
    pub fn empty() -> (r: Self)
        ensures
            r@ == (SysfsProbeView {
                driver: None,
                vendor: None,
                model: None,
                uevent: None,
                wireless: false,
                phy_available: false,
                speed: None,
                lower: None,
                bridge_ports: Seq::empty(),
            }),
    {
        let r = SysfsProbe {
            driver: None,
            vendor: None,
            model: None,
            uevent: None,
            wireless: false,
            phy_available: false,
            speed: None,
            lower: None,
            bridge_ports: Vec::new(),
        };
        assert(views(r.bridge_ports@) =~= Seq::<Seq<char>>::empty());
        r
    }
}

/// The state of a device whose reported state, in upper case, is `upper`,
/// and whose flags are `flags`. A reported state decides alone; without one,
/// the `UP` flag does.
pub open spec fn state_of(upper: Option<Seq<char>>, flags: Seq<Seq<char>>) -> DeviceState {
    match upper {
        Some(u) => if u == "UP"@ {
            DeviceState::Up
        } else if u == "DOWN"@ {
            DeviceState::Down
        } else {
            DeviceState::Unknown
        },
        None => if flags.contains("UP"@) {
            DeviceState::Up
        } else {
            DeviceState::Down
        },
    }
}

/// The reported state in upper case, where there is one.
pub open spec fn upper_state(state: Option<Seq<char>>) -> Option<Seq<char>> {
    match state {
        Some(s) => Some(uppercase(s)),
        None => None,
    }
}

/// The text with the white space at both ends removed, where there is one.
pub open spec fn opt_trimmed(text: Option<Seq<char>>) -> Option<Seq<char>> {
    match text {
        Some(t) => Some(trimmed(t)),
        None => None,
    }
}

/// The link speeds that the content of a speed entry gives: the number it
/// holds, or none when it holds no number.
pub open spec fn speeds_of(speed: Option<Seq<char>>) -> Seq<u32> {
    match speed {
        Some(text) => match parse_unsigned(trimmed(text), u32::MAX as nat) {
            Some(n) => seq![n as u32],
            None => Seq::empty(),
        },
        None => Seq::empty(),
    }
}

/// What a device of kind `t` can do: WiFi devices do WiFi, and act as access
/// point when a radio is known; ethernet devices take VLANs and bridging and
/// have the probed speed; bridges bridge.
pub open spec fn capabilities_of(t: DeviceType, probe: SysfsProbeView) -> CapabilitiesView {
    match t {
        DeviceType::Wifi => CapabilitiesView {
            wifi: true,
            access_point: probe.phy_available,
            ..no_capabilities()
        },
        DeviceType::Ethernet => CapabilitiesView {
            vlan: true,
            bridge: true,
            speeds: speeds_of(probe.speed),
            ..no_capabilities()
        },
        DeviceType::Bridge => CapabilitiesView { bridge: true, ..no_capabilities() },
        _ => no_capabilities(),
    }
}

fn trim_opt(text: &Option<String>) -> (r: Option<String>)
    ensures
        opt_view(r) == opt_trimmed(opt_view(*text)),
{
    match text {
        Some(t) => {
            let cut = trim(t.as_str());
            Some(String::from_str(cut))
        },
        None => None,
    }
}

/// One step of applying a configuration to a device.
#[derive(Debug)]
pub enum DeviceAction {
    /// Bring the device up.
    Up,
    /// Bring the device down.
    Down,
    /// Set the MTU.
    SetMtu(u32),
    /// Set the hardware address.
    SetMac(String),
    /// Add an address with its prefix length.
    AddIp { ip: String, prefix: u8 },
    /// Remove an address with its prefix length.
    DelIp { ip: String, prefix: u8 },
}

/// A `DeviceAction` with its texts as character sequences.
pub enum ActionView {
    Up,
    Down,
    SetMtu(u32),
    SetMac(Seq<char>),
    AddIp { ip: Seq<char>, prefix: u8 },
    DelIp { ip: Seq<char>, prefix: u8 },
}

impl View for DeviceAction {
    type V = ActionView;

    open spec fn view(&self) -> ActionView {
        match self {
            DeviceAction::Up => ActionView::Up,
            DeviceAction::Down => ActionView::Down,
            DeviceAction::SetMtu(m) => ActionView::SetMtu(*m),
            DeviceAction::SetMac(m) => ActionView::SetMac(m@),
            DeviceAction::AddIp { ip, prefix } => ActionView::AddIp { ip: ip@, prefix: *prefix },
            DeviceAction::DelIp { ip, prefix } => ActionView::DelIp { ip: ip@, prefix: *prefix },
        }
    }
}

/// What to change on a device.
#[derive(Debug)]
pub struct DeviceConfig {
    /// State to set; only up and down can be set.
    pub state: Option<DeviceState>,
    /// MTU to set.
    pub mtu: Option<u32>,
    /// Hardware address to set.
    pub mac_address: Option<String>,
    /// Addresses to add, each as `IP/PREFIX`.
    pub add_addresses: Vec<String>,
    /// Addresses to remove, each as `IP/PREFIX`.
    pub remove_addresses: Vec<String>,
}

/// A `DeviceConfig` with its texts as character sequences.
pub struct DeviceConfigView {
    pub state: Option<DeviceState>,
    pub mtu: Option<u32>,
    pub mac_address: Option<Seq<char>>,
    pub add_addresses: Seq<Seq<char>>,
    pub remove_addresses: Seq<Seq<char>>,
}

impl View for DeviceConfig {
    type V = DeviceConfigView;

    open spec fn view(&self) -> DeviceConfigView {
        DeviceConfigView {
            state: self.state,
            mtu: self.mtu,
            mac_address: opt_view(self.mac_address),
            add_addresses: views(self.add_addresses@),
            remove_addresses: views(self.remove_addresses@),
        }
    }
}

/// The steps that apply a configuration, in order, and the failure that ends
/// them early, if there is one. The steps before a failure are still to be
/// carried out.
#[derive(Debug)]
pub struct DevicePlan {
    pub actions: Vec<DeviceAction>,
    pub error: Option<NetctlError>,
}

/// A `DevicePlan` with its texts as character sequences.
pub struct PlanView {
    pub actions: Seq<ActionView>,
    pub error: Option<ErrorView>,
}

/// The view of an optional failure.
pub open spec fn opt_error_view(e: Option<NetctlError>) -> Option<ErrorView> {
    match e {
        Some(e) => Some(e@),
        None => None,
    }
}

impl View for DevicePlan {
    type V = PlanView;

    open spec fn view(&self) -> PlanView {
        PlanView { actions: view_all(self.actions@), error: opt_error_view(self.error) }
    }
}

/// The address and prefix length that `addr` names. It must hold exactly one
/// `/`, with a number from 0 to 255 behind it.
pub open spec fn parse_address(addr: Seq<char>) -> Result<(Seq<char>, u8), ErrorView> {
    let i = first_slash(addr);
    let rest = addr.subrange(i + 1, addr.len() as int);
    if i == addr.len() || rest.contains('/') {
        Err(
            ErrorView::InvalidParameter(
                "Invalid address format: "@ + addr + ". Expected IP/PREFIX"@,
            ),
        )
    } else {
        match parse_unsigned(rest, 255) {
            Some(n) => Ok((addr.subrange(0, i), n as u8)),
            None => Err(ErrorView::InvalidParameter("Invalid prefix: "@ + rest)),
        }
    }
}

/// Position of the first `/` in `addr`, or its length when it holds none.
pub open spec fn first_slash(addr: Seq<char>) -> int {
    crate::text::first_index(addr, '/')
}

/// The step for one parsed address.
pub open spec fn address_step(ip: Seq<char>, prefix: u8, add: bool) -> ActionView {
    if add {
        ActionView::AddIp { ip, prefix }
    } else {
        ActionView::DelIp { ip, prefix }
    }
}

/// The steps for a list of addresses, up to the first one that cannot be
/// parsed, and the failure for that one.
pub open spec fn address_steps(addrs: Seq<Seq<char>>, add: bool) -> PlanView
    decreases addrs.len(),
{
    if addrs.len() == 0 {
        PlanView { actions: Seq::empty(), error: None }
    } else {
        let before = address_steps(addrs.drop_last(), add);
        if before.error is Some {
            before
        } else {
            match parse_address(addrs.last()) {
                Ok((ip, prefix)) => PlanView {
                    actions: before.actions.push(address_step(ip, prefix, add)),
                    error: None,
                },
                Err(e) => PlanView { actions: before.actions, error: Some(e) },
            }
        }
    }
}

/// The steps for the state, the MTU and the hardware address of a
/// configuration whose state can be set.
pub open spec fn link_steps(config: DeviceConfigView) -> Seq<ActionView> {
    let state = match config.state {
        Some(DeviceState::Up) => seq![ActionView::Up],
        Some(DeviceState::Down) => seq![ActionView::Down],
        _ => Seq::empty(),
    };
    let mtu = match config.mtu {
        Some(m) => seq![ActionView::SetMtu(m)],
        None => Seq::empty(),
    };
    let mac = match config.mac_address {
        Some(m) => seq![ActionView::SetMac(m)],
        None => Seq::empty(),
    };
    state + mtu + mac
}

/// Whether a configuration asks for a state that cannot be set.
pub open spec fn bad_state(config: DeviceConfigView) -> bool {
    config.state is Some && config.state != Some(DeviceState::Up) && config.state != Some(
        DeviceState::Down,
    )
}

/// The plan for a configuration: state, MTU, hardware address, the addresses
/// to add and the addresses to remove, in that order. A state other than up
/// or down fails before any step; an address that cannot be parsed fails
/// after the steps before it.
pub open spec fn plan_of(config: DeviceConfigView) -> PlanView {
    if bad_state(config) {
        PlanView {
            actions: Seq::empty(),
            error: Some(
                ErrorView::InvalidParameter(
                    "Cannot set device to state: "@ + config.state->0.spec_name(),
                ),
            ),
        }
    } else {
        let adds = address_steps(config.add_addresses, true);
        if adds.error is Some {
            PlanView { actions: link_steps(config) + adds.actions, error: adds.error }
        } else {
            let dels = address_steps(config.remove_addresses, false);
            PlanView {
                actions: link_steps(config) + adds.actions + dels.actions,
                error: dels.error,
            }
        }
    }
}

/// Once an address fails, the addresses after it change nothing.
proof fn lemma_address_steps_stop(addrs: Seq<Seq<char>>, add: bool, k: int)
    requires
        0 <= k <= addrs.len(),
        address_steps(addrs.subrange(0, k), add).error is Some,
    ensures
        address_steps(addrs, add) == address_steps(addrs.subrange(0, k), add),
    decreases addrs.len() - k,
{
    if k == addrs.len() {
        assert(addrs.subrange(0, k) =~= addrs);
    } else {
        assert(addrs.subrange(0, k + 1).drop_last() =~= addrs.subrange(0, k));
        lemma_address_steps_stop(addrs, add, k + 1);
    }
}

/// Splits `addr` into address and prefix length.
pub fn split_address(addr: &str) -> (r: Result<(String, u8), NetctlError>)
    ensures
        match parse_address(addr@) {
            Ok((ip, prefix)) => r matches Ok((a, p)) && a@ == ip && p == prefix,
            Err(e) => r matches Err(x) && x@ == e,
        },
{
    match split_once_char(addr, '/') {
        None => {
            let head = crate::text::concat3("Invalid address format: ", addr, ". Expected IP/PREFIX");
            Err(NetctlError::InvalidParameter(head))
        },
        Some((ip, rest)) => {
            if contains_char(rest, '/') {
                let head = crate::text::concat3(
                    "Invalid address format: ",
                    addr,
                    ". Expected IP/PREFIX",
                );
                Err(NetctlError::InvalidParameter(head))
            } else {
                match parse_number(rest, 255) {
                    Some(n) => Ok((String::from_str(ip), n as u8)),
                    None => Err(invalid_parameter("Invalid prefix: ", rest)),
                }
            }
        },
    }
}

/// Appends the steps for `addrs` to `actions` and hands back the failure
/// that stopped them, if one did.
fn push_address_steps(actions: &mut Vec<DeviceAction>, addrs: &Vec<String>, add: bool) -> (r:
    Option<NetctlError>)
    ensures
        view_all(final(actions)@) == view_all(old(actions)@) + address_steps(
            views(addrs@),
            add,
        ).actions,
        opt_error_view(r) == address_steps(views(addrs@), add).error,
{
    let ghost start = view_all(actions@);
    let ghost all = views(addrs@);
    let mut i: usize = 0;
    assert(all.subrange(0, 0) =~= Seq::<Seq<char>>::empty());
    assert(start + address_steps(all.subrange(0, 0), add).actions =~= start);
    while i < addrs.len()
        invariant
            i <= addrs.len(),
            all == views(addrs@),
            start == view_all(old(actions)@),
            address_steps(all.subrange(0, i as int), add).error is None,
            view_all(actions@) == start + address_steps(all.subrange(0, i as int), add).actions,
        decreases addrs.len() - i,
    {
        let ghost before = address_steps(all.subrange(0, i as int), add);
        proof {
            assert(all.subrange(0, i + 1).drop_last() =~= all.subrange(0, i as int));
            assert(all.subrange(0, i + 1).last() == addrs@[i as int]@);
        }
        match split_address(addrs[i].as_str()) {
            Ok((ip, prefix)) => {
                let ghost prior = actions@;
                if add {
                    actions.push(DeviceAction::AddIp { ip, prefix });
                } else {
                    actions.push(DeviceAction::DelIp { ip, prefix });
                }
                proof {
                    let step = address_step(ip@, prefix, add);
                    assert(view_all(actions@) =~= view_all(prior).push(step));
                    assert(start + before.actions.push(step) =~= (start + before.actions).push(
                        step,
                    ));
                }
            },
            Err(e) => {
                proof {
                    assert(address_steps(all.subrange(0, i + 1), add) == PlanView {
                        actions: before.actions,
                        error: Some(e@),
                    });
                    lemma_address_steps_stop(all, add, i + 1);
                }
                return Some(e);
            },
        }
        i += 1;
    }
    assert(all.subrange(0, i as int) =~= all);
    None
}

/// What comes next while a plan is carried out.
#[derive(Debug)]
pub enum PlanStep {
    /// Carry out the step at this position and report how it went.
    Run { position: usize },
    /// Nothing is left to do; this is what the whole run comes to.
    Done { result: Result<(), NetctlError> },
}

/// A `PlanStep` with its texts as character sequences.
pub enum PlanStepView {
    Run { position: int },
    Done { result: Result<(), ErrorView> },
}

/// The view of how a step went.
pub open spec fn outcome_view(r: Result<(), NetctlError>) -> Result<(), ErrorView> {
    match r {
        Ok(()) => Ok(()),
        Err(e) => Err(e@),
    }
}

impl View for PlanStep {
    type V = PlanStepView;

    open spec fn view(&self) -> PlanStepView {
        match self {
            PlanStep::Run { position } => PlanStepView::Run { position: *position as int },
            PlanStep::Done { result } => PlanStepView::Done { result: outcome_view(*result) },
        }
    }
}

/// What a plan comes to once all its steps were carried out: the fault it
/// carries, or success.
pub open spec fn plan_end(plan: PlanView) -> Result<(), ErrorView> {
    match plan.error {
        Some(e) => Err(e),
        None => Ok(()),
    }
}

/// What comes next after `done` steps of `plan` were carried out, the last
/// of which went as `last` says (success, before the first step). A failed
/// step ends the run with its failure; otherwise the next step follows, and
/// after the last step the plan's own end.
pub open spec fn step_after(plan: PlanView, done: int, last: Result<(), ErrorView>) -> PlanStepView {
    match last {
        Err(e) => PlanStepView::Done { result: Err(e) },
        Ok(()) => if 0 <= done < plan.actions.len() {
            PlanStepView::Run { position: done }
        } else {
            PlanStepView::Done { result: plan_end(plan) }
        },
    }
}

/// How carrying out a plan ends: the number of steps carried out and the
/// result handed to the caller.
pub struct RunView {
    pub made: int,
    pub result: Result<(), ErrorView>,
}

/// How carrying out `plan` ends when `done` steps were carried out so far,
/// the last of which went as `last` says, and the step at position `i` goes
/// as `outcomes[i]` says.
pub open spec fn run(
    plan: PlanView,
    outcomes: Seq<Result<(), ErrorView>>,
    done: int,
    last: Result<(), ErrorView>,
) -> RunView
    decreases plan.actions.len() - done,
{
    match step_after(plan, done, last) {
        PlanStepView::Done { result } => RunView { made: done, result },
        PlanStepView::Run { position } => run(plan, outcomes, done + 1, outcomes[position]),
    }
}

/// The first step that fails ends the run: exactly the steps up to it were
/// carried out, and its failure is the result.
pub proof fn lemma_run_stops_at_failure(
    plan: PlanView,
    outcomes: Seq<Result<(), ErrorView>>,
    k: int,
    done: int,
    last: Result<(), ErrorView>,
)
    requires
        0 <= done <= k < plan.actions.len(),
        outcomes.len() == plan.actions.len(),
        last is Ok,
        forall|j: int| done <= j < k ==> outcomes[j] is Ok,
        outcomes[k] is Err,
    ensures
        run(plan, outcomes, done, last) == (RunView { made: k + 1, result: outcomes[k] }),
    decreases k - done,
{
    if done < k {
        lemma_run_stops_at_failure(plan, outcomes, k, done + 1, outcomes[done]);
    } else {
        assert(run(plan, outcomes, k + 1, outcomes[k]) == (RunView {
            made: k + 1,
            result: outcomes[k],
        }));
    }
}

/// When every step succeeds, all of them are carried out and the run ends
/// as the plan itself ends: with the fault it carries, or with success.
pub proof fn lemma_run_to_the_end(
    plan: PlanView,
    outcomes: Seq<Result<(), ErrorView>>,
    done: int,
    last: Result<(), ErrorView>,
)
    requires
        0 <= done <= plan.actions.len(),
        outcomes.len() == plan.actions.len(),
        last is Ok,
        forall|j: int| done <= j < outcomes.len() ==> outcomes[j] is Ok,
    ensures
        run(plan, outcomes, done, last) == (RunView {
            made: plan.actions.len() as int,
            result: plan_end(plan),
        }),
    decreases plan.actions.len() - done,
{
    if done < plan.actions.len() {
        lemma_run_to_the_end(plan, outcomes, done + 1, outcomes[done]);
    }
}

impl DevicePlan {
    /// What comes next after `done` steps were carried out, the last of
    /// which went as `last` says, as `step_after` describes it. Before the
    /// first step, `done` is 0 and `last` is success.
    pub fn step_after(&self, done: usize, last: Result<(), NetctlError>) -> (r: PlanStep)
        ensures
            r@ == step_after(self@, done as int, outcome_view(last)),
            r matches PlanStep::Run { position } ==> position < self.actions@.len(),
    {
        match last {
            Err(e) => PlanStep::Done { result: Err(e) },
            Ok(()) => {
                if done < self.actions.len() {
                    PlanStep::Run { position: done }
                } else {
                    match &self.error {
                        Some(e) => PlanStep::Done { result: Err(e.duplicate()) },
                        None => PlanStep::Done { result: Ok(()) },
                    }
                }
            },
        }
    }
}

/// The devices among the results of looking up one name after another: a
/// name whose lookup failed is passed over, the others keep their order.
pub open spec fn found(results: Seq<Result<DeviceView, ErrorView>>) -> Seq<DeviceView>
    decreases results.len(),
{
    if results.len() == 0 {
        Seq::empty()
    } else {
        match results.last() {
            Ok(d) => found(results.drop_last()).push(d),
            Err(_) => found(results.drop_last()),
        }
    }
}

/// The views of a list of lookup results.
pub open spec fn lookup_views(results: Seq<Result<Device, NetctlError>>) -> Seq<
    Result<DeviceView, ErrorView>,
> {
    results.map_values(
        |r: Result<Device, NetctlError>|
            match r {
                Ok(d) => Ok(d@),
                Err(e) => Err(e@),
            },
    )
}

/// The registry after each of `devices` was stored in it under its name, in
/// order.
pub open spec fn stored(
    known: Map<Seq<char>, DeviceView>,
    devices: Seq<DeviceView>,
) -> Map<Seq<char>, DeviceView>
    decreases devices.len(),
{
    if devices.len() == 0 {
        known
    } else {
        stored(known, devices.drop_last()).insert(devices.last().name, devices.last())
    }
}

/// The order of names after each of `devices` was stored, in order.
pub open spec fn stored_order(names: Seq<Seq<char>>, devices: Seq<DeviceView>) -> Seq<Seq<char>>
    decreases devices.len(),
{
    if devices.len() == 0 {
        names
    } else {
        order_with(stored_order(names, devices.drop_last()), devices.last().name)
    }
}

/// Start of the line that names a device's bus position.
pub const PCI_SLOT_KEY: &'static str = "PCI_SLOT_NAME=";

/// The bus position that the content of a uevent entry names.
pub open spec fn bus_info_of(uevent: Option<Seq<char>>) -> Option<Seq<char>> {
    match uevent {
        Some(text) => crate::text::value_of_key(crate::text::lines_of(text), PCI_SLOT_KEY@),
        None => None,
    }
}

/// The device that a link-layer report and a probe describe together.
pub open spec fn describe(name: Seq<char>, info: InterfaceInfoView, probe: SysfsProbeView) -> DeviceView {
    let kind = classify(name, probe.driver, probe.wireless);
    DeviceView {
        name,
        index: info.index,
        device_type: kind,
        state: state_of(upper_state(info.state), info.flags),
        mac_address: info.mac_address,
        mtu: info.mtu,
        addresses: info.addresses,
        driver: probe.driver,
        vendor: opt_trimmed(probe.vendor),
        model: opt_trimmed(probe.model),
        bus_info: bus_info_of(probe.uevent),
        capabilities: capabilities_of(kind, probe),
        flags: info.flags,
        stats: stats_of(info.stats),
        parent: opt_trimmed(probe.lower),
        children: probe.bridge_ports,
    }
}

/// The devices of kind `t` among `all`, in the same order.
pub open spec fn devices_of_type(all: Seq<DeviceView>, t: DeviceType) -> Seq<DeviceView>
    decreases all.len(),
{
    if all.len() == 0 {
        Seq::empty()
    } else if all.last().device_type == t {
        devices_of_type(all.drop_last(), t).push(all.last())
    } else {
        devices_of_type(all.drop_last(), t)
    }
}

/// What looking up `name` gives: the device, or `NotFound`.
pub open spec fn lookup_device(devices: Map<Seq<char>, DeviceView>, name: Seq<char>) -> Result<
    DeviceView,
    ErrorView,
> {
    if devices.contains_key(name) {
        Ok(devices[name])
    } else {
        Err(ErrorView::NotFound("Device "@ + name + " not found"@))
    }
}

/// What deleting `name` gives: the devices that remain, or the reason why
/// nothing was deleted. Only virtual devices can be deleted.
pub open spec fn delete_outcome(devices: Map<Seq<char>, DeviceView>, name: Seq<char>) -> Result<
    Map<Seq<char>, DeviceView>,
    ErrorView,
> {
    if !devices.contains_key(name) {
        Err(ErrorView::NotFound("Device "@ + name + " not found"@))
    } else if !devices[name].device_type.spec_is_virtual() {
        Err(ErrorView::InvalidParameter("Cannot delete physical device: "@ + name))
    } else {
        Ok(devices.remove(name))
    }
}

/// Deleting a device that is not virtual fails with `InvalidParameter` and
/// deletes nothing. Deleting a virtual device that exists succeeds, and
/// looking it up afterwards fails with `NotFound`.
pub proof fn lemma_delete_device(devices: Map<Seq<char>, DeviceView>, name: Seq<char>)
    requires
        devices.contains_key(name),
    ensures
        !devices[name].device_type.spec_is_virtual() ==> delete_outcome(devices, name) == Err::<
            Map<Seq<char>, DeviceView>,
            ErrorView,
        >(ErrorView::InvalidParameter("Cannot delete physical device: "@ + name)),
        devices[name].device_type.spec_is_virtual() ==> {
            &&& delete_outcome(devices, name) is Ok
            &&& lookup_device(delete_outcome(devices, name)->Ok_0, name) == Err::<
                DeviceView,
                ErrorView,
            >(ErrorView::NotFound("Device "@ + name + " not found"@))
        },
{
}

/// The registry of devices, and the rules that tell what a device is.
pub struct DeviceController {
    device_cache: Registry<Device>,
}

impl DeviceController {
    /// The known devices by name.
    pub closed spec fn devices(&self) -> Map<Seq<char>, DeviceView> {
        self.device_cache@
    }

    /// The names of the known devices, in the order they were first seen.
    pub closed spec fn names(&self) -> Seq<Seq<char>> {
        self.device_cache.keys()
    }

    /// The known devices, each at the position of its name.
    pub closed spec fn listing(&self) -> Seq<DeviceView> {
        self.device_cache.value_views()
    }

    /// No name occurs twice, and every device is stored under its own name.
    pub closed spec fn wf(&self) -> bool {
        &&& self.device_cache.wf()
        &&& forall|i: int|
            0 <= i < self.device_cache.keys().len() ==> (#[trigger] self.device_cache.values()[i])@.name
                == self.device_cache.keys()[i]
    }

    /// How names, listing and lookup fit together.
    pub proof fn lemma_wf(&self)
        requires
            self.wf(),
        ensures
            self.names().no_duplicates(),
            self.names().len() == self.listing().len(),
            forall|i: int|
                0 <= i < self.names().len() ==> {
                    &&& self.devices().contains_key(#[trigger] self.names()[i])
                    &&& self.devices()[self.names()[i]] == self.listing()[i]
                    &&& self.listing()[i].name == self.names()[i]
                },
            forall|k: Seq<char>| self.devices().contains_key(k) <==> self.names().contains(k),
    {
        assert forall|i: int| 0 <= i < self.names().len() implies {
            &&& self.devices().contains_key(#[trigger] self.names()[i])
            &&& self.devices()[self.names()[i]] == self.listing()[i]
            &&& self.listing()[i].name == self.names()[i]
        } by {
            self.device_cache.lemma_entry(i);
            assert(self.device_cache.values()[i]@.name == self.device_cache.keys()[i]);
        }
    }

    /// A controller that knows no device.
    pub fn new() -> (r: Self)
        ensures
            r.wf(),
            r.devices() == Map::<Seq<char>, DeviceView>::empty(),
            r.names() == Seq::<Seq<char>>::empty(),
    {
        DeviceController { device_cache: Registry::new() }
    }

    /// The names of the known devices.
    pub fn list(&self) -> (r: Vec<String>)
        requires
            self.wf(),
        ensures
            views(r@) == self.names(),
    {
        let mut out: Vec<String> = Vec::new();
        let n: usize = self.device_cache.len();
        let mut i: usize = 0;
        while i < n
            invariant
                self.wf(),
                n == self.device_cache.keys().len(),
                i <= n,
                out@.len() == i,
                forall|j: int| 0 <= j < i ==> out@[j]@ == self.device_cache.keys()[j],
            decreases n - i,
        {
            out.push(self.device_cache.key_at(i).clone());
            i += 1;
        }
        assert(views(out@) =~= self.names());
        out
    }

    /// Stores `device` under its name, in place of what was known under that
    /// name before.
    pub fn remember(&mut self, device: Device)
        requires
            old(self).wf(),
        ensures
            final(self).wf(),
            final(self).devices() == old(self).devices().insert(device@.name, device@),
            final(self).names() == order_with(old(self).names(), device@.name),
    {
        let ghost before = *self;
        let key = device.name.clone();
        self.device_cache.insert(key, device);
        proof {
            assert forall|i: int| 0 <= i < self.device_cache.keys().len() implies (
            #[trigger] self.device_cache.values()[i])@.name == self.device_cache.keys()[i] by {
                if before.device_cache.contains(device@.name) {
                    before.device_cache.lemma_present(device@.name);
                    if i != before.device_cache.index_of(device@.name) {
                        assert(self.device_cache.values()[i] == before.device_cache.values()[i]);
                    }
                } else {
                    if i < before.device_cache.keys().len() {
                        assert(self.device_cache.values()[i] == before.device_cache.values()[i]);
                    }
                }
            }
        }
    }

    /// The devices among the results of looking up one name after another,
    /// as `found` describes them: a failed lookup never fails the whole.
    pub fn found_devices(results: &Vec<Result<Device, NetctlError>>) -> (r: Vec<Device>)
        ensures
            view_all(r@) == found(lookup_views(results@)),
    {
        let mut out: Vec<Device> = Vec::new();
        let ghost all = lookup_views(results@);
        let mut i: usize = 0;
        assert(all.subrange(0, 0) =~= Seq::<Result<DeviceView, ErrorView>>::empty());
        assert(view_all(out@) =~= Seq::<DeviceView>::empty());
        while i < results.len()
            invariant
                i <= results.len(),
                all == lookup_views(results@),
                view_all(out@) == found(all.subrange(0, i as int)),
            decreases results.len() - i,
        {
            proof {
                assert(all.subrange(0, i + 1).drop_last() =~= all.subrange(0, i as int));
                assert(all.subrange(0, i + 1).last() == all[i as int]);
            }
            match &results[i] {
                Ok(d) => {
                    let ghost prior = out@;
                    out.push(d.clone());
                    assert(view_all(out@) =~= view_all(prior).push(d@));
                },
                Err(_) => {},
            }
            i += 1;
        }
        assert(all.subrange(0, i as int) =~= all);
        out
    }

    /// Forgets what was known and stores each of `devices` under its name,
    /// in order.
    pub fn refresh(&mut self, devices: &Vec<Device>)
        requires
            old(self).wf(),
        ensures
            final(self).wf(),
            final(self).devices() == stored(Map::empty(), view_all(devices@)),
            final(self).names() == stored_order(Seq::empty(), view_all(devices@)),
    {
        self.device_cache.clear();
        let ghost all = view_all(devices@);
        let mut i: usize = 0;
        assert(all.subrange(0, 0) =~= Seq::<DeviceView>::empty());
        while i < devices.len()
            invariant
                i <= devices.len(),
                all == view_all(devices@),
                self.wf(),
                self.devices() == stored(Map::empty(), all.subrange(0, i as int)),
                self.names() == stored_order(Seq::empty(), all.subrange(0, i as int)),
            decreases devices.len() - i,
        {
            proof {
                assert(all.subrange(0, i + 1).drop_last() =~= all.subrange(0, i as int));
                assert(all.subrange(0, i + 1).last() == devices@[i as int]@);
            }
            self.remember(devices[i].clone());
            i += 1;
        }
        assert(all.subrange(0, i as int) =~= all);
    }

    /// Everything known about the device called `name`.
    pub fn get_device(&self, name: &str) -> (r: Result<Device, NetctlError>)
        requires
            self.wf(),
        ensures
            match lookup_device(self.devices(), name@) {
                Ok(d) => r matches Ok(found) && found@ == d,
                Err(e) => r matches Err(x) && x@ == e,
            },
    {
        match self.device_cache.get(name) {
            Some(d) => Ok(d.clone()),
            None => Err(not_found("Device ", name)),
        }
    }

    /// All known devices with everything known about them.
    pub fn list_devices(&self) -> (r: Vec<Device>)
        requires
            self.wf(),
        ensures
            view_all(r@) == self.listing(),
    {
        let mut out: Vec<Device> = Vec::new();
        let n: usize = self.device_cache.len();
        let mut i: usize = 0;
        while i < n
            invariant
                self.wf(),
                n == self.device_cache.keys().len(),
                i <= n,
                out@.len() == i,
                forall|j: int| 0 <= j < i ==> out@[j]@ == self.device_cache.values()[j]@,
            decreases n - i,
        {
            out.push(self.device_cache.value_at(i).clone());
            i += 1;
        }
        assert(view_all(out@) =~= self.listing());
        out
    }

    /// The known devices of kind `device_type`.
    pub fn get_devices_by_type(&self, device_type: DeviceType) -> (r: Vec<Device>)
        requires
            self.wf(),
        ensures
            view_all(r@) == devices_of_type(self.listing(), device_type),
    {
        let mut out: Vec<Device> = Vec::new();
        let n: usize = self.device_cache.len();
        let mut i: usize = 0;
        let ghost all = self.listing();
        assert(all.subrange(0, 0) =~= Seq::<DeviceView>::empty());
        assert(view_all(out@) =~= Seq::<DeviceView>::empty());
        while i < n
            invariant
                self.wf(),
                all == self.listing(),
                n == self.device_cache.keys().len(),
                n == all.len(),
                i <= n,
                view_all(out@) == devices_of_type(all.subrange(0, i as int), device_type),
            decreases n - i,
        {
            let d = self.device_cache.value_at(i);
            proof {
                assert(all.subrange(0, i + 1).drop_last() =~= all.subrange(0, i as int));
                assert(all.subrange(0, i + 1).last() == d@);
            }
            if d.device_type == device_type {
                let ghost prior = out@;
                let copy = d.clone();
                out.push(copy);
                assert(view_all(out@) =~= view_all(prior).push(d@));
            }
            i += 1;
        }
        assert(all.subrange(0, i as int) =~= all);
        out
    }

    /// Takes the virtual device called `name` out of the registry. The caller
    /// then removes the link itself.
    pub fn delete_device(&mut self, name: &str) -> (r: Result<(), NetctlError>)
        requires
            old(self).wf(),
        ensures
            final(self).wf(),
            match delete_outcome(old(self).devices(), name@) {
                Ok(rest) => r is Ok && final(self).devices() == rest && final(self).names()
                    == order_without(old(self).names(), name@),
                Err(e) => r matches Err(x) && x@ == e && final(self).devices() == old(
                    self,
                ).devices() && final(self).names() == old(self).names(),
            },
    {
        let ghost before = *self;
        let kind = match self.device_cache.get(name) {
            Some(d) => d.device_type,
            None => {
                return Err(not_found("Device ", name));
            },
        };
        if !kind.is_virtual() {
            return Err(invalid_parameter("Cannot delete physical device: ", name));
        }
        self.device_cache.remove(name);
        proof {
            before.device_cache.lemma_present(name@);
            let p = before.device_cache.index_of(name@);
            assert forall|i: int| 0 <= i < self.device_cache.keys().len() implies (
            #[trigger] self.device_cache.values()[i])@.name == self.device_cache.keys()[i] by {
                let i0 = if i < p {
                    i
                } else {
                    i + 1
                };
                assert(self.device_cache.values()[i] == before.device_cache.values()[i0]);
                assert(self.device_cache.keys()[i] == before.device_cache.keys()[i0]);
            }
        }
        Ok(())
    }

    /// The steps that apply `config` to a device. Nothing is looked up: a
    /// device that does not exist makes the first step fail when it is
    /// carried out. The caller carries the steps out one by one and asks
    /// `DevicePlan::step_after` after each what comes next.
    pub fn configure_device(&self, config: &DeviceConfig) -> (r: DevicePlan)
        ensures
            r@ == plan_of(config@),
    {
        let mut actions: Vec<DeviceAction> = Vec::new();
        assert(view_all(actions@) =~= Seq::<ActionView>::empty());
        match config.state {
            Some(DeviceState::Up) => {
                actions.push(DeviceAction::Up);
                assert(view_all(actions@) =~= seq![ActionView::Up]);
            },
            Some(DeviceState::Down) => {
                actions.push(DeviceAction::Down);
                assert(view_all(actions@) =~= seq![ActionView::Down]);
            },
            Some(other) => {
                let e = invalid_parameter("Cannot set device to state: ", other.name());
                return DevicePlan { actions, error: Some(e) };
            },
            None => {},
        }
        let ghost after_state = view_all(actions@);
        match config.mtu {
            Some(m) => {
                let ghost prior = actions@;
                actions.push(DeviceAction::SetMtu(m));
                assert(view_all(actions@) =~= view_all(prior) + seq![ActionView::SetMtu(m)]);
            },
            None => {
                assert(view_all(actions@) =~= after_state + Seq::<ActionView>::empty());
            },
        }
        let ghost after_mtu = view_all(actions@);
        match &config.mac_address {
            Some(mac) => {
                let ghost prior = actions@;
                actions.push(DeviceAction::SetMac(mac.clone()));
                assert(view_all(actions@) =~= view_all(prior) + seq![ActionView::SetMac(mac@)]);
            },
            None => {
                assert(view_all(actions@) =~= after_mtu + Seq::<ActionView>::empty());
            },
        }
        assert(view_all(actions@) == link_steps(config@));
        let failed = push_address_steps(&mut actions, &config.add_addresses, true);
        match failed {
            Some(e) => DevicePlan { actions, error: Some(e) },
            None => {
                let failed = push_address_steps(&mut actions, &config.remove_addresses, false);
                DevicePlan { actions, error: failed }
            },
        }
    }

    /// The kind of the device called `name`, as `classify` describes it.
    pub fn detect_device_type(&self, name: &str, probe: &SysfsProbe) -> (r: DeviceType)
        ensures
            r == classify(name@, probe@.driver, probe@.wireless),
    {
        if str_eq(name, "lo") {
            return DeviceType::Loopback;
        }
        if starts_with(name, "wlan") || starts_with(name, "wlp") {
            return DeviceType::Wifi;
        }
        if starts_with(name, "eth") || starts_with(name, "en") || starts_with(name, "eno") {
            match &probe.driver {
                Some(driver) => {
                    let d = driver.as_str();
                    if contains_str(d, "wifi") || contains_str(d, "wl") || contains_str(d, "ath")
                        || contains_str(d, "iwl") {
                        return DeviceType::Wifi;
                    }
                },
                None => {},
            }
            return DeviceType::Ethernet;
        }
        if starts_with(name, "br-") || starts_with(name, "bridge") {
            return DeviceType::Bridge;
        }
        if starts_with(name, "vlan") {
            return DeviceType::Vlan;
        }
        if starts_with(name, "tun") || starts_with(name, "tap") {
            return DeviceType::TunTap;
        }
        if starts_with(name, "veth") {
            if name.as_bytes().len() > VETH_CONTAINER_NAME_LEN {
                return DeviceType::Container;
            }
            return DeviceType::Veth;
        }
        if starts_with(name, "bond") {
            return DeviceType::Bond;
        }
        if starts_with(name, "docker") {
            return DeviceType::Container;
        }
        if starts_with(name, "ppp") {
            return DeviceType::Ppp;
        }
        if starts_with(name, "wg") {
            return DeviceType::Vpn;
        }
        if probe.wireless {
            return DeviceType::Wifi;
        }
        DeviceType::Unknown
    }

    /// Driver, vendor, model and bus position of a device, from what the
    /// probe read.
    pub fn get_device_metadata(&self, probe: &SysfsProbe) -> (r: (
        Option<String>,
        Option<String>,
        Option<String>,
        Option<String>,
    ))
        ensures
            opt_view(r.0) == probe@.driver,
            opt_view(r.1) == opt_trimmed(probe@.vendor),
            opt_view(r.2) == opt_trimmed(probe@.model),
            opt_view(r.3) == bus_info_of(probe@.uevent),
    {
        let driver = clone_opt_string(&probe.driver);
        let vendor = trim_opt(&probe.vendor);
        let model = trim_opt(&probe.model);
        let bus_info = match &probe.uevent {
            Some(text) => crate::text::find_key_value(text.as_str(), PCI_SLOT_KEY),
            None => None,
        };
        (driver, vendor, model, bus_info)
    }

    /// What a device of kind `device_type` can do, as `capabilities_of`
    /// describes it.
    pub fn detect_capabilities(&self, device_type: &DeviceType, probe: &SysfsProbe) -> (r:
        DeviceCapabilities)
        ensures
            r@ == capabilities_of(*device_type, probe@),
    {
        let mut caps = DeviceCapabilities::default();
        match device_type {
            DeviceType::Wifi => {
                caps.wifi = true;
                if probe.phy_available {
                    caps.access_point = true;
                }
            },
            DeviceType::Ethernet => {
                caps.vlan = true;
                caps.bridge = true;
                match &probe.speed {
                    Some(text) => {
                        match parse_number(trim(text.as_str()), u32::MAX) {
                            Some(speed) => {
                                caps.speeds.push(speed);
                                assert(caps.speeds@ =~= seq![speed]);
                            },
                            None => {},
                        }
                    },
                    None => {},
                }
            },
            DeviceType::Bridge => {
                caps.bridge = true;
            },
            _ => {},
        }
        caps
    }

    /// The state that goes with a reported state, already in upper case, and
    /// a list of flags.
    pub fn state_from_report(upper: Option<&str>, flags: &Vec<String>) -> (r: DeviceState)
        ensures
            r == state_of(
                match upper {
                    Some(u) => Some(u@),
                    None => None,
                },
                views(flags@),
            ),
    {
        match upper {
            Some(u) => {
                if str_eq(u, "UP") {
                    DeviceState::Up
                } else if str_eq(u, "DOWN") {
                    DeviceState::Down
                } else {
                    DeviceState::Unknown
                }
            },
            None => {
                if contains_string(flags, "UP") {
                    DeviceState::Up
                } else {
                    DeviceState::Down
                }
            },
        }
    }

    /// The state of the device that `info` reports on.
    pub fn determine_device_state(&self, info: &InterfaceInfo) -> (r: DeviceState)
        ensures
            r == state_of(upper_state(info@.state), info@.flags),
    {
        match &info.state {
            Some(s) => {
                let upper = to_uppercase(s.as_str());
                Self::state_from_report(Some(upper.as_str()), &info.flags)
            },
            None => Self::state_from_report(None, &info.flags),
        }
    }

    /// The device a virtual device sits on, and the devices that sit on a
    /// bridge.
    pub fn get_device_hierarchy(&self, probe: &SysfsProbe) -> (r: (Option<String>, Vec<String>))
        ensures
            opt_view(r.0) == opt_trimmed(probe@.lower),
            views(r.1@) == probe@.bridge_ports,
    {
        (trim_opt(&probe.lower), clone_strings(&probe.bridge_ports))
    }

    /// Puts together everything known about the device called `name`.
    pub fn describe_device(&self, name: &str, info: InterfaceInfo, probe: &SysfsProbe) -> (r:
        Device)
        ensures
            r@ == describe(name@, info@, probe@),
    {
        let device_type = self.detect_device_type(name, probe);
        let (driver, vendor, model, bus_info) = self.get_device_metadata(probe);
        let capabilities = self.detect_capabilities(&device_type, probe);
        let state = self.determine_device_state(&info);
        let (parent, children) = self.get_device_hierarchy(probe);
        let stats = match info.stats {
            Some(s) => Some(
                DeviceStats {
                    rx_bytes: s.rx_bytes,
                    rx_packets: s.rx_packets,
                    rx_errors: s.rx_errors,
                    rx_dropped: s.rx_dropped,
                    tx_bytes: s.tx_bytes,
                    tx_packets: s.tx_packets,
                    tx_errors: s.tx_errors,
                    tx_dropped: s.tx_dropped,
                },
            ),
            None => None,
        };
        let addresses = address_strings(&info.addresses);
        Device {
            name: String::from_str(name),
            index: info.index,
            device_type,
            state,
            mac_address: info.mac_address,
            mtu: info.mtu,
            addresses,
            driver,
            vendor,
            model,
            bus_info,
            capabilities,
            flags: info.flags,
            stats,
            parent,
            children,
        }
    }

    /// Watching for device events is left to the caller; there is nothing to
    /// prepare for it here.
    pub fn monitor_devices(&self) -> (r: Result<(), NetctlError>)
        ensures
            r is Ok,
    {
        Ok(())
    }
}

impl Default for DeviceController {
    fn default() -> (r: Self)
        ensures
            r.wf(),
            r.devices() == Map::<Seq<char>, DeviceView>::empty(),
    {
        Self::new()
    }
}

} // verus!
