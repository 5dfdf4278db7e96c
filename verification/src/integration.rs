//! The service that ties the registries together: what is done to them when
//! discovery, the supplicant or a client reports something, and which
//! notification goes out for it.
//!
//! Each operation takes the registries it works on, so that the caller can
//! guard each registry on its own and hold none of them while it waits for
//! the outside world.

use vstd::prelude::*;
use crate::device::{Device, DeviceView};
use crate::error::{ErrorView, NetctlError};
use crate::events::{Signal, SignalView};
use crate::network_control::{with_device, with_device_state, CRNetworkControl};
use crate::registry::{order_with, order_without, view_all};
use crate::text::{
    clone_opt_string, concat3, contains_char, contains_str, contains_string, has_prefix,
    has_substring, starts_with, str_eq, views,
};
use crate::types::{
    device_path, new_device_info, opt_view, CRAccessPointInfo, CRConnectivity, CRDeviceInfo,
    CRDeviceState, CRDeviceType, CRNetworkState, CRVpnInfo, CRVpnState, DeviceInfoView,
    VpnInfoView, CR_DEVICE_PATH_PREFIX,
};
use crate::vpn::CRVPN;
use crate::wifi::{
    access_points_of, associated_ssid, translate_scan_results, CRWiFi, WpaScanResult, WpaState,
    WpaStatus,
};

verus! {

/// Seconds to wait between asking the supplicant to scan and fetching what
/// it found.
pub const SCAN_GRACE_SECS: u64 = 3;

/// The kind under which a discovered device is shown, by its name alone.
/// The first rule that applies decides.
pub open spec fn shown_type(name: Seq<char>) -> CRDeviceType {
    if has_prefix(name, "wl"@) || has_prefix(name, "wlan"@) {
        CRDeviceType::WiFi
    } else if has_prefix(name, "eth"@) || has_prefix(name, "en"@) {
        CRDeviceType::Ethernet
    } else if name == "lo"@ {
        CRDeviceType::Loopback
    } else if has_prefix(name, "br"@) {
        CRDeviceType::Bridge
    } else if has_prefix(name, "tun"@) || has_prefix(name, "tap"@) {
        CRDeviceType::TunTap
    } else if has_substring(name, "vlan"@) {
        CRDeviceType::Vlan
    } else if has_prefix(name, "wg"@) {
        CRDeviceType::Vpn
    } else if has_prefix(name, "bt"@) || has_prefix(name, "bnep"@) {
        CRDeviceType::Bluetooth
    } else {
        CRDeviceType::Unknown
    }
}

/// The first of `addresses` that belongs to the asked-for family. An address
/// with a colon is IPv6, any other IPv4.
pub open spec fn first_address(addresses: Seq<Seq<char>>, ipv6: bool) -> Option<Seq<char>>
    decreases addresses.len(),
{
    if addresses.len() == 0 {
        None
    } else if addresses[0].contains(':') == ipv6 {
        Some(addresses[0])
    } else {
        first_address(addresses.drop_first(), ipv6)
    }
}

/// How a discovered device is shown to clients: activated when it has the
/// `UP` flag and disconnected otherwise, with its hardware address, its MTU
/// where known, and the first address of each family.
pub open spec fn shown_device(d: DeviceView) -> DeviceInfoView {
    DeviceInfoView {
        hw_address: d.mac_address,
        mtu: match d.mtu {
            Some(m) => m,
            None => 1500,
        },
        ipv4_address: first_address(d.addresses, false),
        ipv6_address: first_address(d.addresses, true),
        state: if d.flags.contains("UP"@) {
            CRDeviceState::Activated
        } else {
            CRDeviceState::Disconnected
        },
        ..new_device_info(d.name, shown_type(d.name))
    }
}

/// The registry after each of `found` was added to it, in order.
pub open spec fn discovered(
    devices: Map<Seq<char>, DeviceInfoView>,
    found: Seq<DeviceView>,
) -> Map<Seq<char>, DeviceInfoView>
    decreases found.len(),
{
    if found.len() == 0 {
        devices
    } else {
        with_device(discovered(devices, found.drop_last()), shown_device(found.last()))
    }
}

/// The order of the paths in the registry after each of `found` was added to
/// it, in order.
pub open spec fn discovered_order(paths: Seq<Seq<char>>, found: Seq<DeviceView>) -> Seq<Seq<char>>
    decreases found.len(),
{
    if found.len() == 0 {
        paths
    } else {
        order_with(discovered_order(paths, found.drop_last()), device_path(found.last().name))
    }
}

/// The notifications for a discovery: one for each device found, in order.
pub open spec fn discovery_signals(found: Seq<DeviceView>) -> Seq<SignalView> {
    found.map_values(|d: DeviceView| SignalView::DeviceAdded { path: device_path(d.name) })
}

/// The name of the first device that looks like a WiFi adapter.
pub open spec fn first_wifi_name(found: Seq<DeviceView>) -> Option<Seq<char>>
    decreases found.len(),
{
    if found.len() == 0 {
        None
    } else if has_prefix(found[0].name, "wl"@) || has_prefix(found[0].name, "wlan"@) {
        Some(found[0].name)
    } else {
        first_wifi_name(found.drop_first())
    }
}

/// The service itself: whether it runs, and the WiFi interface it settled on.
pub struct CRDbusService {
    running: bool,
    wifi_interface: Option<String>,
}

impl CRDbusService {
    /// Whether the service runs.
    pub closed spec fn running(&self) -> bool {
        self.running
    }

    /// The WiFi interface the service settled on.
    pub closed spec fn wifi_interface(&self) -> Option<Seq<char>> {
        opt_view(self.wifi_interface)
    }

    /// A running service that has not settled on a WiFi interface.
    pub fn start() -> (r: Self)
        ensures
            r.running(),
            r.wifi_interface() is None,
    {
        CRDbusService { running: true, wifi_interface: None }
    }

    /// Marks the service as stopped.
    pub fn stop(&mut self) -> (r: Result<(), NetctlError>)
        ensures
            r is Ok,
            !final(self).running(),
            final(self).wifi_interface() == old(self).wifi_interface(),
    {
        self.running = false;
        Ok(())
    }

    /// Whether the service runs.
    pub fn is_running(&self) -> (r: bool)
        ensures
            r == self.running(),
    {
        self.running
    }

    /// The kind under which `device` is shown, as `shown_type` describes it.
    pub fn map_device_type(device: &Device) -> (r: CRDeviceType)
        ensures
            r == shown_type(device@.name),
    {
        let name = device.name.as_str();
        if starts_with(name, "wl") || starts_with(name, "wlan") {
            CRDeviceType::WiFi
        } else if starts_with(name, "eth") || starts_with(name, "en") {
            CRDeviceType::Ethernet
        } else if str_eq(name, "lo") {
            CRDeviceType::Loopback
        } else if starts_with(name, "br") {
            CRDeviceType::Bridge
        } else if starts_with(name, "tun") || starts_with(name, "tap") {
            CRDeviceType::TunTap
        } else if contains_str(name, "vlan") {
            CRDeviceType::Vlan
        } else if starts_with(name, "wg") {
            CRDeviceType::Vpn
        } else if starts_with(name, "bt") || starts_with(name, "bnep") {
            CRDeviceType::Bluetooth
        } else {
            CRDeviceType::Unknown
        }
    }

    /// How `device` is shown to clients, as `shown_device` describes it.
    pub fn describe_for_clients(device: &Device) -> (r: CRDeviceInfo)
        ensures
            r@ == shown_device(device@),
    {
        let device_type = Self::map_device_type(device);
        let mut info = CRDeviceInfo::new(device.name.clone(), device_type);
        info.hw_address = clone_opt_string(&device.mac_address);
        match device.mtu {
            Some(mtu) => {
                info.mtu = mtu;
            },
            None => {},
        }
        let ghost all = views(device.addresses@);
        let mut i: usize = 0;
        assert(all.subrange(0, all.len() as int) =~= all);
        while i < device.addresses.len()
            invariant
                i <= device.addresses.len(),
                all == views(device.addresses@),
                info@ == (DeviceInfoView {
                    ipv4_address: info@.ipv4_address,
                    ipv6_address: info@.ipv6_address,
                    state: info@.state,
                    ..shown_device(device@)
                }),
                match info@.ipv4_address {
                    Some(a) => first_address(all, false) == Some(a),
                    None => first_address(all.subrange(i as int, all.len() as int), false)
                        == first_address(all, false),
                },
                match info@.ipv6_address {
                    Some(a) => first_address(all, true) == Some(a),
                    None => first_address(all.subrange(i as int, all.len() as int), true)
                        == first_address(all, true),
                },
            decreases device.addresses.len() - i,
        {
            let addr = &device.addresses[i];
            proof {
                let rest = all.subrange(i as int, all.len() as int);
                assert(rest[0] == addr@);
                assert(rest.drop_first() =~= all.subrange(i + 1, all.len() as int));
            }
            if contains_char(addr.as_str(), ':') {
                if info.ipv6_address.is_none() {
                    info.ipv6_address = Some(addr.clone());
                }
            } else {
                if info.ipv4_address.is_none() {
                    info.ipv4_address = Some(addr.clone());
                }
            }
            i += 1;
        }
        assert(all.subrange(i as int, all.len() as int) =~= Seq::<Seq<char>>::empty());
        info.state = if contains_string(&device.flags, "UP") {
            CRDeviceState::Activated
        } else {
            CRDeviceState::Disconnected
        };
        info
    }

    /// Takes the devices that discovery found into the registry, each in
    /// place of what was known under its path, and hands back one
    /// notification for each.
    pub fn discover_devices(network_control: &mut CRNetworkControl, devices: &Vec<Device>) -> (r:
        Vec<Signal>)
        requires
            old(network_control).wf(),
        ensures
            final(network_control).wf(),
            final(network_control).devices() == discovered(
                old(network_control).devices(),
                view_all(devices@),
            ),
            final(network_control).paths() == discovered_order(
                old(network_control).paths(),
                view_all(devices@),
            ),
            final(network_control).network_state() == old(network_control).network_state(),
            final(network_control).connectivity() == old(network_control).connectivity(),
            view_all(r@) == discovery_signals(view_all(devices@)),
    {
        let mut signals: Vec<Signal> = Vec::new();
        let ghost found = view_all(devices@);
        let mut i: usize = 0;
        assert(found.subrange(0, 0) =~= Seq::<DeviceView>::empty());
        while i < devices.len()
            invariant
                i <= devices.len(),
                found == view_all(devices@),
                network_control.wf(),
                network_control.devices() == discovered(
                    old(network_control).devices(),
                    found.subrange(0, i as int),
                ),
                network_control.paths() == discovered_order(
                    old(network_control).paths(),
                    found.subrange(0, i as int),
                ),
                network_control.network_state() == old(network_control).network_state(),
                network_control.connectivity() == old(network_control).connectivity(),
                signals@.len() == i,
                forall|j: int|
                    0 <= j < i ==> signals@[j]@ == (SignalView::DeviceAdded {
                        path: device_path(found[j].name),
                    }),
            decreases devices.len() - i,
        {
            let info = Self::describe_for_clients(&devices[i]);
            proof {
                assert(found.subrange(0, i + 1).drop_last() =~= found.subrange(0, i as int));
                assert(found.subrange(0, i + 1).last() == devices@[i as int]@);
            }
            let path = info.path.clone();
            network_control.add_device(info);
            signals.push(Signal::DeviceAdded { path });
            i += 1;
        }
        assert(found.subrange(0, i as int) =~= found);
        assert(view_all(signals@) =~= discovery_signals(found));
        signals
    }

    /// Adds a device to the registry, in place of what was known under its
    /// path, and hands back the notification for it.
    pub fn add_device(network_control: &mut CRNetworkControl, info: CRDeviceInfo) -> (r: Signal)
        requires
            old(network_control).wf(),
        ensures
            final(network_control).wf(),
            final(network_control).devices() == with_device(
                old(network_control).devices(),
                info@,
            ),
            final(network_control).paths() == order_with(old(network_control).paths(), info@.path),
            final(network_control).network_state() == old(network_control).network_state(),
            final(network_control).connectivity() == old(network_control).connectivity(),
            r@ == (SignalView::DeviceAdded { path: info@.path }),
    {
        let path = info.path.clone();
        network_control.add_device(info);
        Signal::DeviceAdded { path }
    }

    /// Takes the device with interface name `interface` out of the registry
    /// and hands back the notification for it.
    pub fn remove_device(network_control: &mut CRNetworkControl, interface: &str) -> (r: Result<
        Signal,
        NetctlError,
    >)
        requires
            old(network_control).wf(),
        ensures
            final(network_control).wf(),
            final(network_control).network_state() == old(network_control).network_state(),
            final(network_control).connectivity() == old(network_control).connectivity(),
            final(network_control).devices() == old(network_control).devices().remove(
                device_path(interface@),
            ),
            final(network_control).paths() == order_without(
                old(network_control).paths(),
                device_path(interface@),
            ),
            old(network_control).devices().contains_key(device_path(interface@)) ==> (
            r matches Ok(s) && s@ == (SignalView::DeviceRemoved { path: device_path(interface@) })),
            !old(network_control).devices().contains_key(device_path(interface@)) ==> {
                &&& r matches Err(e) && e@ == ErrorView::NotFound(
                    "Device "@ + device_path(interface@) + " not found"@,
                )
                &&& final(network_control).devices() == old(network_control).devices()
                &&& final(network_control).paths() == old(network_control).paths()
            },
    {
        let path = concat3(CR_DEVICE_PATH_PREFIX, "/", interface);
        match network_control.remove_device(path.as_str()) {
            Ok(()) => Ok(Signal::DeviceRemoved { path }),
            Err(e) => Err(e),
        }
    }

    /// Sets the state of the device with interface name `interface` and hands
    /// back the notification for it.
    pub fn update_device_state(
        network_control: &mut CRNetworkControl,
        interface: &str,
        state: CRDeviceState,
    ) -> (r: Result<Signal, NetctlError>)
        requires
            old(network_control).wf(),
        ensures
            final(network_control).wf(),
            final(network_control).paths() == old(network_control).paths(),
            final(network_control).network_state() == old(network_control).network_state(),
            final(network_control).connectivity() == old(network_control).connectivity(),
            old(network_control).devices().contains_key(device_path(interface@)) ==> {
                &&& r matches Ok(s) && s@ == (SignalView::DeviceStateChanged {
                    path: device_path(interface@),
                    state,
                })
                &&& final(network_control).devices() == with_device_state(
                    old(network_control).devices(),
                    device_path(interface@),
                    state,
                )
            },
            !old(network_control).devices().contains_key(device_path(interface@)) ==> {
                &&& r matches Err(e) && e@ == ErrorView::NotFound(
                    "Device "@ + device_path(interface@) + " not found"@,
                )
                &&& final(network_control).devices() == old(network_control).devices()
            },
    {
        let path = concat3(CR_DEVICE_PATH_PREFIX, "/", interface);
        match network_control.update_device_state(path.as_str(), state) {
            Ok(()) => Ok(Signal::DeviceStateChanged { path, state }),
            Err(e) => Err(e),
        }
    }

    /// Sets the overall network state and hands back the notification for it.
    pub fn update_network_state(network_control: &mut CRNetworkControl, state: CRNetworkState) -> (r:
        Signal)
        requires
            old(network_control).wf(),
        ensures
            final(network_control).wf(),
            final(network_control).network_state() == state,
            final(network_control).connectivity() == old(network_control).connectivity(),
            final(network_control).devices() == old(network_control).devices(),
            r@ == (SignalView::StateChanged { network_state: state }),
    {
        network_control.set_network_state(state);
        Signal::StateChanged { network_state: state }
    }

    /// Sets the result of the connectivity check and hands back the
    /// notification for it.
    pub fn update_connectivity(network_control: &mut CRNetworkControl, connectivity: CRConnectivity) -> (r:
        Signal)
        requires
            old(network_control).wf(),
        ensures
            final(network_control).wf(),
            final(network_control).connectivity() == connectivity,
            final(network_control).network_state() == old(network_control).network_state(),
            final(network_control).devices() == old(network_control).devices(),
            r@ == (SignalView::ConnectivityChanged { connectivity }),
    {
        network_control.set_connectivity(connectivity);
        Signal::ConnectivityChanged { connectivity }
    }

    /// Puts `aps` in place of the access points held so far and hands back
    /// the notification that a scan finished.
    pub fn update_wifi_access_points(wifi: &mut CRWiFi, aps: Vec<CRAccessPointInfo>) -> (r: Signal)
        ensures
            final(wifi).access_points() == view_all(aps@),
            final(wifi).scanning() == old(wifi).scanning(),
            final(wifi).current_ssid() == old(wifi).current_ssid(),
            r@ == SignalView::ScanCompleted,
    {
        wifi.update_access_points(aps);
        Signal::ScanCompleted
    }

    /// Adds a VPN tunnel and hands back the notification for it.
    pub fn add_vpn_connection(vpn: &mut CRVPN, vpn_info: CRVpnInfo) -> (r: Signal)
        requires
            old(vpn).wf(),
        ensures
            final(vpn).wf(),
            final(vpn).tunnels() == old(vpn).tunnels().insert(vpn_info@.name, vpn_info@),
            r@ == (SignalView::VpnConnectionAdded {
                name: vpn_info@.name,
                vpn_type: vpn_info@.vpn_type,
            }),
    {
        let name = vpn_info.name.clone();
        let vpn_type = vpn_info.vpn_type;
        vpn.add_connection(vpn_info);
        Signal::VpnConnectionAdded { name, vpn_type }
    }

    /// Sets the state of the VPN tunnel called `name` and hands back the
    /// notification for it.
    pub fn update_vpn_state(vpn: &mut CRVPN, name: &str, state: CRVpnState) -> (r: Result<
        Signal,
        NetctlError,
    >)
        requires
            old(vpn).wf(),
        ensures
            final(vpn).wf(),
            final(vpn).names() == old(vpn).names(),
            old(vpn).tunnels().contains_key(name@) ==> {
                &&& r matches Ok(s) && s@ == (SignalView::VpnStateChanged {
                    name: name@,
                    vpn_state: state,
                })
                &&& final(vpn).tunnels() == old(vpn).tunnels().insert(
                    name@,
                    VpnInfoView { state, ..old(vpn).tunnels()[name@] },
                )
            },
            !old(vpn).tunnels().contains_key(name@) ==> {
                &&& r matches Err(e) && e@ == ErrorView::NotFound(
                    "VPN connection "@ + name@ + " not found"@,
                )
                &&& final(vpn).tunnels() == old(vpn).tunnels()
            },
    {
        match vpn.update_state(name, state) {
            Ok(()) => Ok(Signal::VpnStateChanged { name: String::from_str(name), vpn_state: state }),
            Err(e) => Err(e),
        }
    }

    /// The WiFi interface the service settled on, if it has.
    pub fn cached_wifi_interface(&self) -> (r: Option<String>)
        ensures
            opt_view(r) == self.wifi_interface(),
    {
        clone_opt_string(&self.wifi_interface)
    }

    /// The WiFi interface to use: the one settled on earlier, or else the
    /// first of `devices` whose name begins with `wl`, which is then settled
    /// on. `devices` is looked at only when nothing was settled on.
    pub fn get_wifi_interface(&mut self, devices: &Vec<Device>) -> (r: Result<String, NetctlError>)
        ensures
            final(self).running() == old(self).running(),
            match old(self).wifi_interface() {
                Some(name) => {
                    &&& r matches Ok(n) && n@ == name
                    &&& final(self).wifi_interface() == old(self).wifi_interface()
                },
                None => match first_wifi_name(view_all(devices@)) {
                    Some(name) => {
                        &&& r matches Ok(n) && n@ == name
                        &&& final(self).wifi_interface() == Some(name)
                    },
                    None => {
                        &&& r matches Err(e) && e@ == ErrorView::NotFound(
                            "No WiFi interface found"@,
                        )
                        &&& final(self).wifi_interface() is None
                    },
                },
            },
    {
        match &self.wifi_interface {
            Some(name) => {
                return Ok(name.clone());
            },
            None => {},
        }
        let ghost found = view_all(devices@);
        let mut i: usize = 0;
        assert(found.subrange(0, found.len() as int) =~= found);
        while i < devices.len()
            invariant
                i <= devices.len(),
                *self == *old(self),
                self.wifi_interface is None,
                found == view_all(devices@),
                first_wifi_name(found.subrange(i as int, found.len() as int)) == first_wifi_name(
                    found,
                ),
            decreases devices.len() - i,
        {
            let name = devices[i].name.as_str();
            proof {
                let rest = found.subrange(i as int, found.len() as int);
                assert(rest[0] == devices@[i as int]@);
                assert(rest.drop_first() =~= found.subrange(i + 1, found.len() as int));
            }
            if starts_with(name, "wl") || starts_with(name, "wlan") {
                self.wifi_interface = Some(devices[i].name.clone());
                return Ok(devices[i].name.clone());
            }
            i += 1;
        }
        assert(found.subrange(i as int, found.len() as int) =~= Seq::<DeviceView>::empty());
        Err(NetctlError::NotFound(String::from_str("No WiFi interface found")))
    }

    /// Settles on `interface` as the WiFi interface.
    pub fn set_wifi_interface(&mut self, interface: String)
        ensures
            final(self).wifi_interface() == Some(interface@),
            final(self).running() == old(self).running(),
    {
        self.wifi_interface = Some(interface);
    }

    /// First step of a scan: marks the scan as under way. The caller then
    /// asks the supplicant to scan, waits `SCAN_GRACE_SECS`, fetches the
    /// results and hands them to `wifi_scan`.
    pub fn wifi_scan_begin(wifi: &mut CRWiFi)
        ensures
            final(wifi).scanning(),
            final(wifi).access_points() == old(wifi).access_points(),
            final(wifi).current_ssid() == old(wifi).current_ssid(),
    {
        wifi.set_scanning(true);
    }

    /// Last step of a scan. Either way the scan is no longer under way.
    /// Results, be they none at all, take the place of the access points
    /// held so far, and the notification that the scan finished comes back.
    /// A failure of the supplicant comes back as it is and leaves the access
    /// points as they were.
    pub fn wifi_scan(wifi: &mut CRWiFi, outcome: Result<Vec<WpaScanResult>, NetctlError>) -> (r:
        Result<Signal, NetctlError>)
        ensures
            final(wifi).current_ssid() == old(wifi).current_ssid(),
            !final(wifi).scanning(),
            match outcome {
                Ok(results) => {
                    &&& r matches Ok(s) && s@ == SignalView::ScanCompleted
                    &&& final(wifi).access_points() == access_points_of(view_all(results@))
                },
                Err(e) => {
                    &&& r matches Err(x) && x@ == e@
                    &&& final(wifi).access_points() == old(wifi).access_points()
                },
            },
    {
        wifi.set_scanning(false);
        match outcome {
            Ok(results) => {
                let access_points = translate_scan_results(&results);
                wifi.update_access_points(access_points);
                Ok(Signal::ScanCompleted)
            },
            Err(e) => Err(e),
        }
    }

    /// What follows an attempt to associate with `ssid` on `interface`. After
    /// a success the network is recorded, the device, if it is known, is
    /// marked as activated, and the notifications for both come back. A
    /// failure comes back as it is and changes nothing.
    pub fn wifi_connect(
        wifi: &mut CRWiFi,
        network_control: &mut CRNetworkControl,
        interface: &str,
        ssid: &str,
        outcome: Result<(), NetctlError>,
    ) -> (r: Result<Vec<Signal>, NetctlError>)
        requires
            old(network_control).wf(),
        ensures
            final(network_control).wf(),
            final(wifi).access_points() == old(wifi).access_points(),
            final(wifi).scanning() == old(wifi).scanning(),
            match outcome {
                Ok(()) => {
                    &&& r is Ok
                    &&& final(wifi).current_ssid() == Some(ssid@)
                    &&& if old(network_control).devices().contains_key(device_path(interface@)) {
                        &&& final(network_control).devices() == with_device_state(
                            old(network_control).devices(),
                            device_path(interface@),
                            CRDeviceState::Activated,
                        )
                        &&& view_all(r->Ok_0@) == seq![
                            SignalView::DeviceStateChanged {
                                path: device_path(interface@),
                                state: CRDeviceState::Activated,
                            },
                            SignalView::Connected { ssid: ssid@ },
                        ]
                    } else {
                        &&& final(network_control).devices() == old(network_control).devices()
                        &&& view_all(r->Ok_0@) == seq![SignalView::Connected { ssid: ssid@ }]
                    }
                },
                Err(e) => {
                    &&& r matches Err(x) && x@ == e@
                    &&& final(wifi).current_ssid() == old(wifi).current_ssid()
                    &&& final(network_control).devices() == old(network_control).devices()
                },
            },
    {
        match outcome {
            Err(e) => Err(e),
            Ok(()) => {
                wifi.set_current_ssid(Some(String::from_str(ssid)));
                let mut signals: Vec<Signal> = Vec::new();
                match Self::update_device_state(
                    network_control,
                    interface,
                    CRDeviceState::Activated,
                ) {
                    Ok(s) => {
                        signals.push(s);
                    },
                    Err(_) => {},
                }
                signals.push(Signal::Connected { ssid: String::from_str(ssid) });
                proof {
                    if old(network_control).devices().contains_key(device_path(interface@)) {
                        assert(view_all(signals@) =~= seq![
                            SignalView::DeviceStateChanged {
                                path: device_path(interface@),
                                state: CRDeviceState::Activated,
                            },
                            SignalView::Connected { ssid: ssid@ },
                        ]);
                    } else {
                        assert(view_all(signals@) =~= seq![SignalView::Connected { ssid: ssid@ }]);
                    }
                }
                Ok(signals)
            },
        }
    }

    /// What follows an attempt to leave the current network on `interface`.
    /// After a success no network is recorded any more, the device, if it is
    /// known, is marked as disconnected, and the notifications for both come
    /// back. A failure comes back as it is and changes nothing.
    pub fn wifi_disconnect(
        wifi: &mut CRWiFi,
        network_control: &mut CRNetworkControl,
        interface: &str,
        outcome: Result<(), NetctlError>,
    ) -> (r: Result<Vec<Signal>, NetctlError>)
        requires
            old(network_control).wf(),
        ensures
            final(network_control).wf(),
            final(wifi).access_points() == old(wifi).access_points(),
            final(wifi).scanning() == old(wifi).scanning(),
            match outcome {
                Ok(()) => {
                    &&& r is Ok
                    &&& final(wifi).current_ssid() is None
                    &&& if old(network_control).devices().contains_key(device_path(interface@)) {
                        &&& final(network_control).devices() == with_device_state(
                            old(network_control).devices(),
                            device_path(interface@),
                            CRDeviceState::Disconnected,
                        )
                        &&& view_all(r->Ok_0@) == seq![
                            SignalView::DeviceStateChanged {
                                path: device_path(interface@),
                                state: CRDeviceState::Disconnected,
                            },
                            SignalView::Disconnected,
                        ]
                    } else {
                        &&& final(network_control).devices() == old(network_control).devices()
                        &&& view_all(r->Ok_0@) == seq![SignalView::Disconnected]
                    }
                },
                Err(e) => {
                    &&& r matches Err(x) && x@ == e@
                    &&& final(wifi).current_ssid() == old(wifi).current_ssid()
                    &&& final(network_control).devices() == old(network_control).devices()
                },
            },
    {
        match outcome {
            Err(e) => Err(e),
            Ok(()) => {
                wifi.set_current_ssid(None);
                let mut signals: Vec<Signal> = Vec::new();
                match Self::update_device_state(
                    network_control,
                    interface,
                    CRDeviceState::Disconnected,
                ) {
                    Ok(s) => {
                        signals.push(s);
                    },
                    Err(_) => {},
                }
                signals.push(Signal::Disconnected);
                proof {
                    if old(network_control).devices().contains_key(device_path(interface@)) {
                        assert(view_all(signals@) =~= seq![
                            SignalView::DeviceStateChanged {
                                path: device_path(interface@),
                                state: CRDeviceState::Disconnected,
                            },
                            SignalView::Disconnected,
                        ]);
                    } else {
                        assert(view_all(signals@) =~= seq![SignalView::Disconnected]);
                    }
                }
                Ok(signals)
            },
        }
    }

    /// The network WiFi is associated with, from what the supplicant says:
    /// the reported network when the supplicant runs and its association is
    /// complete, none otherwise. `status` is absent when the supplicant could
    /// not be asked.
    pub fn wifi_status(supplicant_running: bool, status: Option<WpaStatus>) -> (r: Option<String>)
        ensures
            opt_view(r) == associated_ssid(
                supplicant_running,
                match status {
                    Some(s) => Some(s.state),
                    None => None,
                },
                match status {
                    Some(s) => opt_view(s.ssid),
                    None => None,
                },
            ),
    {
        if !supplicant_running {
            return None;
        }
        match status {
            Some(s) => {
                if s.state == WpaState::Completed {
                    s.ssid
                } else {
                    None
                }
            },
            None => None,
        }
    }
}

} // verus!
