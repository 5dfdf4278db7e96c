//! Change notifications. An operation that changes something hands back the
//! notification that goes with the change; sending it is the caller's part.

use vstd::prelude::*;
use crate::types::{CRConnectivity, CRDeviceState, CRNetworkState, CRVpnState, CRVpnType};

verus! {

/// A change that subscribers are told about.
#[derive(Debug)]
pub enum Signal {
    /// A device appeared; carries its object path.
    DeviceAdded { path: String },
    /// A device went away.
    DeviceRemoved { path: String },
    /// A device changed state.
    DeviceStateChanged { path: String, state: CRDeviceState },
    /// The overall network state changed.
    StateChanged { network_state: CRNetworkState },
    /// The result of the connectivity check changed.
    ConnectivityChanged { connectivity: CRConnectivity },
    /// A WiFi scan finished and its results are in place.
    ScanCompleted,
    /// WiFi associated with a network.
    Connected { ssid: String },
    /// WiFi left its network.
    Disconnected,
    /// A VPN tunnel was added.
    VpnConnectionAdded { name: String, vpn_type: CRVpnType },
    /// A VPN tunnel changed state.
    VpnStateChanged { name: String, vpn_state: CRVpnState },
}

/// A `Signal` with its texts as character sequences.
pub enum SignalView {
    DeviceAdded { path: Seq<char> },
    DeviceRemoved { path: Seq<char> },
    DeviceStateChanged { path: Seq<char>, state: CRDeviceState },
    StateChanged { network_state: CRNetworkState },
    ConnectivityChanged { connectivity: CRConnectivity },
    ScanCompleted,
    Connected { ssid: Seq<char> },
    Disconnected,
    VpnConnectionAdded { name: Seq<char>, vpn_type: CRVpnType },
    VpnStateChanged { name: Seq<char>, vpn_state: CRVpnState },
}

impl View for Signal {
    type V = SignalView;

    open spec fn view(&self) -> SignalView {
        match self {
            Signal::DeviceAdded { path } => SignalView::DeviceAdded { path: path@ },
            Signal::DeviceRemoved { path } => SignalView::DeviceRemoved { path: path@ },
            Signal::DeviceStateChanged { path, state } => SignalView::DeviceStateChanged {
                path: path@,
                state: *state,
            },
            Signal::StateChanged { network_state } => SignalView::StateChanged {
                network_state: *network_state,
            },
            Signal::ConnectivityChanged { connectivity } => SignalView::ConnectivityChanged {
                connectivity: *connectivity,
            },
            Signal::ScanCompleted => SignalView::ScanCompleted,
            Signal::Connected { ssid } => SignalView::Connected { ssid: ssid@ },
            Signal::Disconnected => SignalView::Disconnected,
            Signal::VpnConnectionAdded { name, vpn_type } => SignalView::VpnConnectionAdded {
                name: name@,
                vpn_type: *vpn_type,
            },
            Signal::VpnStateChanged { name, vpn_state } => SignalView::VpnStateChanged {
                name: name@,
                vpn_state: *vpn_state,
            },
        }
    }
}

} // verus!
