//! What the link layer reports about one interface.

use vstd::prelude::*;
use crate::text::{clone_opt_string, clone_strings, views};
use crate::types::opt_view;

verus! {

/// Traffic counters of an interface.
#[derive(Clone, Copy, Debug, PartialEq, Eq)]
pub struct InterfaceStats {
    pub rx_bytes: u64,
    pub rx_packets: u64,
    pub rx_errors: u64,
    pub rx_dropped: u64,
    pub tx_bytes: u64,
    pub tx_packets: u64,
    pub tx_errors: u64,
    pub tx_dropped: u64,
}

/// One address configured on an interface.
#[derive(Debug)]
pub struct InterfaceAddress {
    /// The address as text, IPv4 or IPv6.
    pub address: String,
}

/// The addresses of a list of address records, in order.
pub open spec fn addresses_of(items: Seq<InterfaceAddress>) -> Seq<Seq<char>> {
    items.map_values(|a: InterfaceAddress| a.address@)
}

/// An interface as the link layer lists it.
#[derive(Debug)]
pub struct InterfaceInfo {
    /// Interface name.
    pub name: String,
    /// Kernel index.
    pub index: Option<u32>,
    /// Hardware address.
    pub mac_address: Option<String>,
    /// MTU.
    pub mtu: Option<u32>,
    /// Operational state as reported, such as `UP` or `DOWN`.
    pub state: Option<String>,
    /// Flags such as `UP`, `BROADCAST`, `MULTICAST`.
    pub flags: Vec<String>,
    /// Configured addresses.
    pub addresses: Vec<InterfaceAddress>,
    /// Traffic counters, when available.
    pub stats: Option<InterfaceStats>,
}

/// An `InterfaceInfo` with its texts as character sequences.
pub struct InterfaceInfoView {
    pub name: Seq<char>,
    pub index: Option<u32>,
    pub mac_address: Option<Seq<char>>,
    pub mtu: Option<u32>,
    pub state: Option<Seq<char>>,
    pub flags: Seq<Seq<char>>,
    pub addresses: Seq<Seq<char>>,
    pub stats: Option<InterfaceStats>,
}

impl View for InterfaceInfo {
    type V = InterfaceInfoView;

    open spec fn view(&self) -> InterfaceInfoView {
        InterfaceInfoView {
            name: self.name@,
            index: self.index,
            mac_address: opt_view(self.mac_address),
            mtu: self.mtu,
            state: opt_view(self.state),
            flags: views(self.flags@),
            addresses: addresses_of(self.addresses@),
            stats: self.stats,
        }
    }
}

/// The addresses of a list of address records, as owned strings.
pub fn address_strings(items: &Vec<InterfaceAddress>) -> (r: Vec<String>)
    ensures
        views(r@) == addresses_of(items@),
{
    let mut out: Vec<String> = Vec::new();
    let mut i: usize = 0;
    while i < items.len()
        invariant
            i <= items.len(),
            out@.len() == i,
            forall|j: int| 0 <= j < i ==> out@[j]@ == items@[j].address@,
        decreases items.len() - i,
    {
        out.push(items[i].address.clone());
        i += 1;
    }
    assert(views(out@) =~= addresses_of(items@));
    out
}

impl Clone for InterfaceInfo {
    fn clone(&self) -> (r: Self)
        ensures
            r@ == self@,
    {
        let mut addresses: Vec<InterfaceAddress> = Vec::new();
        let mut i: usize = 0;
        while i < self.addresses.len()
            invariant
                i <= self.addresses.len(),
                addresses@.len() == i,
                forall|j: int| 0 <= j < i ==> addresses@[j].address == self.addresses@[j].address,
            decreases self.addresses.len() - i,
        {
            addresses.push(InterfaceAddress { address: self.addresses[i].address.clone() });
            i += 1;
        }
        assert(addresses_of(addresses@) =~= addresses_of(self.addresses@));
        InterfaceInfo {
            name: self.name.clone(),
            index: self.index,
            mac_address: clone_opt_string(&self.mac_address),
            mtu: self.mtu,
            state: clone_opt_string(&self.state),
            flags: clone_strings(&self.flags),
            addresses,
            stats: self.stats,
        }
    }
}

} // verus!
