//! The VPN tunnels shown to clients.

use vstd::prelude::*;
use crate::error::{not_found, ErrorView, NetctlError};
use crate::registry::{order_with, view_all, Registry};
use crate::types::{CRVpnInfo, CRVpnState, VpnInfoView};

verus! {

/// What looking up the tunnel called `name` gives: the tunnel, or `NotFound`.
pub open spec fn lookup_vpn(tunnels: Map<Seq<char>, VpnInfoView>, name: Seq<char>) -> Result<
    VpnInfoView,
    ErrorView,
> {
    if tunnels.contains_key(name) {
        Ok(tunnels[name])
    } else {
        Err(ErrorView::NotFound("VPN connection "@ + name + " not found"@))
    }
}

/// The registry of VPN tunnels.
pub struct CRVPN {
    connections: Registry<CRVpnInfo>,
}

impl CRVPN {
    /// The tunnels by name.
    pub closed spec fn tunnels(&self) -> Map<Seq<char>, VpnInfoView> {
        self.connections@
    }

    /// The names of the tunnels, in the order they were first added.
    pub closed spec fn names(&self) -> Seq<Seq<char>> {
        self.connections.keys()
    }

    /// The tunnels, each at the position of its name.
    pub closed spec fn listing(&self) -> Seq<VpnInfoView> {
        self.connections.value_views()
    }

    /// No name occurs twice, and every tunnel is stored under its own name.
    pub closed spec fn wf(&self) -> bool {
        &&& self.connections.wf()
        &&& forall|i: int|
            0 <= i < self.connections.keys().len() ==> (
            #[trigger] self.connections.values()[i])@.name == self.connections.keys()[i]
    }

    /// How names, listing and lookup fit together.
    pub proof fn lemma_wf(&self)
        requires
            self.wf(),
        ensures
            self.names().no_duplicates(),
            self.names().len() == self.listing().len(),
            forall|i: int|
                0 <= i < self.names().len() ==> {
                    &&& self.tunnels().contains_key(#[trigger] self.names()[i])
                    &&& self.tunnels()[self.names()[i]] == self.listing()[i]
                    &&& self.listing()[i].name == self.names()[i]
                },
            forall|k: Seq<char>| self.tunnels().contains_key(k) <==> self.names().contains(k),
    {
        assert forall|i: int| 0 <= i < self.names().len() implies {
            &&& self.tunnels().contains_key(#[trigger] self.names()[i])
            &&& self.tunnels()[self.names()[i]] == self.listing()[i]
            &&& self.listing()[i].name == self.names()[i]
        } by {
            self.connections.lemma_entry(i);
            assert(self.connections.values()[i]@.name == self.connections.keys()[i]);
        }
    }

    /// A registry without tunnels.
    pub fn new() -> (r: Self)
        ensures
            r.wf(),
            r.tunnels() == Map::<Seq<char>, VpnInfoView>::empty(),
            r.names() == Seq::<Seq<char>>::empty(),
    {
        CRVPN { connections: Registry::new() }
    }

    /// Adds a tunnel, or replaces the one that has the same name.
    pub fn add_connection(&mut self, info: CRVpnInfo)
        requires
            old(self).wf(),
        ensures
            final(self).wf(),
            final(self).tunnels() == old(self).tunnels().insert(info@.name, info@),
            final(self).names() == order_with(old(self).names(), info@.name),
    {
        let ghost before = *self;
        let key = info.name.clone();
        self.connections.insert(key, info);
        proof {
            assert forall|i: int| 0 <= i < self.connections.keys().len() implies (
            #[trigger] self.connections.values()[i])@.name == self.connections.keys()[i] by {
                if before.connections.contains(info@.name) {
                    before.connections.lemma_present(info@.name);
                    if i != before.connections.index_of(info@.name) {
                        assert(self.connections.values()[i] == before.connections.values()[i]);
                    }
                } else {
                    if i < before.connections.keys().len() {
                        assert(self.connections.values()[i] == before.connections.values()[i]);
                    }
                }
            }
        }
    }

    /// Sets the state of the tunnel called `name`.
    pub fn update_state(&mut self, name: &str, state: CRVpnState) -> (r: Result<(), NetctlError>)
        requires
            old(self).wf(),
        ensures
            final(self).wf(),
            final(self).names() == old(self).names(),
            old(self).tunnels().contains_key(name@) ==> {
                &&& r is Ok
                &&& final(self).tunnels() == old(self).tunnels().insert(
                    name@,
                    VpnInfoView { state, ..old(self).tunnels()[name@] },
                )
            },
            !old(self).tunnels().contains_key(name@) ==> {
                &&& r matches Err(e) && e@ == ErrorView::NotFound(
                    "VPN connection "@ + name@ + " not found"@,
                )
                &&& final(self).tunnels() == old(self).tunnels()
            },
    {
        let ghost before = *self;
        match self.connections.position(name) {
            Some(i) => {
                let mut info = self.connections.value_at(i).clone();
                info.state = state;
                proof {
                    before.connections.lemma_entry(i as int);
                }
                self.connections.set_at(i, info);
                proof {
                    assert forall|j: int| 0 <= j < self.connections.keys().len() implies (
                    #[trigger] self.connections.values()[j])@.name
                        == self.connections.keys()[j] by {
                        if j != i {
                            assert(self.connections.values()[j] == before.connections.values()[j]);
                        }
                    }
                }
                Ok(())
            },
            None => Err(not_found("VPN connection ", name)),
        }
    }

    /// The tunnel called `name`.
    pub fn get_connection(&self, name: &str) -> (r: Result<CRVpnInfo, NetctlError>)
        requires
            self.wf(),
        ensures
            match lookup_vpn(self.tunnels(), name@) {
                Ok(t) => r matches Ok(found) && found@ == t,
                Err(e) => r matches Err(x) && x@ == e,
            },
    {
        match self.connections.get(name) {
            Some(t) => Ok(t.clone()),
            None => Err(not_found("VPN connection ", name)),
        }
    }

    /// A copy of all tunnels, in the order they were first added.
    pub fn list_connections(&self) -> (r: Vec<CRVpnInfo>)
        requires
            self.wf(),
        ensures
            view_all(r@) == self.listing(),
    {
        let mut out: Vec<CRVpnInfo> = Vec::new();
        let n: usize = self.connections.len();
        let mut i: usize = 0;
        while i < n
            invariant
                self.wf(),
                n == self.connections.keys().len(),
                i <= n,
                out@.len() == i,
                forall|j: int| 0 <= j < i ==> out@[j]@ == self.connections.values()[j]@,
            decreases n - i,
        {
            out.push(self.connections.value_at(i).clone());
            i += 1;
        }
        assert(view_all(out@) =~= self.listing());
        out
    }
}

impl Default for CRVPN {
    fn default() -> (r: Self)
        ensures
            r.wf(),
            r.tunnels() == Map::<Seq<char>, VpnInfoView>::empty(),
    {
        Self::new()
    }
}

} // verus!
