//! The devices shown to clients, with the overall network state and the
//! result of the connectivity check.

use vstd::prelude::*;
use crate::error::{not_found, ErrorView, NetctlError};
use crate::registry::{order_with, order_without, view_all, Registry};
use crate::types::{CRConnectivity, CRDeviceInfo, CRDeviceState, CRNetworkState, DeviceInfoView};

verus! {

/// What looking up the device at `path` gives: the device, or `NotFound`.
pub open spec fn lookup_device_info(
    devices: Map<Seq<char>, DeviceInfoView>,
    path: Seq<char>,
) -> Result<DeviceInfoView, ErrorView> {
    if devices.contains_key(path) {
        Ok(devices[path])
    } else {
        Err(ErrorView::NotFound("Device "@ + path + " not found"@))
    }
}

/// What adding `info` gives: it stands under its path, in place of whatever
/// stood there before.
pub open spec fn with_device(
    devices: Map<Seq<char>, DeviceInfoView>,
    info: DeviceInfoView,
) -> Map<Seq<char>, DeviceInfoView> {
    devices.insert(info.path, info)
}

/// What setting the state of the device at `path` gives, when it is there.
pub open spec fn with_device_state(
    devices: Map<Seq<char>, DeviceInfoView>,
    path: Seq<char>,
    state: CRDeviceState,
) -> Map<Seq<char>, DeviceInfoView> {
    devices.insert(path, DeviceInfoView { state, ..devices[path] })
}

/// A device that was added is what a lookup under its path gives, whatever
/// was added under that path before: the last one added replaces the
/// earlier ones whole, and devices under other paths stay as they were.
pub proof fn lemma_add_then_get(
    devices: Map<Seq<char>, DeviceInfoView>,
    earlier: DeviceInfoView,
    last: DeviceInfoView,
    other: Seq<char>,
)
    requires
        earlier.path == last.path,
    ensures
        lookup_device_info(with_device(devices, last), last.path) == Ok::<
            DeviceInfoView,
            ErrorView,
        >(last),
        with_device(with_device(devices, earlier), last) == with_device(devices, last),
        other != last.path ==> lookup_device_info(with_device(devices, last), other)
            == lookup_device_info(devices, other),
{
    assert(with_device(with_device(devices, earlier), last) =~= with_device(devices, last));
}

/// The device registry shown to clients.
pub struct CRNetworkControl {
    devices: Registry<CRDeviceInfo>,
    state: CRNetworkState,
    connectivity: CRConnectivity,
}

impl CRNetworkControl {
    /// The devices by object path.
    pub closed spec fn devices(&self) -> Map<Seq<char>, DeviceInfoView> {
        self.devices@
    }

    /// The object paths of the devices, in the order they were first added.
    pub closed spec fn paths(&self) -> Seq<Seq<char>> {
        self.devices.keys()
    }

    /// The devices, each at the position of its path.
    pub closed spec fn listing(&self) -> Seq<DeviceInfoView> {
        self.devices.value_views()
    }

    /// The overall network state.
    pub closed spec fn network_state(&self) -> CRNetworkState {
        self.state
    }

    /// The result of the connectivity check.
    pub closed spec fn connectivity(&self) -> CRConnectivity {
        self.connectivity
    }

    /// No path occurs twice, and every device is stored under its own path.
    pub closed spec fn wf(&self) -> bool {
        &&& self.devices.wf()
        &&& forall|i: int|
            0 <= i < self.devices.keys().len() ==> (#[trigger] self.devices.values()[i])@.path
                == self.devices.keys()[i]
    }

    /// How paths, listing and lookup fit together.
    pub proof fn lemma_wf(&self)
        requires
            self.wf(),
        ensures
            self.paths().no_duplicates(),
            self.paths().len() == self.listing().len(),
            forall|i: int|
                0 <= i < self.paths().len() ==> {
                    &&& self.devices().contains_key(#[trigger] self.paths()[i])
                    &&& self.devices()[self.paths()[i]] == self.listing()[i]
                    &&& self.listing()[i].path == self.paths()[i]
                },
            forall|k: Seq<char>| self.devices().contains_key(k) <==> self.paths().contains(k),
    {
        assert forall|i: int| 0 <= i < self.paths().len() implies {
            &&& self.devices().contains_key(#[trigger] self.paths()[i])
            &&& self.devices()[self.paths()[i]] == self.listing()[i]
            &&& self.listing()[i].path == self.paths()[i]
        } by {
            self.devices.lemma_entry(i);
            assert(self.devices.values()[i]@.path == self.devices.keys()[i]);
        }
    }

    /// A registry without devices, in state `Unknown`.
    pub fn new() -> (r: Self)
        ensures
            r.wf(),
            r.devices() == Map::<Seq<char>, DeviceInfoView>::empty(),
            r.paths() == Seq::<Seq<char>>::empty(),
            r.network_state() == CRNetworkState::Unknown,
            r.connectivity() == CRConnectivity::Unknown,
    {
        CRNetworkControl {
            devices: Registry::new(),
            state: CRNetworkState::Unknown,
            connectivity: CRConnectivity::Unknown,
        }
    }

    /// Adds a device, or replaces the one that has the same path.
    pub fn add_device(&mut self, info: CRDeviceInfo)
        requires
            old(self).wf(),
        ensures
            final(self).wf(),
            final(self).devices() == with_device(old(self).devices(), info@),
            final(self).paths() == order_with(old(self).paths(), info@.path),
            final(self).network_state() == old(self).network_state(),
            final(self).connectivity() == old(self).connectivity(),
    {
        let ghost before = *self;
        let key = info.path.clone();
        self.devices.insert(key, info);
        proof {
            assert forall|i: int| 0 <= i < self.devices.keys().len() implies (
            #[trigger] self.devices.values()[i])@.path == self.devices.keys()[i] by {
                if before.devices.contains(info@.path) {
                    before.devices.lemma_present(info@.path);
                    if i != before.devices.index_of(info@.path) {
                        assert(self.devices.values()[i] == before.devices.values()[i]);
                    }
                } else {
                    if i < before.devices.keys().len() {
                        assert(self.devices.values()[i] == before.devices.values()[i]);
                    }
                }
            }
        }
    }

    /// Takes the device at `path` out.
    pub fn remove_device(&mut self, path: &str) -> (r: Result<(), NetctlError>)
        requires
            old(self).wf(),
        ensures
            final(self).wf(),
            final(self).network_state() == old(self).network_state(),
            final(self).connectivity() == old(self).connectivity(),
            final(self).devices() == old(self).devices().remove(path@),
            final(self).paths() == order_without(old(self).paths(), path@),
            old(self).devices().contains_key(path@) ==> r is Ok,
            !old(self).devices().contains_key(path@) ==> {
                &&& r matches Err(e) && e@ == ErrorView::NotFound(
                    "Device "@ + path@ + " not found"@,
                )
                &&& final(self).devices() == old(self).devices()
                &&& final(self).paths() == old(self).paths()
            },
    {
        let ghost before = *self;
        match self.devices.remove(path) {
            Some(_) => {
                proof {
                    before.devices.lemma_present(path@);
                    let p = before.devices.index_of(path@);
                    assert forall|i: int| 0 <= i < self.devices.keys().len() implies (
                    #[trigger] self.devices.values()[i])@.path == self.devices.keys()[i] by {
                        let i0 = if i < p {
                            i
                        } else {
                            i + 1
                        };
                        assert(self.devices.values()[i] == before.devices.values()[i0]);
                        assert(self.devices.keys()[i] == before.devices.keys()[i0]);
                    }
                }
                Ok(())
            },
            None => {
                proof {
                    assert(before.devices@.remove(path@) =~= before.devices@);
                }
                Err(not_found("Device ", path))
            },
        }
    }

    /// Sets the state of the device at `path`.
    pub fn update_device_state(&mut self, path: &str, state: CRDeviceState) -> (r: Result<
        (),
        NetctlError,
    >)
        requires
            old(self).wf(),
        ensures
            final(self).wf(),
            final(self).paths() == old(self).paths(),
            final(self).network_state() == old(self).network_state(),
            final(self).connectivity() == old(self).connectivity(),
            old(self).devices().contains_key(path@) ==> {
                &&& r is Ok
                &&& final(self).devices() == with_device_state(old(self).devices(), path@, state)
            },
            !old(self).devices().contains_key(path@) ==> {
                &&& r matches Err(e) && e@ == ErrorView::NotFound(
                    "Device "@ + path@ + " not found"@,
                )
                &&& final(self).devices() == old(self).devices()
            },
    {
        let ghost before = *self;
        match self.devices.position(path) {
            Some(i) => {
                let mut info = self.devices.value_at(i).clone();
                info.state = state;
                proof {
                    before.devices.lemma_entry(i as int);
                }
                self.devices.set_at(i, info);
                proof {
                    assert forall|j: int| 0 <= j < self.devices.keys().len() implies (
                    #[trigger] self.devices.values()[j])@.path == self.devices.keys()[j] by {
                        if j != i {
                            assert(self.devices.values()[j] == before.devices.values()[j]);
                        }
                    }
                }
                Ok(())
            },
            None => Err(not_found("Device ", path)),
        }
    }

    /// The device at `path`.
    pub fn get_device(&self, path: &str) -> (r: Result<CRDeviceInfo, NetctlError>)
        requires
            self.wf(),
        ensures
            match lookup_device_info(self.devices(), path@) {
                Ok(d) => r matches Ok(found) && found@ == d,
                Err(e) => r matches Err(x) && x@ == e,
            },
    {
        match self.devices.get(path) {
            Some(d) => Ok(d.clone()),
            None => Err(not_found("Device ", path)),
        }
    }

    /// A copy of all devices, in the order they were first added.
    pub fn list_devices(&self) -> (r: Vec<CRDeviceInfo>)
        requires
            self.wf(),
        ensures
            view_all(r@) == self.listing(),
    {
        let mut out: Vec<CRDeviceInfo> = Vec::new();
        let n: usize = self.devices.len();
        let mut i: usize = 0;
        while i < n
            invariant
                self.wf(),
                n == self.devices.keys().len(),
                i <= n,
                out@.len() == i,
                forall|j: int| 0 <= j < i ==> out@[j]@ == self.devices.values()[j]@,
            decreases n - i,
        {
            out.push(self.devices.value_at(i).clone());
            i += 1;
        }
        assert(view_all(out@) =~= self.listing());
        out
    }

    /// Sets the overall network state.
    pub fn set_network_state(&mut self, state: CRNetworkState)
        requires
            old(self).wf(),
        ensures
            final(self).wf(),
            final(self).network_state() == state,
            final(self).connectivity() == old(self).connectivity(),
            final(self).devices() == old(self).devices(),
            final(self).paths() == old(self).paths(),
    {
        self.state = state;
    }

    /// The overall network state.
    pub fn get_network_state(&self) -> (r: CRNetworkState)
        ensures
            r == self.network_state(),
    {
        self.state
    }

    /// Sets the result of the connectivity check.
    pub fn set_connectivity(&mut self, connectivity: CRConnectivity)
        requires
            old(self).wf(),
        ensures
            final(self).wf(),
            final(self).connectivity() == connectivity,
            final(self).network_state() == old(self).network_state(),
            final(self).devices() == old(self).devices(),
            final(self).paths() == old(self).paths(),
    {
        self.connectivity = connectivity;
    }

    /// The result of the connectivity check.
    pub fn get_connectivity(&self) -> (r: CRConnectivity)
        ensures
            r == self.connectivity(),
    {
        self.connectivity
    }
}

impl Default for CRNetworkControl {
    fn default() -> (r: Self)
        ensures
            r.wf(),
            r.devices() == Map::<Seq<char>, DeviceInfoView>::empty(),
    {
        Self::new()
    }
}

} // verus!
