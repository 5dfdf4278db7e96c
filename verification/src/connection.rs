//! Connection profiles: reusable descriptions of how to connect, found by
//! their generated identifier or by the name the user gave them.

use vstd::prelude::*;
use crate::error::{invalid_parameter, not_found, ErrorView, NetctlError};
use crate::registry::{order_with, order_without, view_all, Registry};
use crate::settings::{value_in, SettingValue, SettingValueView, SettingView, Settings};
use crate::text::{concat3, decimal, str_eq, u64_to_string};
use crate::types::{
    new_connection_info, CRConnectionInfo, CRConnectionState, CRConnectionType,
    ConnectionInfoView,
};

verus! {

/// What a request to add a profile asks for.
#[derive(Debug)]
pub struct ConnectionSettings {
    /// Display name.
    pub id: String,
    /// Kind of connection.
    pub conn_type: CRConnectionType,
    /// Whether to connect without being asked, when the request says so.
    pub autoconnect: Option<bool>,
}

/// A `ConnectionSettings` with its text as a character sequence.
pub struct ConnectionSettingsView {
    pub id: Seq<char>,
    pub conn_type: CRConnectionType,
    pub autoconnect: Option<bool>,
}

impl View for ConnectionSettings {
    type V = ConnectionSettingsView;

    open spec fn view(&self) -> ConnectionSettingsView {
        ConnectionSettingsView {
            id: self.id@,
            conn_type: self.conn_type,
            autoconnect: self.autoconnect,
        }
    }
}

/// The truth value under `Autoconnect`, when there is one.
pub open spec fn autoconnect_of(settings: Seq<SettingView>) -> Option<bool> {
    match value_in(settings, "Autoconnect"@) {
        Some(SettingValueView::Bool(b)) => Some(b),
        _ => None,
    }
}

/// What a bag of settings asks for when a profile is added. `ID` must be a
/// text and `Type` a 32-bit number that stands for a kind of connection;
/// `Autoconnect` counts when it is a truth value.
pub open spec fn parse_settings(settings: Seq<SettingView>) -> Result<ConnectionSettingsView, ErrorView> {
    match value_in(settings, "ID"@) {
        None => Err(ErrorView::InvalidParameter("Missing ID field"@)),
        Some(SettingValueView::Str(id)) => match value_in(settings, "Type"@) {
            None => Err(ErrorView::InvalidParameter("Missing Type field"@)),
            Some(SettingValueView::U32(n)) => match CRConnectionType::spec_from_code(n) {
                Some(t) => Ok(
                    ConnectionSettingsView {
                        id,
                        conn_type: t,
                        autoconnect: autoconnect_of(settings),
                    },
                ),
                None => Err(
                    ErrorView::InvalidParameter("Invalid connection type: "@ + decimal(n as nat)),
                ),
            },
            Some(_) => Err(ErrorView::InvalidParameter("Invalid Type"@)),
        },
        Some(_) => Err(ErrorView::InvalidParameter("Invalid ID type"@)),
    }
}

/// The display name that a bag of settings sets: the text under `ID`.
pub open spec fn new_id_of(settings: Seq<SettingView>) -> Option<Seq<char>> {
    match value_in(settings, "ID"@) {
        Some(SettingValueView::Str(id)) => Some(id),
        _ => None,
    }
}

/// A profile with the changes of a bag of settings applied.
pub open spec fn modified(c: ConnectionInfoView, settings: Seq<SettingView>) -> ConnectionInfoView {
    ConnectionInfoView {
        id: match new_id_of(settings) {
            Some(id) => id,
            None => c.id,
        },
        autoconnect: match autoconnect_of(settings) {
            Some(b) => b,
            None => c.autoconnect,
        },
        ..c
    }
}

/// The first identifier in `order` whose profile has the display name `id`.
pub open spec fn first_named(
    order: Seq<Seq<char>>,
    connections: Map<Seq<char>, ConnectionInfoView>,
    id: Seq<char>,
) -> Option<Seq<char>>
    decreases order.len(),
{
    if order.len() == 0 {
        None
    } else if connections[order[0]].id == id {
        Some(order[0])
    } else {
        first_named(order.drop_first(), connections, id)
    }
}

/// The identifier that `id` stands for: `id` itself when it is the
/// identifier of a profile; otherwise that of the oldest profile with `id`
/// as its display name.
pub open spec fn resolve(
    order: Seq<Seq<char>>,
    connections: Map<Seq<char>, ConnectionInfoView>,
    id: Seq<char>,
) -> Option<Seq<char>> {
    if connections.contains_key(id) {
        Some(id)
    } else {
        first_named(order, connections, id)
    }
}

/// The text of the failure for a profile that cannot be found.
pub open spec fn connection_not_found(id: Seq<char>) -> ErrorView {
    ErrorView::NotFound("Connection "@ + id + " not found"@)
}

/// The text of the failure for an identifier that a profile already has.
pub open spec fn identifier_taken(uuid: Seq<char>) -> ErrorView {
    ErrorView::AlreadyExists("Connection "@ + uuid + " already exists"@)
}

/// Length of a generated identifier in its text form.
pub const GENERATED_ID_LEN: usize = 36;

/// Whether `e` reports that a generated identifier is one that a profile
/// among `connections` already has.
pub open spec fn reports_collision(
    connections: Map<Seq<char>, ConnectionInfoView>,
    e: ErrorView,
) -> bool {
    exists|u: Seq<char>|
        #[trigger] connections.contains_key(u) && u.len() == GENERATED_ID_LEN && e
            == identifier_taken(u)
}

/// Whether a generated identifier can be one that a profile among
/// `connections` already has: only an identifier of the same length can.
pub open spec fn can_collide(connections: Map<Seq<char>, ConnectionInfoView>) -> bool {
    exists|u: Seq<char>| #[trigger] connections.contains_key(u) && u.len() == GENERATED_ID_LEN
}

/// The profiles among `all` that are active or being activated.
pub open spec fn active_of(all: Seq<ConnectionInfoView>) -> Seq<ConnectionInfoView>
    decreases all.len(),
{
    if all.len() == 0 {
        Seq::empty()
    } else if all.last().state == CRConnectionState::Activated || all.last().state
        == CRConnectionState::Activating {
        active_of(all.drop_last()).push(all.last())
    } else {
        active_of(all.drop_last())
    }
}

/// The profile that a request gives rise to under the identifier `uuid`.
pub open spec fn profile_for(uuid: Seq<char>, settings: ConnectionSettingsView) -> ConnectionInfoView {
    let fresh = new_connection_info(uuid, settings.id, settings.conn_type);
    match settings.autoconnect {
        Some(b) => ConnectionInfoView { autoconnect: b, ..fresh },
        None => fresh,
    }
}

/// The copy of `source` under the identifier `uuid` and the display name
/// `name`: a new profile that keeps the kind and the autoconnect flag.
pub open spec fn clone_of(source: ConnectionInfoView, uuid: Seq<char>, name: Seq<char>) -> ConnectionInfoView {
    ConnectionInfoView {
        autoconnect: source.autoconnect,
        ..new_connection_info(uuid, name, source.conn_type)
    }
}

/// An identifier that nothing else found first stands for its profile.
proof fn lemma_first_named(
    order: Seq<Seq<char>>,
    connections: Map<Seq<char>, ConnectionInfoView>,
    id: Seq<char>,
    k: int,
)
    requires
        0 <= k < order.len(),
        connections[order[k]].id == id,
        forall|j: int| 0 <= j < k ==> connections[#[trigger] order[j]].id != id,
    ensures
        first_named(order, connections, id) == Some(order[k]),
    decreases k,
{
    if k > 0 {
        assert(connections[order[0]].id != id);
        assert forall|j: int| 0 <= j < k - 1 implies connections[#[trigger] order.drop_first()[j]].id
            != id by {
            assert(order.drop_first()[j] == order[j + 1]);
        }
        lemma_first_named(order.drop_first(), connections, id, k - 1);
    }
}

/// A profile is found by its identifier, and by its display name as long as
/// that name is no profile's identifier and no older profile carries it. Both
/// ways lead to the same profile.
pub proof fn lemma_resolve_both_ways(
    order: Seq<Seq<char>>,
    connections: Map<Seq<char>, ConnectionInfoView>,
    k: int,
)
    requires
        0 <= k < order.len(),
        connections.contains_key(order[k]),
        !connections.contains_key(connections[order[k]].id),
        forall|j: int|
            0 <= j < k ==> connections[#[trigger] order[j]].id != connections[order[k]].id,
    ensures
        resolve(order, connections, order[k]) == Some(order[k]),
        resolve(order, connections, connections[order[k]].id) == Some(order[k]),
{
    lemma_first_named(order, connections, connections[order[k]].id, k);
}

/// Where no profile in `order` carries the display name `id`, the name
/// stands for none of them.
pub proof fn lemma_no_name_no_match(
    order: Seq<Seq<char>>,
    connections: Map<Seq<char>, ConnectionInfoView>,
    id: Seq<char>,
)
    requires
        forall|j: int| 0 <= j < order.len() ==> connections[#[trigger] order[j]].id != id,
    ensures
        first_named(order, connections, id) is None,
    decreases order.len(),
{
    if order.len() > 0 {
        assert(connections[order[0]].id != id);
        assert forall|j: int| 0 <= j < order.drop_first().len() implies connections[
        #[trigger] order.drop_first()[j]].id != id by {
            assert(order.drop_first()[j] == order[j + 1]);
        }
        lemma_no_name_no_match(order.drop_first(), connections, id);
    }
}

/// A deleted profile is gone: its identifier stands for nothing afterwards,
/// unless another profile carries that identifier as its display name, in
/// which case it stands for that profile.
pub proof fn lemma_deleted_is_gone(
    order: Seq<Seq<char>>,
    connections: Map<Seq<char>, ConnectionInfoView>,
    key: Seq<char>,
)
    requires
        order.no_duplicates(),
        connections.contains_key(key),
        forall|j: int|
            0 <= j < order.len() && order[j] != key ==> connections[#[trigger] order[j]].id
                != key,
    ensures
        resolve(order_without(order, key), connections.remove(key), key) is None,
{
    let rest = order_without(order, key);
    let left = connections.remove(key);
    assert forall|j: int| 0 <= j < rest.len() implies left[#[trigger] rest[j]].id != key by {
        if order.contains(key) {
            let p = order.index_of(key);
            let j0 = if j < p {
                j
            } else {
                j + 1
            };
            assert(rest[j] == order[j0]);
            assert(order[j0] != key);
        } else {
            assert(order.contains(rest[j]));
        }
    }
    lemma_no_name_no_match(rest, left, key);
}

/// A copy under an identifier that no profile has yet is one more profile:
/// its identifier differs from the source's, it carries the source's kind
/// and autoconnect flag, every profile that was there is as it was, and the
/// order grows by the new identifier alone.
pub proof fn lemma_clone_is_new(
    order: Seq<Seq<char>>,
    connections: Map<Seq<char>, ConnectionInfoView>,
    key: Seq<char>,
    uuid: Seq<char>,
    name: Seq<char>,
)
    requires
        order.no_duplicates(),
        forall|k: Seq<char>| connections.contains_key(k) <==> order.contains(k),
        connections.contains_key(key),
        !connections.contains_key(uuid),
    ensures
        uuid != key,
        connections.insert(uuid, clone_of(connections[key], uuid, name))[uuid].uuid == uuid,
        connections.insert(uuid, clone_of(connections[key], uuid, name))[uuid].id == name,
        connections.insert(uuid, clone_of(connections[key], uuid, name))[uuid].conn_type
            == connections[key].conn_type,
        connections.insert(uuid, clone_of(connections[key], uuid, name))[uuid].autoconnect
            == connections[key].autoconnect,
        forall|k: Seq<char>|
            connections.contains_key(k) ==> #[trigger] connections.insert(
                uuid,
                clone_of(connections[key], uuid, name),
            )[k] == connections[k],
        order.push(uuid).len() == order.len() + 1,
        order.push(uuid).no_duplicates(),
{
    let more = order.push(uuid);
    assert forall|i: int, j: int| 0 <= i < more.len() && 0 <= j < more.len() && i
        != j implies more[i] != more[j] by {
        if i < order.len() {
            assert(order.contains(more[i]));
        }
        if j < order.len() {
            assert(order.contains(more[j]));
        }
    }
}

/// A copy keeps the kind and the autoconnect flag of its source and is a
/// new profile otherwise. Added under an identifier other than that of the
/// source, it leaves the source as it was.
pub proof fn lemma_clone_keeps_kind(
    connections: Map<Seq<char>, ConnectionInfoView>,
    key: Seq<char>,
    uuid: Seq<char>,
    name: Seq<char>,
)
    requires
        connections.contains_key(key),
    ensures
        clone_of(connections[key], uuid, name).uuid == uuid,
        clone_of(connections[key], uuid, name).id == name,
        clone_of(connections[key], uuid, name).conn_type == connections[key].conn_type,
        clone_of(connections[key], uuid, name).autoconnect == connections[key].autoconnect,
        clone_of(connections[key], uuid, name).state == CRConnectionState::Unknown,
        clone_of(connections[key], uuid, name).device is None,
        uuid != key ==> connections.insert(uuid, clone_of(connections[key], uuid, name))[key]
            == connections[key],
{
}

/// A new universally unique identifier, random, in its usual text form.
///
/// Calls `Uuid::new_v4` of the `uuid` crate and writes the result with
/// `to_string`, which gives the hyphenated form: 36 characters. Nothing is
/// claimed about which identifier comes back. The call ends the process if
/// the system has no randomness to give.
#[verifier::external_body]
fn new_uuid() -> (r: String)
    ensures
        r@.len() == GENERATED_ID_LEN,
{
    uuid::Uuid::new_v4().to_string()
}

/// The registry of connection profiles.
pub struct CRConnection {
    connections: Registry<CRConnectionInfo>,
}

impl CRConnection {
    /// The profiles by identifier.
    pub closed spec fn connections(&self) -> Map<Seq<char>, ConnectionInfoView> {
        self.connections@
    }

    /// The identifiers, in the order the profiles were first added.
    pub closed spec fn uuids(&self) -> Seq<Seq<char>> {
        self.connections.keys()
    }

    /// The profiles, each at the position of its identifier.
    pub closed spec fn listing(&self) -> Seq<ConnectionInfoView> {
        self.connections.value_views()
    }

    /// No identifier occurs twice, and every profile is stored under its own
    /// identifier.
    pub closed spec fn wf(&self) -> bool {
        &&& self.connections.wf()
        &&& forall|i: int|
            0 <= i < self.connections.keys().len() ==> (
            #[trigger] self.connections.values()[i])@.uuid == self.connections.keys()[i]
    }

    /// The identifier that `id` stands for in this registry.
    pub open spec fn resolved(&self, id: Seq<char>) -> Option<Seq<char>> {
        resolve(self.uuids(), self.connections(), id)
    }

    /// How identifiers, listing and lookup fit together.
    pub proof fn lemma_wf(&self)
        requires
            self.wf(),
        ensures
            self.uuids().no_duplicates(),
            self.uuids().len() == self.listing().len(),
            forall|i: int|
                0 <= i < self.uuids().len() ==> {
                    &&& self.connections().contains_key(#[trigger] self.uuids()[i])
                    &&& self.connections()[self.uuids()[i]] == self.listing()[i]
                    &&& self.listing()[i].uuid == self.uuids()[i]
                },
            forall|k: Seq<char>| self.connections().contains_key(k) <==> self.uuids().contains(k),
    {
        assert forall|i: int| 0 <= i < self.uuids().len() implies {
            &&& self.connections().contains_key(#[trigger] self.uuids()[i])
            &&& self.connections()[self.uuids()[i]] == self.listing()[i]
            &&& self.listing()[i].uuid == self.uuids()[i]
        } by {
            self.connections.lemma_entry(i);
            assert(self.connections.values()[i]@.uuid == self.connections.keys()[i]);
        }
    }

    /// Whatever `id` stands for is the identifier of a profile.
    pub proof fn lemma_resolved_present(&self, id: Seq<char>)
        requires
            self.wf(),
            self.resolved(id) is Some,
        ensures
            self.connections().contains_key(self.resolved(id)->0),
    {
        if !self.connections().contains_key(id) {
            Self::lemma_first_named_in(self.uuids(), self.connections(), id);
            let key = first_named(self.uuids(), self.connections(), id)->0;
            assert(self.uuids().contains(key));
        }
    }

    proof fn lemma_first_named_in(
        order: Seq<Seq<char>>,
        connections: Map<Seq<char>, ConnectionInfoView>,
        id: Seq<char>,
    )
        requires
            first_named(order, connections, id) is Some,
        ensures
            order.contains(first_named(order, connections, id)->0),
            connections[first_named(order, connections, id)->0].id == id,
        decreases order.len(),
    {
        if connections[order[0]].id == id {
            assert(order[0] == first_named(order, connections, id)->0);
        } else {
            Self::lemma_first_named_in(order.drop_first(), connections, id);
            let key = first_named(order.drop_first(), connections, id)->0;
            let j = choose|j: int| 0 <= j < order.drop_first().len() && order.drop_first()[j] == key;
            assert(order[j + 1] == key);
        }
    }

    /// A registry without profiles.
    pub fn new() -> (r: Self)
        ensures
            r.wf(),
            r.connections() == Map::<Seq<char>, ConnectionInfoView>::empty(),
            r.uuids() == Seq::<Seq<char>>::empty(),
    {
        CRConnection { connections: Registry::new() }
    }

    /// Adds a profile under its identifier, or replaces the one that has it.
    pub fn add_connection_internal(&mut self, conn_info: CRConnectionInfo)
        requires
            old(self).wf(),
        ensures
            final(self).wf(),
            final(self).connections() == old(self).connections().insert(
                conn_info@.uuid,
                conn_info@,
            ),
            final(self).uuids() == order_with(old(self).uuids(), conn_info@.uuid),
    {
        let ghost before = *self;
        let key = conn_info.uuid.clone();
        self.connections.insert(key, conn_info);
        proof {
            assert forall|i: int| 0 <= i < self.connections.keys().len() implies (
            #[trigger] self.connections.values()[i])@.uuid == self.connections.keys()[i] by {
                if before.connections.contains(conn_info@.uuid) {
                    before.connections.lemma_present(conn_info@.uuid);
                    if i != before.connections.index_of(conn_info@.uuid) {
                        assert(self.connections.values()[i] == before.connections.values()[i]);
                    }
                } else {
                    if i < before.connections.keys().len() {
                        assert(self.connections.values()[i] == before.connections.values()[i]);
                    }
                }
            }
        }
    }

    /// Takes the profile with identifier `uuid` out.
    pub fn remove_connection_internal(&mut self, uuid: &str) -> (r: Result<(), NetctlError>)
        requires
            old(self).wf(),
        ensures
            final(self).wf(),
            final(self).connections() == old(self).connections().remove(uuid@),
            final(self).uuids() == order_without(old(self).uuids(), uuid@),
            old(self).connections().contains_key(uuid@) ==> r is Ok,
            !old(self).connections().contains_key(uuid@) ==> {
                &&& r matches Err(e) && e@ == connection_not_found(uuid@)
                &&& final(self).connections() == old(self).connections()
                &&& final(self).uuids() == old(self).uuids()
            },
    {
        let ghost before = *self;
        match self.connections.remove(uuid) {
            Some(_) => {
                proof {
                    before.connections.lemma_present(uuid@);
                    let p = before.connections.index_of(uuid@);
                    assert forall|i: int| 0 <= i < self.connections.keys().len() implies (
                    #[trigger] self.connections.values()[i])@.uuid
                        == self.connections.keys()[i] by {
                        let i0 = if i < p {
                            i
                        } else {
                            i + 1
                        };
                        assert(self.connections.values()[i] == before.connections.values()[i0]);
                        assert(self.connections.keys()[i] == before.connections.keys()[i0]);
                    }
                }
                Ok(())
            },
            None => {
                proof {
                    assert(before.connections@.remove(uuid@) =~= before.connections@);
                }
                Err(not_found("Connection ", uuid))
            },
        }
    }

    /// Puts `changed` in place of the profile at position `i`.
    fn replace_at(&mut self, i: usize, changed: CRConnectionInfo)
        requires
            old(self).wf(),
            i < old(self).uuids().len(),
            changed@.uuid == old(self).uuids()[i as int],
        ensures
            final(self).wf(),
            final(self).uuids() == old(self).uuids(),
            final(self).connections() == old(self).connections().insert(
                old(self).uuids()[i as int],
                changed@,
            ),
    {
        let ghost before = *self;
        self.connections.set_at(i, changed);
        proof {
            assert forall|j: int| 0 <= j < self.connections.keys().len() implies (
            #[trigger] self.connections.values()[j])@.uuid == self.connections.keys()[j] by {
                if j != i {
                    assert(self.connections.values()[j] == before.connections.values()[j]);
                }
            }
        }
    }

    /// Sets the state of the profile with identifier `uuid`.
    pub fn update_state(&mut self, uuid: &str, state: CRConnectionState) -> (r: Result<
        (),
        NetctlError,
    >)
        requires
            old(self).wf(),
        ensures
            final(self).wf(),
            final(self).uuids() == old(self).uuids(),
            old(self).connections().contains_key(uuid@) ==> {
                &&& r is Ok
                &&& final(self).connections() == old(self).connections().insert(
                    uuid@,
                    ConnectionInfoView { state, ..old(self).connections()[uuid@] },
                )
            },
            !old(self).connections().contains_key(uuid@) ==> {
                &&& r matches Err(e) && e@ == connection_not_found(uuid@)
                &&& final(self).connections() == old(self).connections()
            },
    {
        match self.connections.position(uuid) {
            Some(i) => {
                let mut info = self.connections.value_at(i).clone();
                info.state = state;
                proof {
                    self.connections.lemma_entry(i as int);
                }
                self.replace_at(i, info);
                Ok(())
            },
            None => Err(not_found("Connection ", uuid)),
        }
    }

    /// The profile with identifier `uuid`.
    pub fn get_connection_info(&self, uuid: &str) -> (r: Option<CRConnectionInfo>)
        requires
            self.wf(),
        ensures
            match r {
                Some(c) => self.connections().contains_key(uuid@) && c@ == self.connections()[uuid@],
                None => !self.connections().contains_key(uuid@),
            },
    {
        match self.connections.get(uuid) {
            Some(c) => Some(c.clone()),
            None => None,
        }
    }

    /// Where the profile that `id` stands for sits.
    fn resolve_position(&self, id: &str) -> (r: Option<usize>)
        requires
            self.wf(),
        ensures
            match r {
                Some(i) => i < self.uuids().len() && self.resolved(id@) == Some(
                    self.uuids()[i as int],
                ) && self.connections().contains_key(self.uuids()[i as int])
                    && self.connections()[self.uuids()[i as int]]
                    == self.connections.values()[i as int]@,
                None => self.resolved(id@) is None,
            },
    {
        match self.connections.position(id) {
            Some(i) => {
                proof {
                    self.connections.lemma_entry(i as int);
                    self.connections.lemma_present(id@);
                }
                return Some(i);
            },
            None => {},
        }
        let n: usize = self.connections.len();
        let ghost order = self.uuids();
        let ghost conns = self.connections();
        let mut i: usize = 0;
        assert(order.subrange(0, order.len() as int) =~= order);
        while i < n
            invariant
                self.wf(),
                order == self.uuids(),
                conns == self.connections(),
                n == order.len(),
                i <= n,
                !conns.contains_key(id@),
                first_named(order.subrange(i as int, n as int), conns, id@) == first_named(
                    order,
                    conns,
                    id@,
                ),
            decreases n - i,
        {
            let c = self.connections.value_at(i);
            proof {
                self.connections.lemma_entry(i as int);
                let rest = order.subrange(i as int, n as int);
                assert(rest[0] == order[i as int]);
                assert(rest.drop_first() =~= order.subrange(i + 1, n as int));
            }
            if str_eq(c.id.as_str(), id) {
                return Some(i);
            }
            i += 1;
        }
        assert(order.subrange(n as int, n as int) =~= Seq::<Seq<char>>::empty());
        None
    }

    /// The profile that `id` stands for, be it an identifier or a display
    /// name.
    pub fn get_connection(&self, id: &str) -> (r: Result<CRConnectionInfo, NetctlError>)
        requires
            self.wf(),
        ensures
            match self.resolved(id@) {
                Some(key) => r matches Ok(c) && c@ == self.connections()[key],
                None => r matches Err(e) && e@ == connection_not_found(id@),
            },
    {
        match self.resolve_position(id) {
            Some(i) => Ok(self.connections.value_at(i).clone()),
            None => Err(not_found("Connection ", id)),
        }
    }

    /// A copy of all profiles, in the order they were first added.
    pub fn list_connections(&self) -> (r: Vec<CRConnectionInfo>)
        requires
            self.wf(),
        ensures
            view_all(r@) == self.listing(),
    {
        let mut out: Vec<CRConnectionInfo> = Vec::new();
        let n: usize = self.connections.len();
        let mut i: usize = 0;
        while i < n
            invariant
                self.wf(),
                n == self.connections.keys().len(),
                i <= n,
                out@.len() == i,
                forall|j: int| 0 <= j < i ==> out@[j]@ == self.connections.values()[j]@,
            decreases n - i,
        {
            out.push(self.connections.value_at(i).clone());
            i += 1;
        }
        assert(view_all(out@) =~= self.listing());
        out
    }

    /// A copy of the profiles that are active or being activated.
    pub fn get_active_connections(&self) -> (r: Vec<CRConnectionInfo>)
        requires
            self.wf(),
        ensures
            view_all(r@) == active_of(self.listing()),
    {
        let mut out: Vec<CRConnectionInfo> = Vec::new();
        let n: usize = self.connections.len();
        let mut i: usize = 0;
        let ghost all = self.listing();
        assert(all.subrange(0, 0) =~= Seq::<ConnectionInfoView>::empty());
        assert(view_all(out@) =~= Seq::<ConnectionInfoView>::empty());
        while i < n
            invariant
                self.wf(),
                all == self.listing(),
                n == self.connections.keys().len(),
                n == all.len(),
                i <= n,
                view_all(out@) == active_of(all.subrange(0, i as int)),
            decreases n - i,
        {
            let c = self.connections.value_at(i);
            proof {
                assert(all.subrange(0, i + 1).drop_last() =~= all.subrange(0, i as int));
                assert(all.subrange(0, i + 1).last() == c@);
            }
            if c.state == CRConnectionState::Activated || c.state == CRConnectionState::Activating {
                let ghost prior = out@;
                let copy = c.clone();
                out.push(copy);
                assert(view_all(out@) =~= view_all(prior).push(c@));
            }
            i += 1;
        }
        assert(all.subrange(0, i as int) =~= all);
        out
    }

    /// Reads what a request to add a profile asks for.
    pub fn read_settings(settings: &Settings) -> (r: Result<ConnectionSettings, NetctlError>)
        ensures
            match parse_settings(settings@) {
                Ok(s) => r matches Ok(got) && got@ == s,
                Err(e) => r matches Err(x) && x@ == e,
            },
    {
        let id = match settings.get("ID") {
            None => {
                return Err(NetctlError::InvalidParameter(String::from_str("Missing ID field")));
            },
            Some(SettingValue::Str(s)) => s.clone(),
            Some(_) => {
                return Err(NetctlError::InvalidParameter(String::from_str("Invalid ID type")));
            },
        };
        let code: u32 = match settings.get("Type") {
            None => {
                return Err(NetctlError::InvalidParameter(String::from_str("Missing Type field")));
            },
            Some(SettingValue::U32(n)) => *n,
            Some(_) => {
                return Err(NetctlError::InvalidParameter(String::from_str("Invalid Type")));
            },
        };
        let conn_type = match CRConnectionType::from_code(code) {
            Some(t) => t,
            None => {
                let number = u64_to_string(code as u64);
                return Err(invalid_parameter("Invalid connection type: ", number.as_str()));
            },
        };
        let autoconnect = match settings.get("Autoconnect") {
            Some(SettingValue::Bool(b)) => Some(*b),
            _ => None,
        };
        Ok(ConnectionSettings { id, conn_type, autoconnect })
    }

    /// Adds the profile that `settings` asks for under the identifier `uuid`
    /// and hands the identifier back. The identifier must be new: one that a
    /// profile already has is refused with `AlreadyExists`. Settings that
    /// cannot be read are reported first. A refusal changes nothing.
    pub fn add_connection_as(&mut self, settings: &Settings, uuid: String) -> (r: Result<
        String,
        NetctlError,
    >)
        requires
            old(self).wf(),
        ensures
            final(self).wf(),
            match parse_settings(settings@) {
                Ok(s) => if old(self).connections().contains_key(uuid@) {
                    &&& r matches Err(x) && x@ == identifier_taken(uuid@)
                    &&& final(self).connections() == old(self).connections()
                    &&& final(self).uuids() == old(self).uuids()
                } else {
                    &&& r matches Ok(id) && id@ == uuid@
                    &&& final(self).connections() == old(self).connections().insert(
                        uuid@,
                        profile_for(uuid@, s),
                    )
                    &&& final(self).uuids() == old(self).uuids().push(uuid@)
                },
                Err(e) => {
                    &&& r matches Err(x) && x@ == e
                    &&& final(self).connections() == old(self).connections()
                    &&& final(self).uuids() == old(self).uuids()
                },
            },
    {
        let wanted = match Self::read_settings(settings) {
            Ok(w) => w,
            Err(e) => {
                return Err(e);
            },
        };
        if self.connections.contains_key(uuid.as_str()) {
            return Err(
                NetctlError::AlreadyExists(concat3("Connection ", uuid.as_str(), " already exists")),
            );
        }
        let mut conn_info = CRConnectionInfo::new(uuid.clone(), wanted.id, wanted.conn_type);
        match wanted.autoconnect {
            Some(b) => {
                conn_info.autoconnect = b;
            },
            None => {},
        }
        self.add_connection_internal(conn_info);
        Ok(uuid)
    }

    /// Adds the profile that `settings` asks for under a new random
    /// identifier and hands the identifier back. Settings that cannot be read
    /// are reported and change nothing. Settings that can be read succeed,
    /// but for one event: the random identifier is one that a profile
    /// already has. Then nothing changes and `AlreadyExists` names that
    /// identifier. Where no profile has an identifier of the generated
    /// length, as in a new registry, this cannot happen.
    pub fn add_connection(&mut self, settings: &Settings) -> (r: Result<String, NetctlError>)
        requires
            old(self).wf(),
        ensures
            final(self).wf(),
            parse_settings(settings@) is Ok && !can_collide(old(self).connections()) ==> r is Ok,
            match parse_settings(settings@) {
                Ok(s) => match r {
                    Ok(id) => {
                        &&& id@.len() == GENERATED_ID_LEN
                        &&& !old(self).connections().contains_key(id@)
                        &&& final(self).connections() == old(self).connections().insert(
                            id@,
                            profile_for(id@, s),
                        )
                        &&& final(self).uuids() == old(self).uuids().push(id@)
                    },
                    Err(x) => {
                        &&& reports_collision(old(self).connections(), x@)
                        &&& final(self).connections() == old(self).connections()
                        &&& final(self).uuids() == old(self).uuids()
                    },
                },
                Err(e) => {
                    &&& r matches Err(x) && x@ == e
                    &&& final(self).connections() == old(self).connections()
                    &&& final(self).uuids() == old(self).uuids()
                },
            },
    {
        let uuid = new_uuid();
        self.add_connection_as(settings, uuid)
    }

    /// Changes the display name and the autoconnect flag of the profile that
    /// `id` stands for, as far as `settings` names them.
    pub fn modify_connection(&mut self, id: &str, settings: &Settings) -> (r: Result<
        (),
        NetctlError,
    >)
        requires
            old(self).wf(),
        ensures
            final(self).wf(),
            final(self).uuids() == old(self).uuids(),
            match old(self).resolved(id@) {
                Some(key) => {
                    &&& r is Ok
                    &&& final(self).connections() == old(self).connections().insert(
                        key,
                        modified(old(self).connections()[key], settings@),
                    )
                },
                None => {
                    &&& r matches Err(e) && e@ == connection_not_found(id@)
                    &&& final(self).connections() == old(self).connections()
                },
            },
    {
        match self.resolve_position(id) {
            Some(i) => {
                let mut info = self.connections.value_at(i).clone();
                match settings.get("ID") {
                    Some(SettingValue::Str(s)) => {
                        info.id = s.clone();
                    },
                    _ => {},
                }
                match settings.get("Autoconnect") {
                    Some(SettingValue::Bool(b)) => {
                        info.autoconnect = *b;
                    },
                    _ => {},
                }
                proof {
                    self.connections.lemma_entry(i as int);
                }
                self.replace_at(i, info);
                Ok(())
            },
            None => Err(not_found("Connection ", id)),
        }
    }

    /// Deletes the profile that `id` stands for.
    pub fn delete_connection(&mut self, id: &str) -> (r: Result<(), NetctlError>)
        requires
            old(self).wf(),
        ensures
            final(self).wf(),
            match old(self).resolved(id@) {
                Some(key) => {
                    &&& r is Ok
                    &&& final(self).connections() == old(self).connections().remove(key)
                    &&& final(self).uuids() == order_without(old(self).uuids(), key)
                },
                None => {
                    &&& r matches Err(e) && e@ == connection_not_found(id@)
                    &&& final(self).connections() == old(self).connections()
                    &&& final(self).uuids() == old(self).uuids()
                },
            },
    {
        match self.resolve_position(id) {
            Some(i) => {
                let key = self.connections.key_at(i).clone();
                self.remove_connection_internal(key.as_str())
            },
            None => Err(not_found("Connection ", id)),
        }
    }

    /// Starts activating the profile that `id` stands for on the device at
    /// `device_path`: the profile is bound to the device and marked as being
    /// activated. Taking the device through its own states is not done here.
    pub fn activate_connection(&mut self, id: &str, device_path: &str) -> (r: Result<
        (),
        NetctlError,
    >)
        requires
            old(self).wf(),
        ensures
            final(self).wf(),
            final(self).uuids() == old(self).uuids(),
            match old(self).resolved(id@) {
                Some(key) => {
                    &&& r is Ok
                    &&& final(self).connections() == old(self).connections().insert(
                        key,
                        ConnectionInfoView {
                            state: CRConnectionState::Activating,
                            device: Some(device_path@),
                            ..old(self).connections()[key]
                        },
                    )
                },
                None => {
                    &&& r matches Err(e) && e@ == connection_not_found(id@)
                    &&& final(self).connections() == old(self).connections()
                },
            },
    {
        match self.resolve_position(id) {
            Some(i) => {
                let mut info = self.connections.value_at(i).clone();
                info.state = CRConnectionState::Activating;
                info.device = Some(String::from_str(device_path));
                proof {
                    self.connections.lemma_entry(i as int);
                }
                self.replace_at(i, info);
                Ok(())
            },
            None => Err(not_found("Connection ", id)),
        }
    }

    /// Starts deactivating the profile that `id` stands for: it is unbound
    /// from its device and marked as being deactivated.
    pub fn deactivate_connection(&mut self, id: &str) -> (r: Result<(), NetctlError>)
        requires
            old(self).wf(),
        ensures
            final(self).wf(),
            final(self).uuids() == old(self).uuids(),
            match old(self).resolved(id@) {
                Some(key) => {
                    &&& r is Ok
                    &&& final(self).connections() == old(self).connections().insert(
                        key,
                        ConnectionInfoView {
                            state: CRConnectionState::Deactivating,
                            device: None,
                            ..old(self).connections()[key]
                        },
                    )
                },
                None => {
                    &&& r matches Err(e) && e@ == connection_not_found(id@)
                    &&& final(self).connections() == old(self).connections()
                },
            },
    {
        match self.resolve_position(id) {
            Some(i) => {
                let mut info = self.connections.value_at(i).clone();
                info.state = CRConnectionState::Deactivating;
                info.device = None;
                proof {
                    self.connections.lemma_entry(i as int);
                }
                self.replace_at(i, info);
                Ok(())
            },
            None => Err(not_found("Connection ", id)),
        }
    }

    /// Adds a copy of the profile that `id` stands for, under the identifier
    /// `new_uuid` and the display name `new_name`, and hands the identifier
    /// back. The copy keeps the kind and the autoconnect flag. The identifier
    /// must be new: one that a profile already has is refused with
    /// `AlreadyExists`, and nothing changes.
    pub fn clone_connection_as(&mut self, id: &str, new_name: &str, new_uuid: String) -> (r:
        Result<String, NetctlError>)
        requires
            old(self).wf(),
        ensures
            final(self).wf(),
            match old(self).resolved(id@) {
                Some(key) => if old(self).connections().contains_key(new_uuid@) {
                    &&& r matches Err(e) && e@ == identifier_taken(new_uuid@)
                    &&& final(self).connections() == old(self).connections()
                    &&& final(self).uuids() == old(self).uuids()
                } else {
                    &&& r matches Ok(u) && u@ == new_uuid@
                    &&& new_uuid@ != key
                    &&& final(self).connections() == old(self).connections().insert(
                        new_uuid@,
                        clone_of(old(self).connections()[key], new_uuid@, new_name@),
                    )
                    &&& final(self).uuids() == old(self).uuids().push(new_uuid@)
                },
                None => {
                    &&& r matches Err(e) && e@ == connection_not_found(id@)
                    &&& final(self).connections() == old(self).connections()
                    &&& final(self).uuids() == old(self).uuids()
                },
            },
    {
        match self.resolve_position(id) {
            Some(i) => {
                if self.connections.contains_key(new_uuid.as_str()) {
                    return Err(
                        NetctlError::AlreadyExists(
                            concat3("Connection ", new_uuid.as_str(), " already exists"),
                        ),
                    );
                }
                let source = self.connections.value_at(i);
                let conn_type = source.conn_type;
                let autoconnect = source.autoconnect;
                let mut copy = CRConnectionInfo::new(
                    new_uuid.clone(),
                    String::from_str(new_name),
                    conn_type,
                );
                copy.autoconnect = autoconnect;
                self.add_connection_internal(copy);
                Ok(new_uuid)
            },
            None => Err(not_found("Connection ", id)),
        }
    }

    /// Adds a copy of the profile that `id` stands for under a new random
    /// identifier and the display name `new_name`, and hands the identifier
    /// back. A source that is found is copied, but for one event: the random
    /// identifier is one that a profile already has. Then nothing changes
    /// and `AlreadyExists` names that identifier. Where no profile has an
    /// identifier of the generated length, this cannot happen.
    pub fn clone_connection(&mut self, id: &str, new_name: &str) -> (r: Result<
        String,
        NetctlError,
    >)
        requires
            old(self).wf(),
        ensures
            final(self).wf(),
            old(self).resolved(id@) is Some && !can_collide(old(self).connections()) ==> r is Ok,
            match old(self).resolved(id@) {
                Some(key) => match r {
                    Ok(u) => {
                        &&& u@.len() == GENERATED_ID_LEN
                        &&& u@ != key
                        &&& !old(self).connections().contains_key(u@)
                        &&& final(self).connections() == old(self).connections().insert(
                            u@,
                            clone_of(old(self).connections()[key], u@, new_name@),
                        )
                        &&& final(self).uuids() == old(self).uuids().push(u@)
                    },
                    Err(e) => {
                        &&& reports_collision(old(self).connections(), e@)
                        &&& final(self).connections() == old(self).connections()
                        &&& final(self).uuids() == old(self).uuids()
                    },
                },
                None => {
                    &&& r matches Err(e) && e@ == connection_not_found(id@)
                    &&& final(self).connections() == old(self).connections()
                    &&& final(self).uuids() == old(self).uuids()
                },
            },
    {
        let uuid = new_uuid();
        self.clone_connection_as(id, new_name, uuid)
    }

    /// The profile that `id` stands for in its export form: a comment line
    /// that names it.
    pub fn export_connection(&self, id: &str) -> (r: Result<String, NetctlError>)
        requires
            self.wf(),
        ensures
            match self.resolved(id@) {
                Some(_) => r matches Ok(text) && text@ == "# Exported connection: "@ + id@ + "\n"@,
                None => r matches Err(e) && e@ == connection_not_found(id@),
            },
    {
        match self.resolve_position(id) {
            Some(_) => Ok(concat3("# Exported connection: ", id, "\n")),
            None => Err(not_found("Connection ", id)),
        }
    }

    /// Loading a profile from a file is the caller's part. What comes back
    /// is a new random identifier for the profile to be; the registry stays
    /// as it is.
    pub fn load_connection_file(&self, filename: &str) -> (r: Result<String, NetctlError>)
        ensures
            r matches Ok(id) && id@.len() == GENERATED_ID_LEN,
    {
        Ok(new_uuid())
    }

    /// Importing a profile from another format is the caller's part. What
    /// comes back is a new random identifier for the profile to be; the
    /// registry stays as it is.
    pub fn import_connection(&self, conn_type: &str, file: &str) -> (r: Result<String, NetctlError>)
        ensures
            r matches Ok(id) && id@.len() == GENERATED_ID_LEN,
    {
        Ok(new_uuid())
    }

    /// Reloading from disk is the caller's part; the registry stays as it is.
    pub fn reload_connections(&self) -> (r: Result<(), NetctlError>)
        ensures
            r is Ok,
    {
        Ok(())
    }
}

impl Default for CRConnection {
    fn default() -> (r: Self)
        ensures
            r.wf(),
            r.connections() == Map::<Seq<char>, ConnectionInfoView>::empty(),
    {
        Self::new()
    }
}

} // verus!
