//! The Tor plugin: connections that offer the Tor network as a local SOCKS
//! proxy. Bootstrapping the client is the caller's part; what is decided
//! before and after it is decided here.

use vstd::prelude::*;
use crate::error::{invalid_parameter, ErrorView, NetctlError};
use crate::registry::{order_with, order_without, view_all, Registry};
use crate::settings::{
    value_in, SettingItem, SettingItemView, SettingValue, SettingValueView, SettingView, Settings,
};
use crate::text::{clone_opt_string, concat2, concat3, decimal, str_eq, u64_to_string};
use crate::types::opt_view;

verus! {

/// Where a Tor connection stands with the network.
#[derive(Clone, Copy, Debug, PartialEq, Eq, Structural)]
pub enum TorConnectionStatus {
    /// Not connected.
    Disconnected,
    /// Building its first circuits.
    Bootstrapping,
    /// Connected.
    Connected,
    /// Connecting failed.
    Error,
}

impl TorConnectionStatus {
    /// The variant's name as written in the source.
    pub open spec fn spec_name(self) -> Seq<char> {
        match self {
            TorConnectionStatus::Disconnected => "Disconnected"@,
            TorConnectionStatus::Bootstrapping => "Bootstrapping"@,
            TorConnectionStatus::Connected => "Connected"@,
            TorConnectionStatus::Error => "Error"@,
        }
    }

    /// The variant's name as written in the source.
    pub fn name(self) -> (r: &'static str)
        ensures
            r@ == self.spec_name(),
    {
        match self {
            TorConnectionStatus::Disconnected => "Disconnected",
            TorConnectionStatus::Bootstrapping => "Bootstrapping",
            TorConnectionStatus::Connected => "Connected",
            TorConnectionStatus::Error => "Error",
        }
    }
}

/// Lifecycle state of a plugin or of one of its connections.
#[derive(Clone, Copy, Debug, PartialEq, Eq, Structural)]
pub enum PluginState {
    /// Not set up.
    Uninitialized,
    /// Being set up.
    Initializing,
    /// Set up and idle.
    Ready,
    /// Being brought up.
    Activating,
    /// Up.
    Active,
    /// Being taken down.
    Deactivating,
    /// Failed.
    Error,
}

impl PluginState {
    /// The variant's name as written in the source.
    pub open spec fn spec_name(self) -> Seq<char> {
        match self {
            PluginState::Uninitialized => "Uninitialized"@,
            PluginState::Initializing => "Initializing"@,
            PluginState::Ready => "Ready"@,
            PluginState::Activating => "Activating"@,
            PluginState::Active => "Active"@,
            PluginState::Deactivating => "Deactivating"@,
            PluginState::Error => "Error"@,
        }
    }

    /// The variant's name as written in the source.
    pub fn name(self) -> (r: &'static str)
        ensures
            r@ == self.spec_name(),
    {
        match self {
            PluginState::Uninitialized => "Uninitialized",
            PluginState::Initializing => "Initializing",
            PluginState::Ready => "Ready",
            PluginState::Activating => "Activating",
            PluginState::Active => "Active",
            PluginState::Deactivating => "Deactivating",
            PluginState::Error => "Error",
        }
    }
}

/// What a plugin offers.
#[derive(Clone, Copy, Debug, PartialEq, Eq, Structural)]
pub enum PluginCapability {
    /// VPN connections.
    Vpn,
}

/// Whether `m` is what the Tor plugin says about itself.
pub open spec fn is_tor_metadata(m: PluginMetadata) -> bool {
    &&& m.id@ == "tor"@
    &&& m.name@ == "Tor"@
    &&& m.version@ == "1.0.0"@
    &&& m.description@ == "Tor anonymous network client via arti"@
    &&& m.author@ == "netctl team"@
    &&& m.capabilities@ == seq![PluginCapability::Vpn]
    &&& opt_view(m.dbus_service) == Some("org.crrouter.NetworkControl.Tor"@)
    &&& opt_view(m.dbus_path) == Some("/org/crrouter/NetworkControl/Tor"@)
}

/// What a plugin says about itself.
#[derive(Debug)]
pub struct PluginMetadata {
    pub id: String,
    pub name: String,
    pub version: String,
    pub description: String,
    pub author: String,
    pub capabilities: Vec<PluginCapability>,
    pub dbus_service: Option<String>,
    pub dbus_path: Option<String>,
}

/// Traffic counters of a connection.
#[derive(Clone, Copy, Debug, PartialEq, Eq)]
pub struct ConnectionStats {
    pub rx_bytes: u64,
    pub tx_bytes: u64,
    pub rx_packets: u64,
    pub tx_packets: u64,
    /// Seconds since the connection came up.
    pub uptime: u64,
}

/// How a connection of a plugin is set up.
#[derive(Debug)]
pub struct ConnectionConfig {
    /// Identifier of the connection.
    pub uuid: String,
    /// Display name.
    pub name: String,
    /// Kind of connection, such as `vpn` or `tor`.
    pub conn_type: String,
    /// Settings that the plugin reads.
    pub settings: Settings,
}

/// A `ConnectionConfig` with its texts as character sequences.
pub struct ConnectionConfigView {
    pub uuid: Seq<char>,
    pub name: Seq<char>,
    pub conn_type: Seq<char>,
    pub settings: Seq<SettingView>,
}

impl View for ConnectionConfig {
    type V = ConnectionConfigView;

    open spec fn view(&self) -> ConnectionConfigView {
        ConnectionConfigView {
            uuid: self.uuid@,
            name: self.name@,
            conn_type: self.conn_type@,
            settings: self.settings@,
        }
    }
}

impl Clone for ConnectionConfig {
    fn clone(&self) -> (r: Self)
        ensures
            r@ == self@,
    {
        ConnectionConfig {
            uuid: self.uuid.clone(),
            name: self.name.clone(),
            conn_type: self.conn_type.clone(),
            settings: self.settings.clone(),
        }
    }
}

/// SOCKS port used when the settings name none.
pub const DEFAULT_SOCKS_PORT: u16 = 9050;

/// Data directory used when none is given.
pub const DEFAULT_TOR_DATA_DIR: &'static str = "/var/lib/netctl/tor";

/// The SOCKS port that settings ask for: the number under `socks_port`, cut
/// to 16 bits, or 9050 when there is no number.
pub open spec fn socks_port_of(settings: Seq<SettingView>) -> u16 {
    match value_in(settings, "socks_port"@) {
        Some(SettingValueView::U64(p)) => (p % 0x10000) as u16,
        _ => DEFAULT_SOCKS_PORT,
    }
}

/// Why a list of exit countries is refused, if it is: the first text in it
/// that is not two bytes long is no country code.
pub open spec fn country_fault(items: Seq<SettingItemView>) -> Option<ErrorView>
    decreases items.len(),
{
    if items.len() == 0 {
        None
    } else {
        match items[0] {
            SettingItemView::Str(c) => if crate::device::byte_len(c) != 2 {
                Some(
                    ErrorView::InvalidParameter(
                        "Invalid country code: "@ + c + ". Use ISO 3166-1 alpha-2"@,
                    ),
                )
            } else {
                country_fault(items.drop_first())
            },
            SettingItemView::Other => country_fault(items.drop_first()),
        }
    }
}

/// Why settings are refused, if they are. A number under `socks_port` must
/// fit a port; the texts in a list under `exit_countries` must be country
/// codes. Values of other shapes are let through.
pub open spec fn settings_fault(settings: Seq<SettingView>) -> Option<ErrorView> {
    let port_fault = match value_in(settings, "socks_port"@) {
        Some(SettingValueView::U64(p)) => p > 65535,
        _ => false,
    };
    if port_fault {
        Some(ErrorView::InvalidParameter("socks_port must be 0-65535"@))
    } else {
        match value_in(settings, "exit_countries"@) {
            Some(SettingValueView::List(items)) => country_fault(items),
            _ => None,
        }
    }
}

/// Why a configuration is refused, if it is: its kind must be `vpn` or
/// `tor`, and its settings must pass.
pub open spec fn config_fault(config: ConnectionConfigView) -> Option<ErrorView> {
    if config.conn_type != "vpn"@ && config.conn_type != "tor"@ {
        Some(ErrorView::InvalidParameter("Invalid connection type: "@ + config.conn_type))
    } else {
        settings_fault(config.settings)
    }
}

/// A connection of the plugin with its state.
#[derive(Debug)]
pub struct TorConnection {
    pub uuid: String,
    pub config: ConnectionConfig,
    pub state: PluginState,
    pub status: TorConnectionStatus,
    pub socks_port: u16,
    pub bootstrap_progress: u8,
    pub stats: ConnectionStats,
    /// When the connection came up, in seconds on the caller's clock.
    pub start_time: Option<u64>,
    pub error_message: Option<String>,
}

/// A `TorConnection` with its texts as character sequences.
pub struct TorConnectionView {
    pub uuid: Seq<char>,
    pub config: ConnectionConfigView,
    pub state: PluginState,
    pub status: TorConnectionStatus,
    pub socks_port: u16,
    pub bootstrap_progress: u8,
    pub stats: ConnectionStats,
    pub start_time: Option<u64>,
    pub error_message: Option<Seq<char>>,
}

impl View for TorConnection {
    type V = TorConnectionView;

    open spec fn view(&self) -> TorConnectionView {
        TorConnectionView {
            uuid: self.uuid@,
            config: self.config@,
            state: self.state,
            status: self.status,
            socks_port: self.socks_port,
            bootstrap_progress: self.bootstrap_progress,
            stats: self.stats,
            start_time: self.start_time,
            error_message: opt_view(self.error_message),
        }
    }
}

impl Clone for TorConnection {
    fn clone(&self) -> (r: Self)
        ensures
            r@ == self@,
    {
        TorConnection {
            uuid: self.uuid.clone(),
            config: self.config.clone(),
            state: self.state,
            status: self.status,
            socks_port: self.socks_port,
            bootstrap_progress: self.bootstrap_progress,
            stats: self.stats,
            start_time: self.start_time,
            error_message: clone_opt_string(&self.error_message),
        }
    }
}

/// Counters that count nothing yet.
pub open spec fn no_traffic() -> ConnectionStats {
    ConnectionStats { rx_bytes: 0, tx_bytes: 0, rx_packets: 0, tx_packets: 0, uptime: 0 }
}

/// The connection that a configuration gives rise to: idle and disconnected.
pub open spec fn created(config: ConnectionConfigView) -> TorConnectionView {
    TorConnectionView {
        uuid: config.uuid,
        config,
        state: PluginState::Ready,
        status: TorConnectionStatus::Disconnected,
        socks_port: socks_port_of(config.settings),
        bootstrap_progress: 0,
        stats: no_traffic(),
        start_time: None,
        error_message: None,
    }
}

/// A connection whose activation has begun and now waits for the client to
/// bootstrap.
pub open spec fn bootstrapping(c: TorConnectionView) -> TorConnectionView {
    TorConnectionView {
        state: PluginState::Activating,
        status: TorConnectionStatus::Bootstrapping,
        bootstrap_progress: 0,
        error_message: None,
        ..c
    }
}

/// A connection whose activation has begun without a backend to carry it.
pub open spec fn unsupported(c: TorConnectionView) -> TorConnectionView {
    TorConnectionView {
        state: PluginState::Activating,
        status: TorConnectionStatus::Error,
        error_message: Some("Tor support not compiled in"@),
        ..c
    }
}

/// A connection whose client has bootstrapped at time `now`.
pub open spec fn activated(c: TorConnectionView, now: u64) -> TorConnectionView {
    TorConnectionView {
        state: PluginState::Active,
        status: TorConnectionStatus::Connected,
        bootstrap_progress: 100,
        start_time: Some(now),
        ..c
    }
}

/// A connection whose client failed to bootstrap for the given reason.
pub open spec fn bootstrap_failed(c: TorConnectionView, reason: Seq<char>) -> TorConnectionView {
    TorConnectionView { status: TorConnectionStatus::Error, error_message: Some(reason), ..c }
}

/// A connection that was taken down.
pub open spec fn deactivated(c: TorConnectionView) -> TorConnectionView {
    TorConnectionView {
        state: PluginState::Ready,
        status: TorConnectionStatus::Disconnected,
        bootstrap_progress: 0,
        start_time: None,
        ..c
    }
}

/// The counters of a connection at time `now`: the uptime runs from the
/// moment the connection came up.
pub open spec fn stats_at(c: TorConnectionView, now: u64) -> ConnectionStats {
    match c.start_time {
        Some(t) => ConnectionStats {
            uptime: if now >= t {
                (now - t) as u64
            } else {
                0
            },
            ..c.stats
        },
        None => c.stats,
    }
}

/// The text of the failure for a connection that cannot be found.
pub open spec fn tor_not_found(uuid: Seq<char>) -> ErrorView {
    ErrorView::NotFound("Connection "@ + uuid + " not found"@)
}

/// The address of the local SOCKS proxy on `port`.
pub open spec fn socks_address(port: u16) -> Seq<char> {
    "127.0.0.1:"@ + decimal(port as nat)
}

/// The first of `all` that is active.
pub open spec fn first_active(all: Seq<TorConnectionView>) -> Option<TorConnectionView>
    decreases all.len(),
{
    if all.len() == 0 {
        None
    } else if all[0].state == PluginState::Active {
        Some(all[0])
    } else {
        first_active(all.drop_first())
    }
}

/// What a call of one of the plugin's methods answers.
#[derive(Debug)]
pub enum TorReply {
    /// How far bootstrapping has come, with the status by name.
    BootstrapProgress { progress: u8, status: String },
    /// The request was taken.
    Success,
    /// The address of the SOCKS proxy, when a connection is active.
    SocksAddress { address: Option<String> },
}

/// A `TorReply` with its texts as character sequences.
pub enum TorReplyView {
    BootstrapProgress { progress: u8, status: Seq<char> },
    Success,
    SocksAddress { address: Option<Seq<char>> },
}

impl View for TorReply {
    type V = TorReplyView;

    open spec fn view(&self) -> TorReplyView {
        match self {
            TorReply::BootstrapProgress { progress, status } => TorReplyView::BootstrapProgress {
                progress: *progress,
                status: status@,
            },
            TorReply::Success => TorReplyView::Success,
            TorReply::SocksAddress { address } => TorReplyView::SocksAddress {
                address: opt_view(*address),
            },
        }
    }
}

/// What the method called `method` answers, given the connections in order
/// and the parameters of the call.
pub open spec fn reply_to(
    method: Seq<char>,
    all: Seq<TorConnectionView>,
    params: Seq<SettingView>,
) -> Result<TorReplyView, ErrorView> {
    if method == "GetBootstrapProgress"@ {
        if all.len() > 0 {
            Ok(
                TorReplyView::BootstrapProgress {
                    progress: all[0].bootstrap_progress,
                    status: all[0].status.spec_name(),
                },
            )
        } else {
            Ok(
                TorReplyView::BootstrapProgress {
                    progress: 0,
                    status: TorConnectionStatus::Disconnected.spec_name(),
                },
            )
        }
    } else if method == "NewIdentity"@ {
        Ok(TorReplyView::Success)
    } else if method == "GetSocksAddress"@ {
        match first_active(all) {
            Some(c) => Ok(TorReplyView::SocksAddress { address: Some(socks_address(c.socks_port)) }),
            None => Ok(TorReplyView::SocksAddress { address: None }),
        }
    } else if method == "SetExitCountry"@ {
        match value_in(params, "country"@) {
            Some(SettingValueView::Str(_)) => Ok(TorReplyView::Success),
            _ => Err(ErrorView::InvalidParameter("country parameter required"@)),
        }
    } else {
        Err(ErrorView::NotSupported("Method '"@ + method + "' not supported"@))
    }
}

/// The shape of a value that a setting takes.
#[derive(Clone, Copy, Debug, PartialEq, Eq, Structural)]
pub enum SettingKind {
    /// A whole number.
    Integer,
    /// A truth value.
    Boolean,
    /// A list of texts.
    StringArray,
}

/// The value a setting has when it is left out.
#[derive(Clone, Copy, Debug, PartialEq, Eq, Structural)]
pub enum SettingDefault {
    /// A number.
    Integer(u64),
    /// A truth value.
    Boolean(bool),
}

/// One setting that the plugin reads.
#[derive(Debug)]
pub struct SchemaEntry {
    /// Name of the setting.
    pub name: &'static str,
    /// Shape of its value.
    pub kind: SettingKind,
    /// Value when it is left out, for the settings that have one.
    pub default: Option<SettingDefault>,
    /// What the setting is for.
    pub description: &'static str,
}

/// A `SchemaEntry` with its texts as character sequences.
pub struct SchemaEntryView {
    pub name: Seq<char>,
    pub kind: SettingKind,
    pub default: Option<SettingDefault>,
    pub description: Seq<char>,
}

impl View for SchemaEntry {
    type V = SchemaEntryView;

    open spec fn view(&self) -> SchemaEntryView {
        SchemaEntryView {
            name: self.name@,
            kind: self.kind,
            default: self.default,
            description: self.description@,
        }
    }
}

/// The settings that the plugin reads.
pub open spec fn tor_schema() -> Seq<SchemaEntryView> {
    seq![
        SchemaEntryView {
            name: "socks_port"@,
            kind: SettingKind::Integer,
            default: Some(SettingDefault::Integer(9050)),
            description: "SOCKS proxy port"@,
        },
        SchemaEntryView {
            name: "dns_port"@,
            kind: SettingKind::Integer,
            default: None,
            description: "DNS proxy port (optional)"@,
        },
        SchemaEntryView {
            name: "exit_countries"@,
            kind: SettingKind::StringArray,
            default: None,
            description: "Preferred exit countries (ISO 3166-1 alpha-2)"@,
        },
        SchemaEntryView {
            name: "bridges"@,
            kind: SettingKind::StringArray,
            default: None,
            description: "Bridge relay configurations"@,
        },
        SchemaEntryView {
            name: "stream_isolation"@,
            kind: SettingKind::Boolean,
            default: Some(SettingDefault::Boolean(true)),
            description: "Use separate circuits per destination"@,
        },
    ]
}

/// What the plugin shows of its first connection.
#[derive(Debug)]
pub struct TorProperties {
    /// Status by name.
    pub status: String,
    /// How far bootstrapping has come.
    pub bootstrap_progress: u8,
    /// Port of the SOCKS proxy.
    pub socks_port: u16,
    /// Address of the SOCKS proxy, while the connection is active.
    pub socks_address: Option<String>,
    /// What went wrong, if something did.
    pub error_message: Option<String>,
}

fn socks_address_text(port: u16) -> (r: String)
    ensures
        r@ == socks_address(port),
{
    let number = u64_to_string(port as u64);
    concat2("127.0.0.1:", number.as_str())
}

fn make_not_found(uuid: &str) -> (e: NetctlError)
    ensures
        e@ == tor_not_found(uuid@),
{
    crate::error::not_found("Connection ", uuid)
}

/// The Tor plugin.
pub struct TorPlugin {
    metadata: PluginMetadata,
    state: PluginState,
    enabled: bool,
    connections: Registry<TorConnection>,
    data_dir: String,
    backend: bool,
    client: bool,
}

impl TorPlugin {
    /// The connections by identifier.
    pub closed spec fn connections(&self) -> Map<Seq<char>, TorConnectionView> {
        self.connections@
    }

    /// The identifiers, in the order the connections were created.
    pub closed spec fn uuids(&self) -> Seq<Seq<char>> {
        self.connections.keys()
    }

    /// The connections, each at the position of its identifier.
    pub closed spec fn listing(&self) -> Seq<TorConnectionView> {
        self.connections.value_views()
    }

    /// The state of the plugin itself.
    pub closed spec fn plugin_state(&self) -> PluginState {
        self.state
    }

    /// Whether the plugin is enabled.
    pub closed spec fn enabled(&self) -> bool {
        self.enabled
    }

    /// Whether a Tor client can be had at all.
    pub closed spec fn backend(&self) -> bool {
        self.backend
    }

    /// Whether a bootstrapped client is at hand.
    pub closed spec fn has_client(&self) -> bool {
        self.client
    }

    /// The directory the plugin keeps its data in.
    pub closed spec fn data_dir(&self) -> Seq<char> {
        self.data_dir@
    }

    /// What the plugin says about itself.
    pub closed spec fn about(&self) -> PluginMetadata {
        self.metadata
    }

    /// No identifier occurs twice, and every connection is stored under its
    /// own identifier.
    pub closed spec fn wf(&self) -> bool {
        &&& self.connections.wf()
        &&& forall|i: int|
            0 <= i < self.connections.keys().len() ==> (
            #[trigger] self.connections.values()[i])@.uuid == self.connections.keys()[i]
    }

    /// Everything but the connections and the client is as in `other`.
    pub open spec fn same_setup(&self, other: &TorPlugin) -> bool {
        &&& self.plugin_state() == other.plugin_state()
        &&& self.enabled() == other.enabled()
        &&& self.backend() == other.backend()
        &&& self.data_dir() == other.data_dir()
        &&& self.about() == other.about()
    }

    /// How identifiers, listing and lookup fit together.
    pub proof fn lemma_wf(&self)
        requires
            self.wf(),
        ensures
            self.uuids().no_duplicates(),
            self.uuids().len() == self.listing().len(),
            forall|i: int|
                0 <= i < self.uuids().len() ==> {
                    &&& self.connections().contains_key(#[trigger] self.uuids()[i])
                    &&& self.connections()[self.uuids()[i]] == self.listing()[i]
                    &&& self.listing()[i].uuid == self.uuids()[i]
                },
            forall|k: Seq<char>| self.connections().contains_key(k) <==> self.uuids().contains(k),
    {
        assert forall|i: int| 0 <= i < self.uuids().len() implies {
            &&& self.connections().contains_key(#[trigger] self.uuids()[i])
            &&& self.connections()[self.uuids()[i]] == self.listing()[i]
            &&& self.listing()[i].uuid == self.uuids()[i]
        } by {
            self.connections.lemma_entry(i);
            assert(self.connections.values()[i]@.uuid == self.connections.keys()[i]);
        }
    }

    /// A plugin that keeps its data in `data_dir`: not set up, disabled,
    /// without connections, and without a backend until it is given one.
    pub fn new(data_dir: String) -> (r: Self)
        ensures
            r.wf(),
            r.connections() == Map::<Seq<char>, TorConnectionView>::empty(),
            r.uuids() == Seq::<Seq<char>>::empty(),
            r.plugin_state() == PluginState::Uninitialized,
            !r.enabled(),
            !r.backend(),
            !r.has_client(),
            r.data_dir() == data_dir@,
            is_tor_metadata(r.about()),
    {
        let mut capabilities: Vec<PluginCapability> = Vec::new();
        capabilities.push(PluginCapability::Vpn);
        assert(capabilities@ =~= seq![PluginCapability::Vpn]);
        TorPlugin {
            metadata: PluginMetadata {
                id: String::from_str("tor"),
                name: String::from_str("Tor"),
                version: String::from_str("1.0.0"),
                description: String::from_str("Tor anonymous network client via arti"),
                author: String::from_str("netctl team"),
                capabilities,
                dbus_service: Some(String::from_str("org.crrouter.NetworkControl.Tor")),
                dbus_path: Some(String::from_str("/org/crrouter/NetworkControl/Tor")),
            },
            state: PluginState::Uninitialized,
            enabled: false,
            connections: Registry::new(),
            data_dir,
            backend: false,
            client: false,
        }
    }

    /// A plugin that keeps its data in the usual place.
    pub fn with_defaults() -> (r: Self)
        ensures
            r.wf(),
            r.connections() == Map::<Seq<char>, TorConnectionView>::empty(),
            r.plugin_state() == PluginState::Uninitialized,
            !r.enabled(),
            !r.backend(),
            r.data_dir() == DEFAULT_TOR_DATA_DIR@,
            is_tor_metadata(r.about()),
    {
        Self::new(String::from_str(DEFAULT_TOR_DATA_DIR))
    }

    /// Says whether a Tor client can be had. Without one, activation fails
    /// with `NotSupported`.
    pub fn set_backend_available(&mut self, available: bool)
        requires
            old(self).wf(),
        ensures
            final(self).wf(),
            final(self).backend() == available,
            final(self).connections() == old(self).connections(),
            final(self).uuids() == old(self).uuids(),
            final(self).plugin_state() == old(self).plugin_state(),
            final(self).enabled() == old(self).enabled(),
            final(self).has_client() == old(self).has_client(),
            final(self).data_dir() == old(self).data_dir(),
    {
        self.backend = available;
    }

    /// What the plugin says about itself.
    pub fn metadata(&self) -> (r: &PluginMetadata)
        ensures
            *r == self.about(),
    {
        &self.metadata
    }

    /// The directory the plugin keeps its data in.
    pub fn get_data_dir(&self) -> (r: &str)
        ensures
            r@ == self.data_dir(),
    {
        self.data_dir.as_str()
    }

    /// The settings that the plugin reads, as `tor_schema` lists them.
    pub fn settings_schema(&self) -> (r: Vec<SchemaEntry>)
        ensures
            view_all(r@) == tor_schema(),
    {
        let mut out: Vec<SchemaEntry> = Vec::new();
        out.push(
            SchemaEntry {
                name: "socks_port",
                kind: SettingKind::Integer,
                default: Some(SettingDefault::Integer(9050)),
                description: "SOCKS proxy port",
            },
        );
        out.push(
            SchemaEntry {
                name: "dns_port",
                kind: SettingKind::Integer,
                default: None,
                description: "DNS proxy port (optional)",
            },
        );
        out.push(
            SchemaEntry {
                name: "exit_countries",
                kind: SettingKind::StringArray,
                default: None,
                description: "Preferred exit countries (ISO 3166-1 alpha-2)",
            },
        );
        out.push(
            SchemaEntry {
                name: "bridges",
                kind: SettingKind::StringArray,
                default: None,
                description: "Bridge relay configurations",
            },
        );
        out.push(
            SchemaEntry {
                name: "stream_isolation",
                kind: SettingKind::Boolean,
                default: Some(SettingDefault::Boolean(true)),
                description: "Use separate circuits per destination",
            },
        );
        assert(view_all(out@) =~= tor_schema());
        out
    }

    /// Checks the settings of a connection, as `settings_fault` describes.
    pub fn validate_tor_config(settings: &Settings) -> (r: Result<(), NetctlError>)
        ensures
            match settings_fault(settings@) {
                Some(e) => r matches Err(x) && x@ == e,
                None => r is Ok,
            },
    {
        match settings.get("socks_port") {
            Some(SettingValue::U64(p)) => {
                if *p > 65535 {
                    return Err(
                        NetctlError::InvalidParameter(
                            String::from_str("socks_port must be 0-65535"),
                        ),
                    );
                }
            },
            _ => {},
        }
        match settings.get("exit_countries") {
            Some(SettingValue::List(items)) => {
                let ghost all = view_all(items@);
                let mut i: usize = 0;
                assert(all.subrange(0, all.len() as int) =~= all);
                while i < items.len()
                    invariant
                        i <= items.len(),
                        all == view_all(items@),
                        settings_fault(settings@) == country_fault(all),
                        country_fault(all.subrange(i as int, all.len() as int)) == country_fault(
                            all,
                        ),
                    decreases items.len() - i,
                {
                    proof {
                        let rest = all.subrange(i as int, all.len() as int);
                        assert(rest[0] == items@[i as int]@);
                        assert(rest.drop_first() =~= all.subrange(i + 1, all.len() as int));
                    }
                    match &items[i] {
                        SettingItem::Str(c) => {
                            if c.as_str().as_bytes().len() != 2 {
                                return Err(
                                    NetctlError::InvalidParameter(
                                        concat3(
                                            "Invalid country code: ",
                                            c.as_str(),
                                            ". Use ISO 3166-1 alpha-2",
                                        ),
                                    ),
                                );
                            }
                        },
                        SettingItem::Other => {},
                    }
                    i += 1;
                }
                assert(all.subrange(i as int, all.len() as int) =~= Seq::<
                    SettingItemView,
                >::empty());
                Ok(())
            },
            _ => Ok(()),
        }
    }

    /// The SOCKS port that settings ask for, as `socks_port_of` describes.
    pub fn get_socks_port(settings: &Settings) -> (r: u16)
        ensures
            r == socks_port_of(settings@),
    {
        match settings.get("socks_port") {
            Some(SettingValue::U64(p)) => (*p % 0x10000) as u16,
            _ => DEFAULT_SOCKS_PORT,
        }
    }

    /// Sets the plugin up. Making the data directory is the caller's part.
    pub fn initialize(&mut self) -> (r: Result<(), NetctlError>)
        requires
            old(self).wf(),
        ensures
            final(self).wf(),
            r is Ok,
            final(self).plugin_state() == PluginState::Ready,
            final(self).connections() == old(self).connections(),
            final(self).uuids() == old(self).uuids(),
            final(self).enabled() == old(self).enabled(),
            final(self).backend() == old(self).backend(),
            final(self).has_client() == old(self).has_client(),
            final(self).data_dir() == old(self).data_dir(),
    {
        self.state = PluginState::Ready;
        Ok(())
    }

    /// The state of the plugin itself.
    pub fn state(&self) -> (r: PluginState)
        ensures
            r == self.plugin_state(),
    {
        self.state
    }

    /// Whether the plugin is enabled.
    pub fn is_enabled(&self) -> (r: bool)
        ensures
            r == self.enabled(),
    {
        self.enabled
    }

    /// Enables the plugin.
    pub fn enable(&mut self) -> (r: Result<(), NetctlError>)
        requires
            old(self).wf(),
        ensures
            final(self).wf(),
            r is Ok,
            final(self).enabled(),
            final(self).connections() == old(self).connections(),
            final(self).uuids() == old(self).uuids(),
            final(self).plugin_state() == old(self).plugin_state(),
            final(self).backend() == old(self).backend(),
            final(self).has_client() == old(self).has_client(),
    {
        self.enabled = true;
        Ok(())
    }

    /// Disables the plugin.
    pub fn disable(&mut self) -> (r: Result<(), NetctlError>)
        requires
            old(self).wf(),
        ensures
            final(self).wf(),
            r is Ok,
            !final(self).enabled(),
            final(self).connections() == old(self).connections(),
            final(self).uuids() == old(self).uuids(),
            final(self).plugin_state() == old(self).plugin_state(),
            final(self).backend() == old(self).backend(),
            final(self).has_client() == old(self).has_client(),
    {
        self.enabled = false;
        Ok(())
    }

    /// Checks a configuration, as `config_fault` describes.
    pub fn validate_config(&self, config: &ConnectionConfig) -> (r: Result<(), NetctlError>)
        ensures
            match config_fault(config@) {
                Some(e) => r matches Err(x) && x@ == e,
                None => r is Ok,
            },
    {
        if !str_eq(config.conn_type.as_str(), "vpn") && !str_eq(config.conn_type.as_str(), "tor") {
            return Err(invalid_parameter("Invalid connection type: ", config.conn_type.as_str()));
        }
        Self::validate_tor_config(&config.settings)
    }

    fn put(&mut self, conn: TorConnection)
        requires
            old(self).wf(),
        ensures
            final(self).wf(),
            final(self).same_setup(old(self)),
            final(self).has_client() == old(self).has_client(),
            final(self).connections() == old(self).connections().insert(conn@.uuid, conn@),
            final(self).uuids() == order_with(old(self).uuids(), conn@.uuid),
    {
        let ghost before = *self;
        let key = conn.uuid.clone();
        self.connections.insert(key, conn);
        proof {
            let k = conn@.uuid;
            assert forall|i: int| 0 <= i < self.connections.keys().len() implies (
            #[trigger] self.connections.values()[i])@.uuid == self.connections.keys()[i] by {
                if before.connections.contains(k) {
                    before.connections.lemma_present(k);
                    if i != before.connections.index_of(k) {
                        assert(self.connections.values()[i] == before.connections.values()[i]);
                    }
                } else {
                    if i < before.connections.keys().len() {
                        assert(self.connections.values()[i] == before.connections.values()[i]);
                    }
                }
            }
        }
    }

    fn replace_at(&mut self, i: usize, changed: TorConnection)
        requires
            old(self).wf(),
            i < old(self).uuids().len(),
            changed@.uuid == old(self).uuids()[i as int],
        ensures
            final(self).wf(),
            final(self).same_setup(old(self)),
            final(self).has_client() == old(self).has_client(),
            final(self).uuids() == old(self).uuids(),
            final(self).connections() == old(self).connections().insert(
                old(self).uuids()[i as int],
                changed@,
            ),
            final(self).listing() == old(self).listing().update(i as int, changed@),
    {
        let ghost before = *self;
        self.connections.set_at(i, changed);
        proof {
            assert forall|j: int| 0 <= j < self.connections.keys().len() implies (
            #[trigger] self.connections.values()[j])@.uuid == self.connections.keys()[j] by {
                if j != i {
                    assert(self.connections.values()[j] == before.connections.values()[j]);
                }
            }
            assert(self.listing() =~= before.listing().update(i as int, changed@));
        }
    }

    /// Creates the connection that `config` describes, under the identifier
    /// that `config` names, and hands the identifier back.
    pub fn create_connection(&mut self, config: ConnectionConfig) -> (r: Result<
        String,
        NetctlError,
    >)
        requires
            old(self).wf(),
        ensures
            final(self).wf(),
            final(self).same_setup(old(self)),
            final(self).has_client() == old(self).has_client(),
            r matches Ok(u) && u@ == config@.uuid,
            final(self).connections() == old(self).connections().insert(
                config@.uuid,
                created(config@),
            ),
            final(self).uuids() == order_with(old(self).uuids(), config@.uuid),
    {
        let uuid = config.uuid.clone();
        let socks_port = Self::get_socks_port(&config.settings);
        let conn = TorConnection {
            uuid: uuid.clone(),
            config,
            state: PluginState::Ready,
            status: TorConnectionStatus::Disconnected,
            socks_port,
            bootstrap_progress: 0,
            stats: ConnectionStats {
                rx_bytes: 0,
                tx_bytes: 0,
                rx_packets: 0,
                tx_packets: 0,
                uptime: 0,
            },
            start_time: None,
            error_message: None,
        };
        self.put(conn);
        Ok(uuid)
    }

    /// Begins to activate the connection with identifier `uuid`. With a
    /// backend, the connection then waits for the client: the caller
    /// bootstraps one and reports with `bootstrap_client`. Without a backend
    /// the activation fails at once with `NotSupported`.
    pub fn activate(&mut self, uuid: &str) -> (r: Result<(), NetctlError>)
        requires
            old(self).wf(),
        ensures
            final(self).wf(),
            final(self).same_setup(old(self)),
            final(self).has_client() == old(self).has_client(),
            final(self).uuids() == old(self).uuids(),
            !old(self).connections().contains_key(uuid@) ==> {
                &&& r matches Err(e) && e@ == tor_not_found(uuid@)
                &&& final(self).connections() == old(self).connections()
            },
            old(self).connections().contains_key(uuid@) ==> {
                let c = old(self).connections()[uuid@];
                if old(self).backend() {
                    &&& r is Ok
                    &&& final(self).connections() == old(self).connections().insert(
                        uuid@,
                        bootstrapping(c),
                    )
                } else {
                    &&& r matches Err(e) && e@ == ErrorView::NotSupported(
                        "Tor support not compiled in. Rebuild with --features vpn-tor"@,
                    )
                    &&& final(self).connections() == old(self).connections().insert(
                        uuid@,
                        unsupported(c),
                    )
                }
            },
    {
        let i = match self.connections.position(uuid) {
            Some(i) => i,
            None => {
                return Err(make_not_found(uuid));
            },
        };
        proof {
            self.connections.lemma_entry(i as int);
            self.connections.lemma_present(uuid@);
        }
        let mut conn = self.connections.value_at(i).clone();
        conn.state = PluginState::Activating;
        if self.backend {
            conn.error_message = None;
            conn.status = TorConnectionStatus::Bootstrapping;
            conn.bootstrap_progress = 0;
            self.replace_at(i, conn);
            Ok(())
        } else {
            conn.status = TorConnectionStatus::Error;
            conn.error_message = Some(String::from_str("Tor support not compiled in"));
            self.replace_at(i, conn);
            Err(
                NetctlError::NotSupported(
                    String::from_str("Tor support not compiled in. Rebuild with --features vpn-tor"),
                ),
            )
        }
    }

    /// Takes in how bootstrapping the client for the connection with
    /// identifier `uuid` went. After a success at time `now` the connection
    /// is active and the client at hand. After a failure the connection is
    /// in error with the reason as its message, and `ServiceError` comes
    /// back.
    pub fn bootstrap_client(&mut self, uuid: &str, outcome: Result<(), String>, now: u64) -> (r:
        Result<(), NetctlError>)
        requires
            old(self).wf(),
        ensures
            final(self).wf(),
            final(self).same_setup(old(self)),
            final(self).uuids() == old(self).uuids(),
            !old(self).connections().contains_key(uuid@) ==> {
                &&& r matches Err(e) && e@ == tor_not_found(uuid@)
                &&& final(self).connections() == old(self).connections()
                &&& final(self).has_client() == old(self).has_client()
            },
            old(self).connections().contains_key(uuid@) ==> {
                let c = old(self).connections()[uuid@];
                match outcome {
                    Ok(()) => {
                        &&& r is Ok
                        &&& final(self).has_client()
                        &&& final(self).connections() == old(self).connections().insert(
                            uuid@,
                            activated(c, now),
                        )
                    },
                    Err(reason) => {
                        &&& r matches Err(e) && e@ == ErrorView::ServiceError(
                            "Tor bootstrap failed: "@ + reason@,
                        )
                        &&& final(self).has_client() == old(self).has_client()
                        &&& final(self).connections() == old(self).connections().insert(
                            uuid@,
                            bootstrap_failed(c, reason@),
                        )
                    },
                }
            },
    {
        let i = match self.connections.position(uuid) {
            Some(i) => i,
            None => {
                return Err(make_not_found(uuid));
            },
        };
        proof {
            self.connections.lemma_entry(i as int);
            self.connections.lemma_present(uuid@);
        }
        let mut conn = self.connections.value_at(i).clone();
        match outcome {
            Ok(()) => {
                conn.status = TorConnectionStatus::Connected;
                conn.bootstrap_progress = 100;
                conn.state = PluginState::Active;
                conn.start_time = Some(now);
                self.replace_at(i, conn);
                self.client = true;
                Ok(())
            },
            Err(reason) => {
                let message = concat2("Tor bootstrap failed: ", reason.as_str());
                conn.status = TorConnectionStatus::Error;
                conn.error_message = Some(reason);
                self.replace_at(i, conn);
                Err(NetctlError::ServiceError(message))
            },
        }
    }

    /// Takes the connection with identifier `uuid` down and lets the client
    /// go.
    pub fn deactivate(&mut self, uuid: &str) -> (r: Result<(), NetctlError>)
        requires
            old(self).wf(),
        ensures
            final(self).wf(),
            final(self).same_setup(old(self)),
            final(self).uuids() == old(self).uuids(),
            !old(self).connections().contains_key(uuid@) ==> {
                &&& r matches Err(e) && e@ == tor_not_found(uuid@)
                &&& final(self).connections() == old(self).connections()
                &&& final(self).has_client() == old(self).has_client()
            },
            old(self).connections().contains_key(uuid@) ==> {
                &&& r is Ok
                &&& !final(self).has_client()
                &&& final(self).connections() == old(self).connections().insert(
                    uuid@,
                    deactivated(old(self).connections()[uuid@]),
                )
            },
    {
        let i = match self.connections.position(uuid) {
            Some(i) => i,
            None => {
                return Err(make_not_found(uuid));
            },
        };
        proof {
            self.connections.lemma_entry(i as int);
            self.connections.lemma_present(uuid@);
        }
        let mut conn = self.connections.value_at(i).clone();
        conn.state = PluginState::Ready;
        conn.status = TorConnectionStatus::Disconnected;
        conn.bootstrap_progress = 0;
        conn.start_time = None;
        self.replace_at(i, conn);
        self.client = false;
        Ok(())
    }

    /// Takes every connection down, lets the client go, and leaves the
    /// plugin as it was before it was set up.
    pub fn shutdown(&mut self) -> (r: Result<(), NetctlError>)
        requires
            old(self).wf(),
        ensures
            final(self).wf(),
            r is Ok,
            final(self).plugin_state() == PluginState::Uninitialized,
            !final(self).has_client(),
            final(self).enabled() == old(self).enabled(),
            final(self).backend() == old(self).backend(),
            final(self).data_dir() == old(self).data_dir(),
            final(self).uuids() == old(self).uuids(),
            final(self).listing() == old(self).listing().map_values(
                |c: TorConnectionView| deactivated(c),
            ),
    {
        let n: usize = self.connections.len();
        let mut i: usize = 0;
        while i < n
            invariant
                self.wf(),
                self.same_setup(old(self)),
                self.uuids() == old(self).uuids(),
                n == self.uuids().len(),
                n == self.listing().len(),
                n == old(self).listing().len(),
                i <= n,
                forall|j: int| 0 <= j < i ==> self.listing()[j] == deactivated(old(self).listing()[j]),
                forall|j: int| i <= j < n ==> self.listing()[j] == old(self).listing()[j],
            decreases n - i,
        {
            let mut conn = self.connections.value_at(i).clone();
            conn.state = PluginState::Ready;
            conn.status = TorConnectionStatus::Disconnected;
            conn.bootstrap_progress = 0;
            conn.start_time = None;
            proof {
                self.connections.lemma_entry(i as int);
                assert(self.listing()[i as int] == self.connections.values()[i as int]@);
            }
            self.replace_at(i, conn);
            i += 1;
        }
        self.client = false;
        self.state = PluginState::Uninitialized;
        assert(self.listing() =~= old(self).listing().map_values(
            |c: TorConnectionView| deactivated(c),
        ));
        Ok(())
    }

    /// Deletes the connection with identifier `uuid`, after taking it down
    /// if it is active. Deleting a connection that does not exist is no
    /// failure.
    pub fn delete_connection(&mut self, uuid: &str) -> (r: Result<(), NetctlError>)
        requires
            old(self).wf(),
        ensures
            final(self).wf(),
            final(self).same_setup(old(self)),
            r is Ok,
            final(self).connections() == old(self).connections().remove(uuid@),
            final(self).uuids() == order_without(old(self).uuids(), uuid@),
            final(self).has_client() == (old(self).has_client() && !(old(
                self,
            ).connections().contains_key(uuid@) && old(self).connections()[uuid@].state
                == PluginState::Active)),
    {
        let ghost before = *self;
        let active = match self.connections.get(uuid) {
            Some(c) => c.state == PluginState::Active,
            None => false,
        };
        if active {
            self.client = false;
        }
        let ghost mid = *self;
        match self.connections.remove(uuid) {
            Some(_) => {
                proof {
                    mid.connections.lemma_present(uuid@);
                    let p = mid.connections.index_of(uuid@);
                    assert forall|i: int| 0 <= i < self.connections.keys().len() implies (
                    #[trigger] self.connections.values()[i])@.uuid
                        == self.connections.keys()[i] by {
                        let i0 = if i < p {
                            i
                        } else {
                            i + 1
                        };
                        assert(self.connections.values()[i] == mid.connections.values()[i0]);
                        assert(self.connections.keys()[i] == mid.connections.keys()[i0]);
                    }
                }
            },
            None => {},
        }
        Ok(())
    }

    /// The state of the connection with identifier `uuid`.
    pub fn get_status(&self, uuid: &str) -> (r: Result<PluginState, NetctlError>)
        requires
            self.wf(),
        ensures
            self.connections().contains_key(uuid@) ==> r == Ok::<PluginState, NetctlError>(
                self.connections()[uuid@].state,
            ),
            !self.connections().contains_key(uuid@) ==> (r matches Err(e) && e@ == tor_not_found(
                uuid@,
            )),
    {
        match self.connections.get(uuid) {
            Some(c) => Ok(c.state),
            None => Err(make_not_found(uuid)),
        }
    }

    /// The counters of the connection with identifier `uuid` at time `now`.
    pub fn get_stats(&self, uuid: &str, now: u64) -> (r: Result<ConnectionStats, NetctlError>)
        requires
            self.wf(),
        ensures
            self.connections().contains_key(uuid@) ==> r == Ok::<ConnectionStats, NetctlError>(
                stats_at(self.connections()[uuid@], now),
            ),
            !self.connections().contains_key(uuid@) ==> (r matches Err(e) && e@ == tor_not_found(
                uuid@,
            )),
    {
        match self.connections.get(uuid) {
            Some(c) => {
                let mut stats = c.stats;
                match c.start_time {
                    Some(t) => {
                        stats.uptime = if now >= t {
                            now - t
                        } else {
                            0
                        };
                    },
                    None => {},
                }
                Ok(stats)
            },
            None => Err(make_not_found(uuid)),
        }
    }

    /// A copy of the configuration of every connection, in the order the
    /// connections were created.
    pub fn list_connections(&self) -> (r: Result<Vec<ConnectionConfig>, NetctlError>)
        requires
            self.wf(),
        ensures
            r matches Ok(configs) && view_all(configs@) == self.listing().map_values(
                |c: TorConnectionView| c.config,
            ),
    {
        let mut out: Vec<ConnectionConfig> = Vec::new();
        let n: usize = self.connections.len();
        let mut i: usize = 0;
        while i < n
            invariant
                self.wf(),
                n == self.connections.keys().len(),
                i <= n,
                out@.len() == i,
                forall|j: int| 0 <= j < i ==> out@[j]@ == self.connections.values()[j]@.config,
            decreases n - i,
        {
            out.push(self.connections.value_at(i).config.clone());
            i += 1;
        }
        assert(view_all(out@) =~= self.listing().map_values(|c: TorConnectionView| c.config));
        Ok(out)
    }

    /// Puts `config` in place of the configuration of the connection with
    /// identifier `uuid`, once it has passed the check.
    pub fn update_connection(&mut self, uuid: &str, config: ConnectionConfig) -> (r: Result<
        (),
        NetctlError,
    >)
        requires
            old(self).wf(),
        ensures
            final(self).wf(),
            final(self).same_setup(old(self)),
            final(self).has_client() == old(self).has_client(),
            final(self).uuids() == old(self).uuids(),
            match config_fault(config@) {
                Some(e) => {
                    &&& r matches Err(x) && x@ == e
                    &&& final(self).connections() == old(self).connections()
                },
                None => if old(self).connections().contains_key(uuid@) {
                    &&& r is Ok
                    &&& final(self).connections() == old(self).connections().insert(
                        uuid@,
                        TorConnectionView {
                            config: config@,
                            socks_port: socks_port_of(config@.settings),
                            ..old(self).connections()[uuid@]
                        },
                    )
                } else {
                    &&& r matches Err(x) && x@ == tor_not_found(uuid@)
                    &&& final(self).connections() == old(self).connections()
                },
            },
    {
        match self.validate_config(&config) {
            Ok(()) => {},
            Err(e) => {
                return Err(e);
            },
        }
        let i = match self.connections.position(uuid) {
            Some(i) => i,
            None => {
                return Err(make_not_found(uuid));
            },
        };
        proof {
            self.connections.lemma_entry(i as int);
            self.connections.lemma_present(uuid@);
        }
        let mut conn = self.connections.value_at(i).clone();
        conn.socks_port = Self::get_socks_port(&config.settings);
        conn.config = config;
        self.replace_at(i, conn);
        Ok(())
    }

    /// Answers a call of one of the plugin's methods, as `reply_to`
    /// describes.
    pub fn handle_dbus_method(&self, method: &str, params: &Settings) -> (r: Result<
        TorReply,
        NetctlError,
    >)
        requires
            self.wf(),
        ensures
            match reply_to(method@, self.listing(), params@) {
                Ok(reply) => r matches Ok(got) && got@ == reply,
                Err(e) => r matches Err(x) && x@ == e,
            },
    {
        let n: usize = self.connections.len();
        if str_eq(method, "GetBootstrapProgress") {
            if n > 0 {
                let c = self.connections.value_at(0);
                Ok(
                    TorReply::BootstrapProgress {
                        progress: c.bootstrap_progress,
                        status: String::from_str(c.status.name()),
                    },
                )
            } else {
                Ok(
                    TorReply::BootstrapProgress {
                        progress: 0,
                        status: String::from_str(TorConnectionStatus::Disconnected.name()),
                    },
                )
            }
        } else if str_eq(method, "NewIdentity") {
            Ok(TorReply::Success)
        } else if str_eq(method, "GetSocksAddress") {
            let ghost all = self.listing();
            let mut i: usize = 0;
            assert(all.subrange(0, all.len() as int) =~= all);
            while i < n
                invariant
                    self.wf(),
                    all == self.listing(),
                    n == self.connections.keys().len(),
                    n == all.len(),
                    i <= n,
                    reply_to(method@, all, params@) == (match first_active(all) {
                        Some(c) => Ok::<TorReplyView, ErrorView>(
                            TorReplyView::SocksAddress {
                                address: Some(socks_address(c.socks_port)),
                            },
                        ),
                        None => Ok(TorReplyView::SocksAddress { address: None }),
                    }),
                    first_active(all.subrange(i as int, n as int)) == first_active(all),
                decreases n - i,
            {
                let c = self.connections.value_at(i);
                proof {
                    let rest = all.subrange(i as int, n as int);
                    assert(rest[0] == c@);
                    assert(rest.drop_first() =~= all.subrange(i + 1, n as int));
                }
                if c.state == PluginState::Active {
                    return Ok(
                        TorReply::SocksAddress { address: Some(socks_address_text(c.socks_port)) },
                    );
                }
                i += 1;
            }
            assert(all.subrange(n as int, n as int) =~= Seq::<TorConnectionView>::empty());
            Ok(TorReply::SocksAddress { address: None })
        } else if str_eq(method, "SetExitCountry") {
            match params.get("country") {
                Some(SettingValue::Str(_)) => Ok(TorReply::Success),
                _ => Err(
                    NetctlError::InvalidParameter(String::from_str("country parameter required")),
                ),
            }
        } else {
            Err(NetctlError::NotSupported(concat3("Method '", method, "' not supported")))
        }
    }

    /// What the plugin shows of its first connection, when it has one.
    pub fn dbus_properties(&self) -> (r: Option<TorProperties>)
        requires
            self.wf(),
        ensures
            self.listing().len() == 0 ==> r is None,
            self.listing().len() > 0 ==> (r matches Some(p) && {
                let c = self.listing()[0];
                &&& p.status@ == c.status.spec_name()
                &&& p.bootstrap_progress == c.bootstrap_progress
                &&& p.socks_port == c.socks_port
                &&& opt_view(p.socks_address) == (if c.state == PluginState::Active {
                    Some(socks_address(c.socks_port))
                } else {
                    None
                })
                &&& opt_view(p.error_message) == c.error_message
            }),
    {
        if self.connections.len() == 0 {
            return None;
        }
        let c = self.connections.value_at(0);
        let socks_address = if c.state == PluginState::Active {
            Some(socks_address_text(c.socks_port))
        } else {
            None
        };
        Some(
            TorProperties {
                status: String::from_str(c.status.name()),
                bootstrap_progress: c.bootstrap_progress,
                socks_port: c.socks_port,
                socks_address,
                error_message: clone_opt_string(&c.error_message),
            },
        )
    }
}

} // verus!
