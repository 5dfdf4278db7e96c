//! Onion services: their configuration, their lifecycle, and the registry
//! that holds them. Publishing a service is the caller's part; the addresses
//! made here are placeholders.

use vstd::prelude::*;
use crate::error::{ErrorView, NetctlError};
use crate::registry::{order_with, order_without, Registry};
use crate::text::{clone_opt_string, clone_strings, concat2, concat3, str_eq, views};
use crate::types::opt_view;

verus! {

/// Lifecycle state of an onion service.
#[derive(Clone, Copy, Debug, PartialEq, Eq, Structural)]
pub enum OnionStatus {
    /// Not running.
    Stopped,
    /// Being started.
    Starting,
    /// Running.
    Running,
    /// Being stopped.
    Stopping,
    /// Starting failed.
    Error,
}

impl OnionStatus {
    /// The number that stands for this value on the wire.
    pub open spec fn spec_code(self) -> u32 {
        match self {
            OnionStatus::Stopped => 0,
            OnionStatus::Starting => 1,
            OnionStatus::Running => 2,
            OnionStatus::Stopping => 3,
            OnionStatus::Error => 4,
        }
    }

    /// The number that stands for this value on the wire.
    #[verifier::when_used_as_spec(spec_code)]
    pub fn code(self) -> (r: u32)
        ensures
            r == self.spec_code(),
    {
        match self {
            OnionStatus::Stopped => 0,
            OnionStatus::Starting => 1,
            OnionStatus::Running => 2,
            OnionStatus::Stopping => 3,
            OnionStatus::Error => 4,
        }
    }

    /// The value that a wire number stands for, if it stands for one.
    pub open spec fn spec_from_code(c: u32) -> Option<Self> {
        if c == 0 {
            Some(OnionStatus::Stopped)
        } else if c == 1 {
            Some(OnionStatus::Starting)
        } else if c == 2 {
            Some(OnionStatus::Running)
        } else if c == 3 {
            Some(OnionStatus::Stopping)
        } else if c == 4 {
            Some(OnionStatus::Error)
        } else {
            None
        }
    }

    /// The value that a wire number stands for, if it stands for one.
    #[verifier::when_used_as_spec(spec_from_code)]
    pub fn from_code(c: u32) -> (r: Option<Self>)
        ensures
            r == Self::spec_from_code(c),
    {
        if c == 0 {
            Some(OnionStatus::Stopped)
        } else if c == 1 {
            Some(OnionStatus::Starting)
        } else if c == 2 {
            Some(OnionStatus::Running)
        } else if c == 3 {
            Some(OnionStatus::Stopping)
        } else if c == 4 {
            Some(OnionStatus::Error)
        } else {
            None
        }
    }

    /// A number that was written for a value reads back as that value, and
    /// a number that reads as a value is the one written for it.
    pub proof fn lemma_code_round_trip(self, c: u32)
        ensures
            Self::spec_from_code(self.spec_code()) == Some(self),
            Self::spec_from_code(c) == Some(self) ==> self.spec_code() == c,
    {
    }

    /// The variant's name as written in the source.
    pub open spec fn spec_name(self) -> Seq<char> {
        match self {
            OnionStatus::Stopped => "Stopped"@,
            OnionStatus::Starting => "Starting"@,
            OnionStatus::Running => "Running"@,
            OnionStatus::Stopping => "Stopping"@,
            OnionStatus::Error => "Error"@,
        }
    }

    /// The variant's name as written in the source.
    pub fn name(self) -> (r: &'static str)
        ensures
            r@ == self.spec_name(),
    {
        match self {
            OnionStatus::Stopped => "Stopped",
            OnionStatus::Starting => "Starting",
            OnionStatus::Running => "Running",
            OnionStatus::Stopping => "Stopping",
            OnionStatus::Error => "Error",
        }
    }
}

/// Default for flags that are on unless a configuration turns them off.
pub fn default_true() -> (r: bool)
    ensures
        r,
{
    true
}

/// Directory the server keeps its data in unless told otherwise.
pub const DEFAULT_DATA_DIR: &'static str = "/var/lib/netctl/tor-server";

/// Directory the server keeps its data in unless told otherwise.
pub fn default_data_dir() -> (r: String)
    ensures
        r@ == DEFAULT_DATA_DIR@,
{
    String::from_str(DEFAULT_DATA_DIR)
}

/// Length of a client's public key in its text form.
pub const CLIENT_KEY_LEN: usize = 52;

/// How a service is set up.
#[derive(Debug)]
pub struct OnionServiceConfig {
    /// Name of the service.
    pub name: String,
    /// Local port that traffic is forwarded to.
    pub local_port: u16,
    /// Port that clients see.
    pub virtual_port: u16,
    /// Whether the service has a version 3 address.
    pub version_3: bool,
    /// Public keys of the clients that may connect; empty means everyone.
    pub authorized_clients: Vec<String>,
}

/// An `OnionServiceConfig` with its texts as character sequences.
pub struct OnionConfigView {
    pub name: Seq<char>,
    pub local_port: u16,
    pub virtual_port: u16,
    pub version_3: bool,
    pub authorized_clients: Seq<Seq<char>>,
}

impl View for OnionServiceConfig {
    type V = OnionConfigView;

    open spec fn view(&self) -> OnionConfigView {
        OnionConfigView {
            name: self.name@,
            local_port: self.local_port,
            virtual_port: self.virtual_port,
            version_3: self.version_3,
            authorized_clients: views(self.authorized_clients@),
        }
    }
}

impl Clone for OnionServiceConfig {
    fn clone(&self) -> (r: Self)
        ensures
            r@ == self@,
    {
        OnionServiceConfig {
            name: self.name.clone(),
            local_port: self.local_port,
            virtual_port: self.virtual_port,
            version_3: self.version_3,
            authorized_clients: clone_strings(&self.authorized_clients),
        }
    }
}

/// How the server is set up.
#[derive(Debug)]
pub struct ServerConfig {
    /// Directory the server keeps its data in.
    pub data_dir: String,
    /// Services that exist from the start.
    pub services: Vec<OnionServiceConfig>,
}

impl Default for ServerConfig {
    /// A configuration that names no directory and no service. The usual
    /// directory is what a configuration file gets when it names none.
    fn default() -> (r: Self)
        ensures
            r.data_dir@.len() == 0,
            r.services@.len() == 0,
    {
        ServerConfig { data_dir: String::new(), services: Vec::new() }
    }
}

/// A service with its state.
#[derive(Debug)]
pub struct OnionService {
    /// How the service is set up.
    pub config: OnionServiceConfig,
    /// Lifecycle state.
    pub status: OnionStatus,
    /// Address of the service while it runs.
    pub onion_address: Option<String>,
    /// What went wrong, or a note on the state.
    pub error_message: Option<String>,
}

/// An `OnionService` with its texts as character sequences.
pub struct OnionServiceView {
    pub config: OnionConfigView,
    pub status: OnionStatus,
    pub onion_address: Option<Seq<char>>,
    pub error_message: Option<Seq<char>>,
}

impl View for OnionService {
    type V = OnionServiceView;

    open spec fn view(&self) -> OnionServiceView {
        OnionServiceView {
            config: self.config@,
            status: self.status,
            onion_address: opt_view(self.onion_address),
            error_message: opt_view(self.error_message),
        }
    }
}

impl Clone for OnionService {
    fn clone(&self) -> (r: Self)
        ensures
            r@ == self@,
    {
        OnionService {
            config: self.config.clone(),
            status: self.status,
            onion_address: clone_opt_string(&self.onion_address),
            error_message: clone_opt_string(&self.error_message),
        }
    }
}

/// A service that was just created or loaded: stopped, without address.
pub open spec fn fresh_service(config: OnionConfigView) -> OnionServiceView {
    OnionServiceView {
        config,
        status: OnionStatus::Stopped,
        onion_address: None,
        error_message: None,
    }
}

/// The configuration that creating a service by name and ports gives.
pub open spec fn created_config(name: Seq<char>, local_port: u16, virtual_port: u16) -> OnionConfigView {
    OnionConfigView {
        name,
        local_port,
        virtual_port,
        version_3: true,
        authorized_clients: Seq::empty(),
    }
}

/// Up to the first eight characters of a name.
pub open spec fn name_stem(name: Seq<char>) -> Seq<char> {
    if name.len() <= 8 {
        name
    } else {
        name.subrange(0, 8)
    }
}

/// Filler of a placeholder address.
pub const ADDRESS_FILLER: &'static str =
    "xxxxxxxxxxxxxxxxxxxxxxxxxxxxxxxxxxxxxxxxxxxxxxxxxxxxxxxx.onion";

/// Filler of a regenerated placeholder address.
pub const REGENERATED_FILLER: &'static str =
    "yyyyyyyyyyyyyyyyyyyyyyyyyyyyyyyyyyyyyyyyyyyyyyyyyyyy.onion";

/// The placeholder address of the service called `name`.
pub open spec fn placeholder_address(name: Seq<char>) -> Seq<char> {
    name_stem(name) + ADDRESS_FILLER@
}

/// The text of the failure for a service that cannot be found.
pub open spec fn service_not_found(name: Seq<char>) -> ErrorView {
    ErrorView::NotFound("Service '"@ + name + "' not found"@)
}

/// A running service as it is after a start.
pub open spec fn started(s: OnionServiceView) -> OnionServiceView {
    OnionServiceView {
        status: OnionStatus::Running,
        onion_address: Some(placeholder_address(s.config.name)),
        error_message: Some("STUB: Not a real onion service"@),
        ..s
    }
}

/// A service as it is after a stop.
pub open spec fn stopped(s: OnionServiceView) -> OnionServiceView {
    OnionServiceView { status: OnionStatus::Stopped, onion_address: None, error_message: None, ..s }
}

/// A service as it is after its directory could not be made.
pub open spec fn start_failed(s: OnionServiceView, reason: Seq<char>) -> OnionServiceView {
    OnionServiceView {
        status: OnionStatus::Error,
        error_message: Some("Failed to create directory: "@ + reason),
        ..s
    }
}

/// Whether a service runs and has its address.
pub open spec fn is_up(s: OnionServiceView) -> bool {
    s.status == OnionStatus::Running && s.onion_address is Some
}

/// The list without every occurrence of `key`.
pub open spec fn without_key(keys: Seq<Seq<char>>, key: Seq<char>) -> Seq<Seq<char>>
    decreases keys.len(),
{
    if keys.len() == 0 {
        Seq::empty()
    } else if keys.last() == key {
        without_key(keys.drop_last(), key)
    } else {
        without_key(keys.drop_last(), key).push(keys.last())
    }
}

/// What a service reports about itself.
#[derive(Debug)]
pub struct OnionServiceStatus {
    pub name: String,
    pub status: OnionStatus,
    pub local_port: u16,
    pub virtual_port: u16,
    pub onion_address: Option<String>,
    pub error_message: Option<String>,
}

fn make_not_found(name: &str) -> (e: NetctlError)
    ensures
        e@ == service_not_found(name@),
{
    NetctlError::NotFound(concat3("Service '", name, "' not found"))
}

fn stem_of(name: &str) -> (r: &str)
    ensures
        r@ == name_stem(name@),
{
    let n: usize = name.unicode_len();
    if n <= 8 {
        let r = name.substring_char(0, n);
        assert(r@ =~= name@);
        r
    } else {
        name.substring_char(0, 8)
    }
}

/// The registry of onion services.
pub struct CRTorServer {
    services: Registry<OnionService>,
    data_dir: String,
}

impl CRTorServer {
    /// The services by name.
    pub closed spec fn services(&self) -> Map<Seq<char>, OnionServiceView> {
        self.services@
    }

    /// The names of the services, in the order they were created.
    pub closed spec fn names(&self) -> Seq<Seq<char>> {
        self.services.keys()
    }

    /// The directory the server keeps its data in.
    pub closed spec fn data_dir(&self) -> Seq<char> {
        self.data_dir@
    }

    /// No name occurs twice, and every service is stored under its own name.
    pub closed spec fn wf(&self) -> bool {
        &&& self.services.wf()
        &&& forall|i: int|
            0 <= i < self.services.keys().len() ==> (
            #[trigger] self.services.values()[i])@.config.name == self.services.keys()[i]
    }

    /// Names are listed once each, and the listed names are the ones that
    /// have a service.
    pub proof fn lemma_wf(&self)
        requires
            self.wf(),
        ensures
            self.names().no_duplicates(),
            forall|k: Seq<char>| self.services().contains_key(k) <==> self.names().contains(k),
            forall|k: Seq<char>|
                self.services().contains_key(k) ==> (#[trigger] self.services()[k]).config.name
                    == k,
    {
        assert forall|k: Seq<char>| self.services().contains_key(k) implies (
        #[trigger] self.services()[k]).config.name == k by {
            self.services.lemma_present(k);
            let i = self.services.index_of(k);
            assert(self.services.values()[i]@.config.name == self.services.keys()[i]);
        }
    }

    /// A server without services that keeps its data where `config` says.
    pub fn new(config: ServerConfig) -> (r: Self)
        ensures
            r.wf(),
            r.services() == Map::<Seq<char>, OnionServiceView>::empty(),
            r.names() == Seq::<Seq<char>>::empty(),
            r.data_dir() == config.data_dir@,
    {
        CRTorServer { services: Registry::new(), data_dir: config.data_dir }
    }

    /// The directory the server keeps its data in.
    pub fn get_data_dir(&self) -> (r: &str)
        ensures
            r@ == self.data_dir(),
    {
        self.data_dir.as_str()
    }

    fn put(&mut self, service: OnionService)
        requires
            old(self).wf(),
        ensures
            final(self).wf(),
            final(self).data_dir() == old(self).data_dir(),
            final(self).services() == old(self).services().insert(
                service@.config.name,
                service@,
            ),
            final(self).names() == order_with(old(self).names(), service@.config.name),
    {
        let ghost before = *self;
        let key = service.config.name.clone();
        self.services.insert(key, service);
        proof {
            let k = service@.config.name;
            assert forall|i: int| 0 <= i < self.services.keys().len() implies (
            #[trigger] self.services.values()[i])@.config.name == self.services.keys()[i] by {
                if before.services.contains(k) {
                    before.services.lemma_present(k);
                    if i != before.services.index_of(k) {
                        assert(self.services.values()[i] == before.services.values()[i]);
                    }
                } else {
                    if i < before.services.keys().len() {
                        assert(self.services.values()[i] == before.services.values()[i]);
                    }
                }
            }
        }
    }

    /// Takes in a service from the configuration: stopped, without address,
    /// in place of a service of the same name.
    pub fn load_service(&mut self, config: OnionServiceConfig)
        requires
            old(self).wf(),
        ensures
            final(self).wf(),
            final(self).data_dir() == old(self).data_dir(),
            final(self).services() == old(self).services().insert(
                config@.name,
                fresh_service(config@),
            ),
            final(self).names() == order_with(old(self).names(), config@.name),
    {
        self.put(
            OnionService {
                config,
                status: OnionStatus::Stopped,
                onion_address: None,
                error_message: None,
            },
        );
    }

    /// The placeholder address of the service called `name`: up to eight
    /// characters of the name, then filler.
    pub fn generate_onion_address(name: &str) -> (r: String)
        ensures
            r@ == placeholder_address(name@),
    {
        concat2(stem_of(name), ADDRESS_FILLER)
    }

    /// Creates a stopped version 3 service open to every client. The name
    /// must be free.
    pub fn create_service(&mut self, name: &str, local_port: u16, virtual_port: u16) -> (r: Result<
        bool,
        NetctlError,
    >)
        requires
            old(self).wf(),
        ensures
            final(self).wf(),
            final(self).data_dir() == old(self).data_dir(),
            old(self).services().contains_key(name@) ==> {
                &&& r matches Err(e) && e@ == ErrorView::AlreadyExists(
                    "Service '"@ + name@ + "' already exists"@,
                )
                &&& final(self).services() == old(self).services()
                &&& final(self).names() == old(self).names()
            },
            !old(self).services().contains_key(name@) ==> {
                &&& r == Ok::<bool, NetctlError>(true)
                &&& final(self).services() == old(self).services().insert(
                    name@,
                    fresh_service(created_config(name@, local_port, virtual_port)),
                )
                &&& final(self).names() == order_with(old(self).names(), name@)
            },
    {
        if self.services.contains_key(name) {
            return Err(
                NetctlError::AlreadyExists(concat3("Service '", name, "' already exists")),
            );
        }
        let service = OnionService {
            config: OnionServiceConfig {
                name: String::from_str(name),
                local_port,
                virtual_port,
                version_3: true,
                authorized_clients: Vec::new(),
            },
            status: OnionStatus::Stopped,
            onion_address: None,
            error_message: None,
        };
        assert(service@.config.authorized_clients =~= Seq::<Seq<char>>::empty());
        self.put(service);
        Ok(true)
    }

    fn replace_at(&mut self, i: usize, changed: OnionService)
        requires
            old(self).wf(),
            i < old(self).names().len(),
            changed@.config.name == old(self).names()[i as int],
        ensures
            final(self).wf(),
            final(self).data_dir() == old(self).data_dir(),
            final(self).names() == old(self).names(),
            final(self).services() == old(self).services().insert(
                old(self).names()[i as int],
                changed@,
            ),
    {
        let ghost before = *self;
        self.services.set_at(i, changed);
        proof {
            assert forall|j: int| 0 <= j < self.services.keys().len() implies (
            #[trigger] self.services.values()[j])@.config.name == self.services.keys()[j] by {
                if j != i {
                    assert(self.services.values()[j] == before.services.values()[j]);
                }
            }
        }
    }

    /// Whether starting the service called `name` needs its directory: it
    /// does when the service exists and is not up already.
    pub fn needs_directory(&self, name: &str) -> (r: bool)
        requires
            self.wf(),
        ensures
            r == (self.services().contains_key(name@) && !is_up(self.services()[name@])),
    {
        match self.services.get(name) {
            Some(s) => !(s.status == OnionStatus::Running && s.onion_address.is_some()),
            None => false,
        }
    }

    /// Starts the service called `name` and hands back its address. A service
    /// that is up keeps its address. Otherwise `directory` says how making
    /// the service's directory went: after a failure the service is in error,
    /// after a success it runs under its placeholder address.
    pub fn start_service(&mut self, name: &str, directory: Result<(), String>) -> (r: Result<
        String,
        NetctlError,
    >)
        requires
            old(self).wf(),
        ensures
            final(self).wf(),
            final(self).data_dir() == old(self).data_dir(),
            final(self).names() == old(self).names(),
            !old(self).services().contains_key(name@) ==> {
                &&& r matches Err(e) && e@ == service_not_found(name@)
                &&& final(self).services() == old(self).services()
            },
            old(self).services().contains_key(name@) ==> {
                let s = old(self).services()[name@];
                if is_up(s) {
                    &&& r matches Ok(a) && Some(a@) == s.onion_address
                    &&& final(self).services() == old(self).services()
                } else {
                    match directory {
                        Ok(()) => {
                            &&& r matches Ok(a) && a@ == placeholder_address(name@)
                            &&& final(self).services() == old(self).services().insert(
                                name@,
                                started(s),
                            )
                        },
                        Err(reason) => {
                            &&& r matches Err(e) && e@ == ErrorView::ServiceError(
                                "Failed to create directory: "@ + reason@,
                            )
                            &&& final(self).services() == old(self).services().insert(
                                name@,
                                start_failed(s, reason@),
                            )
                        },
                    }
                }
            },
    {
        let i = match self.services.position(name) {
            Some(i) => i,
            None => {
                return Err(make_not_found(name));
            },
        };
        proof {
            self.services.lemma_entry(i as int);
            self.services.lemma_present(name@);
        }
        let current = self.services.value_at(i);
        if current.status == OnionStatus::Running {
            match &current.onion_address {
                Some(addr) => {
                    return Ok(addr.clone());
                },
                None => {},
            }
        }
        let mut service = current.clone();
        match directory {
            Err(reason) => {
                let message = concat2("Failed to create directory: ", reason.as_str());
                service.status = OnionStatus::Error;
                service.error_message = Some(message.clone());
                self.replace_at(i, service);
                Err(NetctlError::ServiceError(message))
            },
            Ok(()) => {
                let address = Self::generate_onion_address(name);
                service.status = OnionStatus::Running;
                service.onion_address = Some(address.clone());
                service.error_message = Some(String::from_str("STUB: Not a real onion service"));
                self.replace_at(i, service);
                Ok(address)
            },
        }
    }

    /// Stops the service called `name`: it loses its address and its note.
    pub fn stop_service(&mut self, name: &str) -> (r: Result<bool, NetctlError>)
        requires
            old(self).wf(),
        ensures
            final(self).wf(),
            final(self).data_dir() == old(self).data_dir(),
            final(self).names() == old(self).names(),
            !old(self).services().contains_key(name@) ==> {
                &&& r matches Err(e) && e@ == service_not_found(name@)
                &&& final(self).services() == old(self).services()
            },
            old(self).services().contains_key(name@) ==> {
                &&& r == Ok::<bool, NetctlError>(true)
                &&& final(self).services() == old(self).services().insert(
                    name@,
                    stopped(old(self).services()[name@]),
                )
            },
    {
        let i = match self.services.position(name) {
            Some(i) => i,
            None => {
                return Err(make_not_found(name));
            },
        };
        proof {
            self.services.lemma_entry(i as int);
            self.services.lemma_present(name@);
        }
        let mut service = self.services.value_at(i).clone();
        service.status = OnionStatus::Stopped;
        service.onion_address = None;
        service.error_message = None;
        self.replace_at(i, service);
        Ok(true)
    }

    /// Removes the service called `name`, whatever state it is in. Removing
    /// its directory is the caller's part.
    pub fn remove_service(&mut self, name: &str) -> (r: Result<bool, NetctlError>)
        requires
            old(self).wf(),
        ensures
            final(self).wf(),
            final(self).data_dir() == old(self).data_dir(),
            final(self).services() == old(self).services().remove(name@),
            final(self).names() == order_without(old(self).names(), name@),
            !old(self).services().contains_key(name@) ==> {
                &&& r matches Err(e) && e@ == service_not_found(name@)
                &&& final(self).services() == old(self).services()
                &&& final(self).names() == old(self).names()
            },
            old(self).services().contains_key(name@) ==> r == Ok::<bool, NetctlError>(true),
    {
        let ghost before = *self;
        match self.services.remove(name) {
            Some(_) => {
                proof {
                    before.services.lemma_present(name@);
                    let p = before.services.index_of(name@);
                    assert forall|i: int| 0 <= i < self.services.keys().len() implies (
                    #[trigger] self.services.values()[i])@.config.name
                        == self.services.keys()[i] by {
                        let i0 = if i < p {
                            i
                        } else {
                            i + 1
                        };
                        assert(self.services.values()[i] == before.services.values()[i0]);
                        assert(self.services.keys()[i] == before.services.keys()[i0]);
                    }
                }
                Ok(true)
            },
            None => {
                proof {
                    assert(before.services@.remove(name@) =~= before.services@);
                }
                Err(make_not_found(name))
            },
        }
    }

    /// What the service called `name` reports about itself.
    pub fn get_service_status(&self, name: &str) -> (r: Result<OnionServiceStatus, NetctlError>)
        requires
            self.wf(),
        ensures
            !self.services().contains_key(name@) ==> (r matches Err(e) && e@ == service_not_found(
                name@,
            )),
            self.services().contains_key(name@) ==> (r matches Ok(st) && {
                let s = self.services()[name@];
                &&& st.name@ == s.config.name
                &&& st.status == s.status
                &&& st.local_port == s.config.local_port
                &&& st.virtual_port == s.config.virtual_port
                &&& opt_view(st.onion_address) == s.onion_address
                &&& opt_view(st.error_message) == s.error_message
            }),
    {
        match self.services.get(name) {
            Some(s) => Ok(
                OnionServiceStatus {
                    name: s.config.name.clone(),
                    status: s.status,
                    local_port: s.config.local_port,
                    virtual_port: s.config.virtual_port,
                    onion_address: clone_opt_string(&s.onion_address),
                    error_message: clone_opt_string(&s.error_message),
                },
            ),
            None => Err(make_not_found(name)),
        }
    }

    /// The names of the services.
    pub fn list_services(&self) -> (r: Vec<String>)
        requires
            self.wf(),
        ensures
            views(r@) == self.names(),
    {
        let mut out: Vec<String> = Vec::new();
        let n: usize = self.services.len();
        let mut i: usize = 0;
        while i < n
            invariant
                self.wf(),
                n == self.services.keys().len(),
                i <= n,
                out@.len() == i,
                forall|j: int| 0 <= j < i ==> out@[j]@ == self.services.keys()[j],
            decreases n - i,
        {
            out.push(self.services.key_at(i).clone());
            i += 1;
        }
        assert(views(out@) =~= self.names());
        out
    }

    /// The address of the service called `name`, which must have one.
    pub fn get_onion_address(&self, name: &str) -> (r: Result<String, NetctlError>)
        requires
            self.wf(),
        ensures
            !self.services().contains_key(name@) ==> (r matches Err(e) && e@ == service_not_found(
                name@,
            )),
            self.services().contains_key(name@) ==> match self.services()[name@].onion_address {
                Some(a) => r matches Ok(got) && got@ == a,
                None => r matches Err(e) && e@ == ErrorView::InvalidState("Service not running"@),
            },
    {
        match self.services.get(name) {
            Some(s) => match &s.onion_address {
                Some(a) => Ok(a.clone()),
                None => Err(NetctlError::InvalidState(String::from_str("Service not running"))),
            },
            None => Err(make_not_found(name)),
        }
    }

    /// Lets the client with public key `pubkey` use the service called
    /// `name`. The key must be 52 bytes long.
    pub fn add_authorized_client(&mut self, name: &str, pubkey: &str) -> (r: Result<
        bool,
        NetctlError,
    >)
        requires
            old(self).wf(),
        ensures
            final(self).wf(),
            final(self).data_dir() == old(self).data_dir(),
            final(self).names() == old(self).names(),
            !old(self).services().contains_key(name@) ==> {
                &&& r matches Err(e) && e@ == service_not_found(name@)
                &&& final(self).services() == old(self).services()
            },
            old(self).services().contains_key(name@) ==> {
                let s = old(self).services()[name@];
                if crate::device::byte_len(pubkey@) != CLIENT_KEY_LEN {
                    &&& r matches Err(e) && e@ == ErrorView::InvalidParameter(
                        "Invalid public key format"@,
                    )
                    &&& final(self).services() == old(self).services()
                } else {
                    &&& r == Ok::<bool, NetctlError>(true)
                    &&& final(self).services() == old(self).services().insert(
                        name@,
                        OnionServiceView {
                            config: OnionConfigView {
                                authorized_clients: s.config.authorized_clients.push(pubkey@),
                                ..s.config
                            },
                            ..s
                        },
                    )
                }
            },
    {
        let i = match self.services.position(name) {
            Some(i) => i,
            None => {
                return Err(make_not_found(name));
            },
        };
        proof {
            self.services.lemma_entry(i as int);
            self.services.lemma_present(name@);
        }
        if pubkey.as_bytes().len() != CLIENT_KEY_LEN {
            return Err(NetctlError::InvalidParameter(String::from_str("Invalid public key format")));
        }
        let mut service = self.services.value_at(i).clone();
        let ghost prior = service.config.authorized_clients@;
        service.config.authorized_clients.push(String::from_str(pubkey));
        assert(views(service.config.authorized_clients@) =~= views(prior).push(pubkey@));
        self.replace_at(i, service);
        Ok(true)
    }

    /// Takes the client with public key `pubkey` off the service called
    /// `name`, wherever it is listed, and says whether it was listed.
    pub fn remove_authorized_client(&mut self, name: &str, pubkey: &str) -> (r: Result<
        bool,
        NetctlError,
    >)
        requires
            old(self).wf(),
        ensures
            final(self).wf(),
            final(self).data_dir() == old(self).data_dir(),
            final(self).names() == old(self).names(),
            !old(self).services().contains_key(name@) ==> {
                &&& r matches Err(e) && e@ == service_not_found(name@)
                &&& final(self).services() == old(self).services()
            },
            old(self).services().contains_key(name@) ==> {
                let s = old(self).services()[name@];
                &&& r == Ok::<bool, NetctlError>(s.config.authorized_clients.contains(pubkey@))
                &&& final(self).services() == old(self).services().insert(
                    name@,
                    OnionServiceView {
                        config: OnionConfigView {
                            authorized_clients: without_key(s.config.authorized_clients, pubkey@),
                            ..s.config
                        },
                        ..s
                    },
                )
            },
    {
        let i = match self.services.position(name) {
            Some(i) => i,
            None => {
                return Err(make_not_found(name));
            },
        };
        proof {
            self.services.lemma_entry(i as int);
            self.services.lemma_present(name@);
        }
        let mut service = self.services.value_at(i).clone();
        let ghost all = views(service.config.authorized_clients@);
        let mut kept: Vec<String> = Vec::new();
        let mut found = false;
        let mut j: usize = 0;
        assert(all.subrange(0, 0) =~= Seq::<Seq<char>>::empty());
        assert(views(kept@) =~= Seq::<Seq<char>>::empty());
        while j < service.config.authorized_clients.len()
            invariant
                j <= service.config.authorized_clients.len(),
                all == views(service.config.authorized_clients@),
                views(kept@) == without_key(all.subrange(0, j as int), pubkey@),
                found == all.subrange(0, j as int).contains(pubkey@),
            decreases service.config.authorized_clients.len() - j,
        {
            let key = &service.config.authorized_clients[j];
            proof {
                let longer = all.subrange(0, j + 1);
                assert(longer.drop_last() =~= all.subrange(0, j as int));
                assert(longer.last() == key@);
                if all.subrange(0, j as int).contains(pubkey@) {
                    let w = choose|w: int|
                        0 <= w < all.subrange(0, j as int).len() && all.subrange(0, j as int)[w]
                            == pubkey@;
                    assert(longer[w] == pubkey@);
                }
                if longer.contains(pubkey@) && key@ != pubkey@ {
                    let w = choose|w: int| 0 <= w < longer.len() && longer[w] == pubkey@;
                    assert(all.subrange(0, j as int)[w] == pubkey@);
                }
                if key@ == pubkey@ {
                    assert(longer[j as int] == pubkey@);
                }
            }
            if str_eq(key.as_str(), pubkey) {
                found = true;
            } else {
                let ghost prior = kept@;
                kept.push(key.clone());
                assert(views(kept@) =~= views(prior).push(key@));
            }
            j += 1;
        }
        assert(all.subrange(0, j as int) =~= all);
        service.config.authorized_clients = kept;
        self.replace_at(i, service);
        Ok(found)
    }

    /// The public keys of the clients that may use the service called `name`.
    pub fn list_authorized_clients(&self, name: &str) -> (r: Result<Vec<String>, NetctlError>)
        requires
            self.wf(),
        ensures
            !self.services().contains_key(name@) ==> (r matches Err(e) && e@ == service_not_found(
                name@,
            )),
            self.services().contains_key(name@) ==> (r matches Ok(keys) && views(keys@)
                == self.services()[name@].config.authorized_clients),
    {
        match self.services.get(name) {
            Some(s) => Ok(clone_strings(&s.config.authorized_clients)),
            None => Err(make_not_found(name)),
        }
    }

    /// A new placeholder address for the service called `name`, which must
    /// not be running. The registry stays as it is.
    pub fn regenerate_address(&self, name: &str) -> (r: Result<String, NetctlError>)
        requires
            self.wf(),
        ensures
            !self.services().contains_key(name@) ==> (r matches Err(e) && e@ == service_not_found(
                name@,
            )),
            self.services().contains_key(name@) ==> (if self.services()[name@].status
                == OnionStatus::Running {
                r matches Err(e) && e@ == ErrorView::InvalidState(
                    "Stop service before regenerating address"@,
                )
            } else {
                r matches Ok(a) && a@ == name_stem(name@) + REGENERATED_FILLER@
            }),
    {
        match self.services.get(name) {
            Some(s) => {
                if s.status == OnionStatus::Running {
                    Err(
                        NetctlError::InvalidState(
                            String::from_str("Stop service before regenerating address"),
                        ),
                    )
                } else {
                    Ok(concat2(stem_of(name), REGENERATED_FILLER))
                }
            },
            None => Err(make_not_found(name)),
        }
    }
}

} // verus!
