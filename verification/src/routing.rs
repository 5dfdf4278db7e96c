//! The routing table shown to clients, and the default gateways kept beside
//! it.

use vstd::prelude::*;
use crate::error::{invalid_parameter, ErrorView, NetctlError};
use crate::validation::{
    is_interface_name, is_ip_address, validate_interface_name, validate_ip_address,
};
use crate::registry::{view_all, Registry};
use crate::text::{clone_opt_string, contains_char};
use crate::types::{new_route_info, opt_view, CRRouteInfo, RouteInfoView};

verus! {

/// Destination of the default route.
pub const DEFAULT_DESTINATION: &'static str = "default";

/// A text, or nothing when the text is empty.
pub open spec fn non_empty(s: Seq<char>) -> Option<Seq<char>> {
    if s.len() == 0 {
        None
    } else {
        Some(s)
    }
}

/// The route that a request to add one describes. An empty gateway or
/// interface means that the route has none.
pub open spec fn route_for(
    destination: Seq<char>,
    gateway: Seq<char>,
    interface: Seq<char>,
    metric: u32,
) -> RouteInfoView {
    RouteInfoView {
        gateway: non_empty(gateway),
        interface: non_empty(interface),
        metric,
        ..new_route_info(destination)
    }
}

/// The default route through `gateway`: metric 0, the lowest.
pub open spec fn default_route_for(gateway: Seq<char>, interface: Seq<char>) -> RouteInfoView {
    RouteInfoView {
        gateway: Some(gateway),
        interface: non_empty(interface),
        metric: 0,
        ..new_route_info(DEFAULT_DESTINATION@)
    }
}

/// Whether a gateway address is an IPv6 address: it is when it holds a colon.
pub open spec fn is_ipv6(gateway: Seq<char>) -> bool {
    gateway.contains(':')
}

/// The routes in the order their destinations first appeared, and by
/// destination.
pub struct RouteTable {
    pub order: Seq<Seq<char>>,
    pub routes: Map<Seq<char>, RouteInfoView>,
}

impl RouteTable {
    /// Each destination is listed once, and the listed destinations are the
    /// ones that have a route.
    pub open spec fn wf(self) -> bool {
        &&& self.order.no_duplicates()
        &&& forall|d: Seq<char>| self.routes.contains_key(d) <==> self.order.contains(d)
    }

    /// The table with `route` added: it takes the place of the route to the
    /// same destination, or goes to the end when there is none.
    pub open spec fn with(self, route: RouteInfoView) -> RouteTable {
        RouteTable {
            order: if self.routes.contains_key(route.destination) {
                self.order
            } else {
                self.order.push(route.destination)
            },
            routes: self.routes.insert(route.destination, route),
        }
    }

    /// The table without the route to `destination`.
    pub open spec fn without(self, destination: Seq<char>) -> RouteTable {
        RouteTable {
            order: if self.routes.contains_key(destination) {
                self.order.remove(self.order.index_of(destination))
            } else {
                self.order
            },
            routes: self.routes.remove(destination),
        }
    }
}

/// The default gateways, one for each address family.
pub struct GatewayPair {
    pub v4: Option<Seq<char>>,
    pub v6: Option<Seq<char>>,
}

impl GatewayPair {
    /// The pair with the gateway of one family set or cleared.
    pub open spec fn with(self, gateway: Option<Seq<char>>, ipv6: bool) -> GatewayPair {
        if ipv6 {
            GatewayPair { v6: gateway, ..self }
        } else {
            GatewayPair { v4: gateway, ..self }
        }
    }
}

/// Adding a route to a destination that already has one replaces it: the
/// table then holds the destination once, with the route added last, and is
/// what it would be had only that route been added.
pub proof fn lemma_add_route_replaces(table: RouteTable, first: RouteInfoView, second: RouteInfoView)
    requires
        table.wf(),
        first.destination == second.destination,
    ensures
        table.with(first).with(second).wf(),
        table.with(first).with(second).order.contains(second.destination),
        table.with(first).with(second).routes[second.destination] == second,
        table.with(first).with(second) == table.with(second),
{
    let d = second.destination;
    let once = table.with(first);
    let twice = once.with(second);
    if table.routes.contains_key(d) {
    } else {
        assert(!table.order.contains(d));
        assert(once.order[table.order.len() as int] == d);
        assert forall|x: Seq<char>| once.order.contains(x) implies table.order.contains(x) || x
            == d by {
            let i = choose|i: int| 0 <= i < once.order.len() && once.order[i] == x;
            if i < table.order.len() {
                assert(table.order[i] == x);
            }
        }
        assert forall|x: Seq<char>| table.order.contains(x) implies once.order.contains(x) by {
            let i = choose|i: int| 0 <= i < table.order.len() && table.order[i] == x;
            assert(once.order[i] == x);
        }
    }
    assert(twice.routes =~= table.with(second).routes);
}

/// The gateways of the two address families are kept apart: setting one of
/// each, in either order, leaves both in place.
pub proof fn lemma_gateways_independent(pair: GatewayPair, a: Seq<char>, b: Seq<char>)
    requires
        !is_ipv6(a),
        is_ipv6(b),
    ensures
        pair.with(Some(a), is_ipv6(a)).with(Some(b), is_ipv6(b)) == (GatewayPair {
            v4: Some(a),
            v6: Some(b),
        }),
        pair.with(Some(b), is_ipv6(b)).with(Some(a), is_ipv6(a)) == (GatewayPair {
            v4: Some(a),
            v6: Some(b),
        }),
{
}

/// The default gateways as handed to a client.
#[derive(Debug)]
pub struct DefaultGateway {
    /// IPv4 default gateway.
    pub gateway: Option<String>,
    /// IPv6 default gateway.
    pub gateway6: Option<String>,
}

impl DefaultGateway {
    /// The family flag that goes with the answer: set when there is an IPv6
    /// gateway, clear when there is only an IPv4 one, absent when there is
    /// neither.
    pub fn ipv6_flag(&self) -> (r: Option<bool>)
        ensures
            r == (if self.gateway6 is Some {
                Some(true)
            } else if self.gateway is Some {
                Some(false)
            } else {
                None
            }),
    {
        if self.gateway6.is_some() {
            Some(true)
        } else if self.gateway.is_some() {
            Some(false)
        } else {
            None
        }
    }
}

/// The routing table.
pub struct CRRouting {
    routes: Registry<CRRouteInfo>,
    default_gateway: Option<String>,
    default_gateway6: Option<String>,
}

impl CRRouting {
    /// The routes, by destination and in order.
    pub closed spec fn table(&self) -> RouteTable {
        RouteTable { order: self.routes.keys(), routes: self.routes@ }
    }

    /// The routes, each at the position of its destination.
    pub closed spec fn listing(&self) -> Seq<RouteInfoView> {
        self.routes.value_views()
    }

    /// The default gateways.
    pub closed spec fn gateways(&self) -> GatewayPair {
        GatewayPair { v4: opt_view(self.default_gateway), v6: opt_view(self.default_gateway6) }
    }

    /// No destination occurs twice, and every route is stored under its own
    /// destination.
    pub closed spec fn wf(&self) -> bool {
        &&& self.routes.wf()
        &&& forall|i: int|
            0 <= i < self.routes.keys().len() ==> (#[trigger] self.routes.values()[i])@.destination
                == self.routes.keys()[i]
    }

    /// How table, listing and lookup fit together.
    pub proof fn lemma_wf(&self)
        requires
            self.wf(),
        ensures
            self.table().wf(),
            self.table().order.len() == self.listing().len(),
            forall|i: int|
                0 <= i < self.table().order.len() ==> {
                    &&& self.table().routes.contains_key(#[trigger] self.table().order[i])
                    &&& self.table().routes[self.table().order[i]] == self.listing()[i]
                    &&& self.listing()[i].destination == self.table().order[i]
                },
    {
        assert forall|i: int| 0 <= i < self.table().order.len() implies {
            &&& self.table().routes.contains_key(#[trigger] self.table().order[i])
            &&& self.table().routes[self.table().order[i]] == self.listing()[i]
            &&& self.listing()[i].destination == self.table().order[i]
        } by {
            self.routes.lemma_entry(i);
            assert(self.routes.values()[i]@.destination == self.routes.keys()[i]);
        }
    }

    /// An empty table without default gateways.
    pub fn new() -> (r: Self)
        ensures
            r.wf(),
            r.table() == (RouteTable { order: Seq::empty(), routes: Map::empty() }),
            r.gateways() == (GatewayPair { v4: None, v6: None }),
    {
        CRRouting { routes: Registry::new(), default_gateway: None, default_gateway6: None }
    }

    /// Adds `route`, in place of the route to the same destination if there
    /// is one.
    pub fn add_route_internal(&mut self, route: CRRouteInfo)
        requires
            old(self).wf(),
        ensures
            final(self).wf(),
            final(self).table() == old(self).table().with(route@),
            final(self).gateways() == old(self).gateways(),
    {
        let ghost before = *self;
        let key = route.destination.clone();
        self.routes.insert(key, route);
        proof {
            assert forall|i: int| 0 <= i < self.routes.keys().len() implies (
            #[trigger] self.routes.values()[i])@.destination == self.routes.keys()[i] by {
                if before.routes.contains(route@.destination) {
                    before.routes.lemma_present(route@.destination);
                    if i != before.routes.index_of(route@.destination) {
                        assert(self.routes.values()[i] == before.routes.values()[i]);
                    }
                } else {
                    if i < before.routes.keys().len() {
                        assert(self.routes.values()[i] == before.routes.values()[i]);
                    }
                }
            }
        }
    }

    /// Takes the route to `destination` out and says whether there was one.
    pub fn remove_route_internal(&mut self, destination: &str) -> (r: bool)
        requires
            old(self).wf(),
        ensures
            final(self).wf(),
            r == old(self).table().routes.contains_key(destination@),
            final(self).table() == old(self).table().without(destination@),
            final(self).gateways() == old(self).gateways(),
            !r ==> final(self).table() == old(self).table(),
    {
        let ghost before = *self;
        match self.routes.remove(destination) {
            Some(_) => {
                proof {
                    before.routes.lemma_present(destination@);
                    let p = before.routes.index_of(destination@);
                    assert forall|i: int| 0 <= i < self.routes.keys().len() implies (
                    #[trigger] self.routes.values()[i])@.destination
                        == self.routes.keys()[i] by {
                        let i0 = if i < p {
                            i
                        } else {
                            i + 1
                        };
                        assert(self.routes.values()[i] == before.routes.values()[i0]);
                        assert(self.routes.keys()[i] == before.routes.keys()[i0]);
                    }
                }
                true
            },
            None => {
                proof {
                    assert(before.routes@.remove(destination@) =~= before.routes@);
                }
                false
            },
        }
    }

    /// Sets or clears the default gateway of one address family.
    pub fn set_default_gateway_internal(&mut self, gateway: Option<String>, ipv6: bool)
        requires
            old(self).wf(),
        ensures
            final(self).wf(),
            final(self).table() == old(self).table(),
            final(self).gateways() == old(self).gateways().with(opt_view(gateway), ipv6),
    {
        if ipv6 {
            self.default_gateway6 = gateway;
        } else {
            self.default_gateway = gateway;
        }
    }

    /// Adds a route, in place of the route to the same destination if there
    /// is one. The destination must not be empty.
    pub fn add_route(&mut self, destination: &str, gateway: &str, interface: &str, metric: u32) -> (r:
        Result<(), NetctlError>)
        requires
            old(self).wf(),
        ensures
            final(self).wf(),
            final(self).gateways() == old(self).gateways(),
            destination@.len() == 0 ==> {
                &&& r matches Err(e) && e@ == ErrorView::InvalidParameter(
                    "Destination cannot be empty"@,
                )
                &&& final(self).table() == old(self).table()
            },
            destination@.len() > 0 ==> {
                &&& r is Ok
                &&& final(self).table() == old(self).table().with(
                    route_for(destination@, gateway@, interface@, metric),
                )
            },
    {
        if destination.is_empty() {
            return Err(
                NetctlError::InvalidParameter(String::from_str("Destination cannot be empty")),
            );
        }
        let mut route = CRRouteInfo::new(String::from_str(destination));
        if !gateway.is_empty() {
            route.gateway = Some(String::from_str(gateway));
        }
        if !interface.is_empty() {
            route.interface = Some(String::from_str(interface));
        }
        route.metric = metric;
        self.add_route_internal(route);
        Ok(())
    }

    /// Removes the route to `destination`.
    pub fn remove_route(&mut self, destination: &str) -> (r: Result<(), NetctlError>)
        requires
            old(self).wf(),
        ensures
            final(self).wf(),
            final(self).gateways() == old(self).gateways(),
            final(self).table() == old(self).table().without(destination@),
            old(self).table().routes.contains_key(destination@) ==> r is Ok,
            !old(self).table().routes.contains_key(destination@) ==> {
                &&& r matches Err(e) && e@ == ErrorView::NotFound(
                    "Route not found: "@ + destination@,
                )
                &&& final(self).table() == old(self).table()
            },
    {
        if !self.remove_route_internal(destination) {
            return Err(
                NetctlError::NotFound(crate::text::concat2("Route not found: ", destination)),
            );
        }
        Ok(())
    }

    /// A copy of all routes, in the order their destinations first appeared.
    pub fn get_routes(&self) -> (r: Vec<CRRouteInfo>)
        requires
            self.wf(),
        ensures
            view_all(r@) == self.listing(),
    {
        let mut out: Vec<CRRouteInfo> = Vec::new();
        let n: usize = self.routes.len();
        let mut i: usize = 0;
        while i < n
            invariant
                self.wf(),
                n == self.routes.keys().len(),
                i <= n,
                out@.len() == i,
                forall|j: int| 0 <= j < i ==> out@[j]@ == self.routes.values()[j]@,
            decreases n - i,
        {
            out.push(self.routes.value_at(i).clone());
            i += 1;
        }
        assert(view_all(out@) =~= self.listing());
        out
    }

    /// The number of routes.
    pub fn get_route_count(&self) -> (r: usize)
        requires
            self.wf(),
        ensures
            r == self.table().order.len(),
    {
        self.routes.len()
    }

    /// The route to `destination`.
    pub fn get_route(&self, destination: &str) -> (r: Result<CRRouteInfo, NetctlError>)
        requires
            self.wf(),
        ensures
            self.table().routes.contains_key(destination@) ==> (r matches Ok(route) && route@
                == self.table().routes[destination@]),
            !self.table().routes.contains_key(destination@) ==> (r matches Err(e) && e@
                == ErrorView::NotFound("Route not found: "@ + destination@)),
    {
        match self.routes.get(destination) {
            Some(route) => Ok(route.clone()),
            None => Err(
                NetctlError::NotFound(crate::text::concat2("Route not found: ", destination)),
            ),
        }
    }

    /// Makes `gateway` the default gateway of its address family and puts
    /// the default route through it in place. The gateway must not be empty.
    pub fn set_default_gateway(&mut self, gateway: &str, interface: &str) -> (r: Result<
        (),
        NetctlError,
    >)
        requires
            old(self).wf(),
        ensures
            final(self).wf(),
            gateway@.len() == 0 ==> {
                &&& r matches Err(e) && e@ == ErrorView::InvalidParameter(
                    "Gateway cannot be empty"@,
                )
                &&& final(self).table() == old(self).table()
                &&& final(self).gateways() == old(self).gateways()
            },
            gateway@.len() > 0 ==> {
                &&& r is Ok
                &&& final(self).table() == old(self).table().with(
                    default_route_for(gateway@, interface@),
                )
                &&& final(self).gateways() == old(self).gateways().with(
                    Some(gateway@),
                    is_ipv6(gateway@),
                )
            },
    {
        if gateway.is_empty() {
            return Err(NetctlError::InvalidParameter(String::from_str("Gateway cannot be empty")));
        }
        let ipv6 = contains_char(gateway, ':');
        let mut route = CRRouteInfo::new(String::from_str(DEFAULT_DESTINATION));
        route.gateway = Some(String::from_str(gateway));
        if !interface.is_empty() {
            route.interface = Some(String::from_str(interface));
        }
        route.metric = 0;
        self.add_route_internal(route);
        self.set_default_gateway_internal(Some(String::from_str(gateway)), ipv6);
        Ok(())
    }

    /// The default gateways of both address families.
    pub fn get_default_gateway(&self) -> (r: DefaultGateway)
        ensures
            opt_view(r.gateway) == self.gateways().v4,
            opt_view(r.gateway6) == self.gateways().v6,
    {
        DefaultGateway {
            gateway: clone_opt_string(&self.default_gateway),
            gateway6: clone_opt_string(&self.default_gateway6),
        }
    }

    /// Clears the default gateway of one address family and removes the
    /// default route.
    pub fn clear_default_gateway(&mut self, ipv6: bool) -> (r: Result<(), NetctlError>)
        requires
            old(self).wf(),
        ensures
            final(self).wf(),
            r is Ok,
            final(self).table() == old(self).table().without(DEFAULT_DESTINATION@),
            final(self).gateways() == old(self).gateways().with(None, ipv6),
    {
        self.set_default_gateway_internal(None, ipv6);
        self.remove_route_internal(DEFAULT_DESTINATION);
        Ok(())
    }

    /// Removes every route and both default gateways.
    pub fn clear_all_routes(&mut self) -> (r: Result<(), NetctlError>)
        requires
            old(self).wf(),
        ensures
            final(self).wf(),
            r is Ok,
            final(self).table() == (RouteTable { order: Seq::empty(), routes: Map::empty() }),
            final(self).gateways() == (GatewayPair { v4: None, v6: None }),
    {
        self.routes.clear();
        self.default_gateway = None;
        self.default_gateway6 = None;
        Ok(())
    }
}

impl Default for CRRouting {
    fn default() -> (r: Self)
        ensures
            r.wf(),
            r.table() == (RouteTable { order: Seq::empty(), routes: Map::empty() }),
    {
        Self::new()
    }
}

/// The parts joined with single spaces.
pub open spec fn joined(parts: Seq<Seq<char>>) -> Seq<char>
    decreases parts.len(),
{
    if parts.len() == 0 {
        Seq::empty()
    } else if parts.len() == 1 {
        parts[0]
    } else {
        joined(parts.drop_last()) + " "@ + parts.last()
    }
}

/// The arguments that make the link tool add a default route through
/// `gateway`, on `interface` when one is given.
pub open spec fn gateway_args(gateway: Seq<char>, interface: Option<Seq<char>>) -> Seq<Seq<char>> {
    let base = seq!["route"@, "add"@, "default"@, "via"@, gateway];
    match interface {
        Some(i) => base + seq!["dev"@, i],
        None => base,
    }
}

/// The command line for the given arguments, as it is shown in failures.
pub open spec fn command_line(args: Seq<Seq<char>>) -> Seq<char> {
    "ip "@ + joined(args)
}

/// The view of an optional text.
pub open spec fn opt_text(t: Option<&str>) -> Option<Seq<char>> {
    match t {
        Some(t) => Some(t@),
        None => None,
    }
}

/// Why a default route through `gateway` is refused before anything is run,
/// if it is: the gateway must be an IP address, and the interface, where one
/// is given, an interface name. The gateway is looked at first.
pub open spec fn gateway_fault(gateway: Seq<char>, interface: Option<Seq<char>>) -> Option<
    ErrorView,
> {
    if !is_ip_address(gateway) {
        Some(ErrorView::InvalidParameter("Invalid IP address: "@ + gateway))
    } else {
        match interface {
            Some(i) => if is_interface_name(i) {
                None
            } else {
                Some(ErrorView::InvalidParameter("Invalid interface name: "@ + i))
            },
            None => None,
        }
    }
}

/// How running a command went.
#[derive(Debug)]
pub enum CommandOutcome {
    /// The command could not be started; carries the reason.
    NotStarted { reason: String },
    /// The command ran; carries whether it succeeded, its exit code if it
    /// has one, and what it wrote to standard error.
    Exited { success: bool, code: Option<i32>, stderr: String },
}

/// What the outcome of the command with line `cmd` means for the operation
/// that ran it: success, or `CommandFailed` with the line, the exit code and
/// the error text.
pub open spec fn command_result(cmd: Seq<char>, outcome: CommandOutcome) -> Result<(), ErrorView> {
    match outcome {
        CommandOutcome::NotStarted { reason } => Err(
            ErrorView::CommandFailed { cmd, code: None, stderr: reason@ },
        ),
        CommandOutcome::Exited { success, code, stderr } => if success {
            Ok(())
        } else {
            Err(ErrorView::CommandFailed { cmd, code, stderr: stderr@ })
        },
    }
}

impl CommandOutcome {
    /// What this outcome of the command with line `cmd` means for the
    /// operation that ran it, as `command_result` describes it.
    pub fn into_result(self, cmd: String) -> (r: Result<(), NetctlError>)
        ensures
            match command_result(cmd@, self) {
                Ok(()) => r is Ok,
                Err(e) => r matches Err(x) && x@ == e,
            },
    {
        match self {
            CommandOutcome::NotStarted { reason } => Err(
                NetctlError::CommandFailed { cmd, code: None, stderr: reason },
            ),
            CommandOutcome::Exited { success, code, stderr } => {
                if success {
                    Ok(())
                } else {
                    Err(NetctlError::CommandFailed { cmd, code, stderr })
                }
            },
        }
    }
}

/// Changes to the system's routing table, made through the link tool.
pub struct RoutingController;

impl RoutingController {
    /// A controller; it keeps no state of its own.
    pub fn new() -> (r: Self) {
        RoutingController
    }

    /// The arguments for adding a default route, as `gateway_args` describes
    /// them.
    pub fn default_gateway_args(gateway: &str, interface: Option<&str>) -> (r: Vec<String>)
        ensures
            crate::text::views(r@) == gateway_args(
                gateway@,
                match interface {
                    Some(i) => Some(i@),
                    None => None,
                },
            ),
    {
        let mut args: Vec<String> = Vec::new();
        args.push(String::from_str("route"));
        args.push(String::from_str("add"));
        args.push(String::from_str("default"));
        args.push(String::from_str("via"));
        args.push(String::from_str(gateway));
        match interface {
            Some(i) => {
                args.push(String::from_str("dev"));
                args.push(String::from_str(i));
                assert(crate::text::views(args@) =~= gateway_args(gateway@, Some(i@)));
            },
            None => {
                assert(crate::text::views(args@) =~= gateway_args(gateway@, None));
            },
        }
        args
    }

    /// The command line for `args`, as `command_line` describes it.
    pub fn command_text(args: &Vec<String>) -> (r: String)
        ensures
            r@ == command_line(crate::text::views(args@)),
    {
        let ghost all = crate::text::views(args@);
        let mut out = String::from_str("ip ");
        let mut i: usize = 0;
        assert(all.subrange(0, 0) =~= Seq::<Seq<char>>::empty());
        assert("ip "@ + joined(all.subrange(0, 0)) =~= "ip "@);
        while i < args.len()
            invariant
                i <= args.len(),
                all == crate::text::views(args@),
                out@ == "ip "@ + joined(all.subrange(0, i as int)),
            decreases args.len() - i,
        {
            proof {
                let longer = all.subrange(0, i + 1);
                assert(longer.drop_last() =~= all.subrange(0, i as int));
                assert(longer.last() == args@[i as int]@);
            }
            if i > 0 {
                out.append(" ");
                out.append(args[i].as_str());
                assert(out@ =~= "ip "@ + joined(all.subrange(0, i + 1)));
            } else {
                out.append(args[i].as_str());
                assert(out@ =~= "ip "@ + joined(all.subrange(0, i + 1)));
            }
            i += 1;
        }
        assert(all.subrange(0, i as int) =~= all);
        out
    }

    /// What is to be run to add a default route through `gateway`: the
    /// arguments for the link tool, or the reason why nothing is to be run.
    /// The gateway must be an IP address and the interface, where one is
    /// given, an interface name.
    pub fn plan_default_gateway(gateway: &str, interface: Option<&str>) -> (r: Result<
        Vec<String>,
        NetctlError,
    >)
        ensures
            match gateway_fault(gateway@, opt_text(interface)) {
                Some(e) => r matches Err(x) && x@ == e,
                None => r matches Ok(args) && crate::text::views(args@) == gateway_args(
                    gateway@,
                    opt_text(interface),
                ),
            },
    {
        if !validate_ip_address(gateway) {
            return Err(invalid_parameter("Invalid IP address: ", gateway));
        }
        match interface {
            Some(i) => {
                if !validate_interface_name(i) {
                    return Err(invalid_parameter("Invalid interface name: ", i));
                }
            },
            None => {},
        }
        Ok(Self::default_gateway_args(gateway, interface))
    }

    /// What came of adding a default route through `gateway`. A gateway or
    /// an interface that `plan_default_gateway` refuses is refused here in
    /// the same way, whatever `outcome` says, for then nothing was to be
    /// run. Otherwise the caller ran the link tool with the planned
    /// arguments and `outcome` says how that went.
    pub fn add_default_gateway(&self, gateway: &str, interface: Option<&str>, outcome: CommandOutcome) -> (r:
        Result<(), NetctlError>)
        ensures
            match gateway_fault(gateway@, opt_text(interface)) {
                Some(e) => r matches Err(x) && x@ == e,
                None => match command_result(
                    command_line(gateway_args(gateway@, opt_text(interface))),
                    outcome,
                ) {
                    Ok(()) => r is Ok,
                    Err(e) => r matches Err(x) && x@ == e,
                },
            },
    {
        match Self::plan_default_gateway(gateway, interface) {
            Err(e) => Err(e),
            Ok(args) => {
                let cmd = Self::command_text(&args);
                outcome.into_result(cmd)
            },
        }
    }
}

impl Default for RoutingController {
    fn default() -> (r: Self) {
        Self::new()
    }
}

} // verus!
