//! Which routes a client needs while it is connected, and how they follow the
//! network.
//!
//! The routing table itself belongs to the host: it lists, adds and deletes
//! routes, and reports what came of it.

use crate::net::{IpAddr, OsError};
use crate::route::{
    address_bits, address_value, get_route_metric, host_prefix_len, ipv6_sink_routes,
    lan_networks, one_family, plain_route, route_cost, route_views, same_ip_family, sink_routes,
    tunnel_networks, two_to, ListedRoute, Platform, Route, RouteMode, RouteView, RoutingResult,
    RoutingTableError, RoutingTableErrorView, IPV4_UPPER_HALF, IPV6_BITS, IPV6_UNIQUE_LOCAL,
    IPV6_UNIQUE_LOCAL_PREFIX,
};
use vstd::prelude::*;

verus! {

/// What a choice among the routes of the system goes by.
pub struct RouteChoice {
    /// The system
    pub platform: Platform,
    /// The address to reach
    pub server_ip: IpAddr,
    /// The route to the server in use
    pub server_route: Option<RouteView>,
    /// The routes of the system
    pub routes: Seq<ListedRoute<Seq<char>>>,
}

impl RouteChoice {
    /// Whether a route is a default route of the right family.
    pub open spec fn is_default(self, i: int) -> bool {
        &&& 0 <= i < self.routes.len()
        &&& one_family(self.server_ip, self.routes[i].route.destination)
        &&& self.routes[i].route.prefix == 0
    }

    /// What a route costs.
    pub open spec fn cost(self, i: int) -> u32 {
        route_cost(self.platform, self.routes[i])
    }

    /// Whether no default route costs less than this one.
    pub open spec fn is_cheapest(self, i: int) -> bool {
        &&& self.is_default(i)
        &&& forall|j: int| #[trigger] self.is_default(j) ==> self.cost(i) <= self.cost(j)
    }

    /// Whether a cheapest route is the one in use.
    pub open spec fn is_in_use(self, i: int) -> bool {
        self.is_cheapest(i) && self.server_route == Some(self.routes[i].route)
    }

    /// Whether a route is the best one. Where routes have a cost, that is the
    /// one in use if no other is cheaper, else the first of the cheapest. On
    /// macOS it is the first.
    pub open spec fn is_best(self, i: int) -> bool {
        if self.platform is MacOs {
            self.is_default(i) && forall|j: int| 0 <= j < i ==> !#[trigger] self.is_default(j)
        } else if exists|k: int| #[trigger] self.is_in_use(k) {
            self.is_in_use(i)
        } else {
            &&& self.is_cheapest(i)
            &&& forall|j: int| 0 <= j < i ==> !#[trigger] self.is_cheapest(j)
        }
    }
}

/// What an [`Option`] of a route says.
pub open spec fn optional_view(route: Option<Route<String>>) -> Option<RouteView> {
    match route {
        Some(route) => Some(route@),
        None => None,
    }
}

/// What a list of routes of the system says.
pub open spec fn listed_views(routes: Seq<ListedRoute<String>>) -> Seq<ListedRoute<Seq<char>>> {
    routes.map_values(|listed: ListedRoute<String>| listed@)
}

/// Whether the route at `best` is the best of the first `n`, none if there is
/// no default route among them.
spec fn best_so_far(choice: RouteChoice, n: int, best: Option<int>) -> bool {
    match best {
        None => forall|i: int| i < n ==> !#[trigger] choice.is_default(i),
        Some(b) => {
            &&& b < n && choice.is_default(b)
            &&& forall|i: int|
                i < n && #[trigger] choice.is_default(i) ==> choice.cost(b) <= choice.cost(i)
            &&& choice.server_route == Some(choice.routes[b].route) || forall|i: int|
                i < n && #[trigger] choice.is_default(i) && choice.cost(i) == choice.cost(b) ==> i
                    >= b && choice.server_route != Some(choice.routes[i].route)
        },
    }
}

/// The best of all routes so far is the best route.
proof fn best_of_all(choice: RouteChoice, best: Option<int>)
    requires
        choice.platform !is MacOs,
        best_so_far(choice, choice.routes.len() as int, best),
    ensures
        match best {
            Some(b) => choice.is_best(b),
            None => forall|i: int| !#[trigger] choice.is_default(i),
        },
{
    match best {
        Some(b) => {
            assert(choice.is_cheapest(b));
            if choice.server_route == Some(choice.routes[b].route) {
                assert(choice.is_in_use(b));
            } else {
                assert forall|k: int| !#[trigger] choice.is_in_use(k) by {
                    if choice.is_in_use(k) {
                        assert(choice.is_default(k));
                    }
                }
                assert forall|j: int| 0 <= j < b implies !#[trigger] choice.is_cheapest(j) by {
                    if choice.is_cheapest(j) {
                        assert(choice.is_default(j));
                    }
                }
            }
        },
        None => {},
    }
}

/// The routes that a client has installed, and what it needs to know to
/// install them.
#[derive(Debug)]
pub struct RouteManagerInner {
    /// The system
    pub platform: Platform,
    /// What becomes of traffic outside of the tunnel
    pub routing_mode: RouteMode,
    /// Whether IPv6 traffic is discarded
    pub block_ipv6: bool,
    /// Address of the server
    pub server_ip: IpAddr,
    /// Index of the tunnel interface
    pub tun_index: u32,
    /// Address of the peer inside the tunnel
    pub tun_peer_ip: IpAddr,
    /// Address of the resolver inside the tunnel
    pub tun_dns_ip: IpAddr,
    /// Routes into the tunnel that are installed
    pub vpn_routes: Vec<Route<String>>,
    /// Routes to local networks that are installed
    pub lan_routes: Vec<Route<String>>,
    /// Route to the server that is installed
    pub server_route: Option<Route<String>>,
}

/// What a [`RouteManagerInner`] amounts to.
pub struct RouteManagerView {
    /// The system
    pub platform: Platform,
    /// What becomes of traffic outside of the tunnel
    pub routing_mode: RouteMode,
    /// Whether IPv6 traffic is discarded
    pub block_ipv6: bool,
    /// Address of the server
    pub server_ip: IpAddr,
    /// Index of the tunnel interface
    pub tun_index: u32,
    /// Address of the peer inside the tunnel
    pub tun_peer_ip: IpAddr,
    /// Address of the resolver inside the tunnel
    pub tun_dns_ip: IpAddr,
    /// Routes into the tunnel that are installed
    pub vpn_routes: Seq<RouteView>,
    /// Routes to local networks that are installed
    pub lan_routes: Seq<RouteView>,
    /// Route to the server that is installed
    pub server_route: Option<RouteView>,
}

impl View for RouteManagerInner {
    type V = RouteManagerView;

    open spec fn view(&self) -> RouteManagerView {
        RouteManagerView {
            platform: self.platform,
            routing_mode: self.routing_mode,
            block_ipv6: self.block_ipv6,
            server_ip: self.server_ip,
            tun_index: self.tun_index,
            tun_peer_ip: self.tun_peer_ip,
            tun_dns_ip: self.tun_dns_ip,
            vpn_routes: route_views(self.vpn_routes@),
            lan_routes: route_views(self.lan_routes@),
            server_route: optional_view(self.server_route),
        }
    }
}

impl RouteManagerView {
    /// The choice of a default route to an address.
    pub open spec fn choice(self, server_ip: IpAddr, routes: Seq<ListedRoute<Seq<char>>>) ->
        RouteChoice {
        RouteChoice { platform: self.platform, server_ip, server_route: self.server_route, routes }
    }
}

impl RouteManagerInner {
    /// Identifies the default route with least metric where routes have one,
    /// or the first default route found. `routes` is what the system lists.
    pub fn find_best_default_route(
        &self,
        server_ip: &IpAddr,
        routes: Result<Vec<ListedRoute<String>>, OsError>,
    ) -> (r: RoutingResult<Route<String>>)
        ensures
            match routes {
                Err(e) => r matches Err(error) && error@ == RoutingTableError::<
                    Seq<char>,
                >::DefaultInterfaceNotFound(e),
                Ok(routes) => {
                    let choice = self@.choice(*server_ip, listed_views(routes@));
                    match r {
                        Ok(route) => exists|i: int| #[trigger]
                            choice.is_best(i) && route@ == choice.routes[i].route,
                        Err(error) => error is DefaultRouteNotFound && forall|i: int|
                            !#[trigger] choice.is_default(i),
                    }
                },
            },
    {
        let routes = match routes {
            Ok(routes) => routes,
            Err(e) => return Err(RoutingTableError::DefaultInterfaceNotFound(e)),
        };
        let best = match self.platform {
            Platform::MacOs => self.first_default_route(server_ip, &routes),
            _ => self.cheapest_default_route(server_ip, &routes),
        };
        match best {
            Some(b) => Ok(routes[b].route.duplicate()),
            None => Err(RoutingTableError::DefaultRouteNotFound),
        }
    }

    /// Whether a route is a default route of the same family as an address.
    fn is_default_route(server_ip: &IpAddr, route: &Route<String>) -> (r: bool)
        ensures
            r == (one_family(*server_ip, route.destination) && route.prefix == 0),
    {
        same_ip_family(server_ip, &route.destination) && route.prefix == 0
    }

    /// The first default route.
    fn first_default_route(&self, server_ip: &IpAddr, routes: &Vec<ListedRoute<String>>) -> (best:
        Option<usize>)
        requires
            self.platform is MacOs,
        ensures
            ({
                let choice = self@.choice(*server_ip, listed_views(routes@));
                match best {
                    Some(b) => choice.is_best(b as int) && b < routes.len(),
                    None => forall|i: int| !#[trigger] choice.is_default(i),
                }
            }),
    {
        let ghost choice = self@.choice(*server_ip, listed_views(routes@));
        let mut i: usize = 0;
        while i < routes.len()
            invariant
                i <= routes.len(),
                self.platform is MacOs,
                choice == self@.choice(*server_ip, listed_views(routes@)),
                forall|j: int| 0 <= j < i ==> !#[trigger] choice.is_default(j),
            decreases routes.len() - i,
        {
            assert(choice.routes[i as int] == routes[i as int]@);
            if Self::is_default_route(server_ip, &routes[i].route) {
                assert(choice.is_default(i as int));
                return Some(i);
            }
            assert(!choice.is_default(i as int));
            i = i + 1;
        }
        None
    }

    /// The default route that costs least.
    fn cheapest_default_route(&self, server_ip: &IpAddr, routes: &Vec<ListedRoute<String>>) -> (best:
        Option<usize>)
        requires
            self.platform !is MacOs,
        ensures
            ({
                let choice = self@.choice(*server_ip, listed_views(routes@));
                match best {
                    Some(b) => choice.is_best(b as int) && b < routes.len(),
                    None => forall|i: int| !#[trigger] choice.is_default(i),
                }
            }),
    {
        let ghost choice = self@.choice(*server_ip, listed_views(routes@));
        let mut best: Option<usize> = None;
        let ghost mut best_index: Option<int> = None;
        let mut best_metric: u32 = u32::MAX;
        let mut i: usize = 0;
        while i < routes.len()
            invariant
                i <= routes.len(),
                self.platform !is MacOs,
                choice == self@.choice(*server_ip, listed_views(routes@)),
                choice.routes.len() == routes.len(),
                best_index == (match best {
                    Some(b) => Some(b as int),
                    None => None,
                }),
                best_metric == (match best {
                    Some(b) => choice.cost(b as int),
                    None => u32::MAX,
                }),
                best_so_far(choice, i as int, best_index),
            decreases routes.len() - i,
        {
            let listed = &routes[i];
            assert(choice.routes[i as int] == listed@);
            if Self::is_default_route(server_ip, &listed.route) {
                assert(choice.is_default(i as int));
                let metric = get_route_metric(self.platform, listed);
                if best.is_none() || metric < best_metric {
                    best = Some(i);
                    best_metric = metric;
                    proof {
                        best_index = Some(i as int);
                    }
                } else if metric == best_metric {
                    let in_use = match &self.server_route {
                        Some(server_route) => server_route.same(&listed.route),
                        None => false,
                    };
                    if in_use {
                        best = Some(i);
                        proof {
                            best_index = Some(i as int);
                        }
                    }
                }
            } else {
                assert(!choice.is_default(i as int));
            }
            i = i + 1;
        }
        proof {
            best_of_all(choice, best_index);
        }
        best
    }
}

/// What a route that a client installs is for.
#[derive(Clone, Copy, Debug, PartialEq, Eq, Structural)]
pub enum RouteRole {
    /// Leads to the server, outside of the tunnel
    Server,
    /// Leads to a local network
    Lan,
    /// Leads into the tunnel
    Vpn,
}

/// A route to install.
#[derive(Debug)]
pub struct PlannedRoute<S> {
    /// What it is for
    pub role: RouteRole,
    /// The route
    pub route: Route<S>,
}

impl View for PlannedRoute<String> {
    type V = PlannedRoute<Seq<char>>;

    open spec fn view(&self) -> PlannedRoute<Seq<char>> {
        PlannedRoute { role: self.role, route: self.route@ }
    }
}

/// What a list of routes to install says.
pub open spec fn planned_views(plan: Seq<PlannedRoute<String>>) -> Seq<PlannedRoute<Seq<char>>> {
    plan.map_values(|planned: PlannedRoute<String>| planned@)
}

/// What looking up a route came to.
pub open spec fn found_view(found: Result<Option<Route<String>>, OsError>) -> Result<
    Option<RouteView>,
    OsError,
> {
    match found {
        Ok(route) => Ok(optional_view(route)),
        Err(e) => Err(e),
    }
}

/// The old and the new route to the server.
#[derive(Debug)]
pub struct ServerRouteChange {
    /// Route to delete
    pub old_route: Route<String>,
    /// Route to add in its place
    pub new_route: Route<String>,
}

/// The number of the error that a file, or a route, exists already:
/// `libc::EEXIST`, which is 17 on Linux and on macOS.
#[verifier::external_body]
fn file_exists_code() -> (code: i32)
    ensures
        code == 17,
{
    libc::EEXIST
}

/// The number of the error that an object exists already:
/// `windows_sys::Win32::Foundation::ERROR_OBJECT_ALREADY_EXISTS`, which is 5010.
#[verifier::external_body]
fn object_exists_code() -> (code: u32)
    ensures
        code == 5010,
{
    windows_sys::Win32::Foundation::ERROR_OBJECT_ALREADY_EXISTS
}

/// Whether an error says that the route exists already.
pub open spec fn says_route_exists(platform: Platform, error: OsError) -> bool {
    error.raw_os_error == Some(
        match platform {
            Platform::Windows => 5010i32,
            _ => 17i32,
        },
    )
}

/// Whether an error says that the route exists already.
pub fn is_route_exists_error(platform: Platform, error: &OsError) -> (exists_already: bool)
    ensures
        exists_already == says_route_exists(platform, *error),
{
    match error.raw_os_error {
        Some(code) => match platform {
            Platform::Linux | Platform::MacOs => code == file_exists_code(),
            Platform::Windows => code >= 0 && code as u32 == object_exists_code(),
        },
        None => false,
    }
}

/// What adding a route came to: one that exists already is as good as added,
/// and a lack of permission is told apart.
pub open spec fn add_outcome(
    platform: Platform,
    route: RouteView,
    outcome: Result<(), OsError>,
) -> Result<(), RoutingTableErrorView> {
    match outcome {
        Ok(_) => Ok(()),
        Err(e) => if says_route_exists(platform, e) {
            Ok(())
        } else if e.permission_denied {
            Err(RoutingTableError::InsufficientPermissions)
        } else {
            Err(RoutingTableError::AddRouteError(route, e))
        },
    }
}

/// What a result says.
pub open spec fn result_view<T>(r: RoutingResult<T>) -> Result<T, RoutingTableErrorView> {
    match r {
        Ok(value) => Ok(value),
        Err(error) => Err(error@),
    }
}

impl RouteManagerView {
    /// The route to the server.
    pub open spec fn server_route_via(self, if_index: Option<u32>, gateway: Option<IpAddr>) ->
        RouteView {
        Route {
            if_index,
            gateway,
            ..plain_route(self.server_ip, address_bits(self.server_ip))
        }.preferred_on(self.platform)
    }

    /// The route to a local network. A gateway of another family is of no use
    /// to it.
    pub open spec fn lan_route_via(
        self,
        network: IpAddr,
        prefix: u8,
        if_index: u32,
        gateway: Option<IpAddr>,
    ) -> RouteView {
        Route {
            if_index: Some(if_index),
            gateway: match gateway {
                Some(gw) => if one_family(network, gw) {
                    Some(gw)
                } else {
                    None
                },
                None => None,
            },
            ..plain_route(network, prefix)
        }.preferred_on(self.platform)
    }

    /// A route into the tunnel.
    pub open spec fn tunnel_route(self, network: IpAddr, prefix: u8) -> RouteView {
        plain_route(network, prefix).via(self.tun_peer_ip).on(self.tun_index).preferred_on(
            self.platform,
        )
    }

    /// The routes to install besides those for IPv6, in order: to the server,
    /// to local networks where they stay reachable, and into the tunnel.
    pub open spec fn install_plan(self, if_index: u32, gateway: Option<IpAddr>) -> Seq<
        PlannedRoute<Seq<char>>,
    > {
        let server = seq![
            PlannedRoute {
                role: RouteRole::Server,
                route: self.server_route_via(Some(if_index), gateway),
            },
        ];
        let lan = if self.routing_mode is Lan {
            lan_networks().map_values(
                |network: (IpAddr, u8)|
                    PlannedRoute {
                        role: RouteRole::Lan,
                        route: self.lan_route_via(network.0, network.1, if_index, gateway),
                    },
            )
        } else {
            Seq::empty()
        };
        let tunnel = tunnel_networks().map_values(
            |network: (IpAddr, u8)|
                PlannedRoute {
                    role: RouteRole::Vpn,
                    route: self.tunnel_route(network.0, network.1),
                },
        );
        let dns = seq![
            PlannedRoute {
                role: RouteRole::Vpn,
                route: self.tunnel_route(self.tun_dns_ip, address_bits(self.tun_dns_ip)),
            },
        ];
        server + lan + tunnel + dns
    }

    /// The routes to install besides those for IPv6 once the route to the
    /// server was looked up, or why that cannot be done.
    pub open spec fn routes_to_install(self, found: Result<Option<RouteView>, OsError>) -> Result<
        Seq<PlannedRoute<Seq<char>>>,
        RoutingTableErrorView,
    > {
        if self.routing_mode is NoExec {
            Ok(Seq::empty())
        } else {
            match found {
                Err(e) => Err(RoutingTableError::DefaultInterfaceNotFound(e)),
                Ok(None) => Err(RoutingTableError::DefaultRouteNotFound),
                Ok(Some(route)) => match route.if_index {
                    Some(if_index) => Ok(self.install_plan(if_index, route.gateway)),
                    None => Err(RoutingTableError::InterfaceIndexNotFound),
                },
            }
        }
    }

    /// The sink routes to install, if any.
    pub open spec fn wanted_sinks(self, has_ipv6_stack: bool) -> Seq<RouteView> {
        if has_ipv6_stack && self.block_ipv6 && self.routing_mode !is NoExec {
            sink_routes(self.platform, self.tun_index)
        } else {
            Seq::empty()
        }
    }

    /// Whether a route to unique local addresses is wanted.
    pub open spec fn wants_ipv6_lan(self) -> bool {
        self.block_ipv6 && self.routing_mode is Lan
    }

    /// What has been installed once a route has been added, or could not be.
    pub open spec fn added(
        self,
        role: RouteRole,
        route: RouteView,
        outcome: Result<(), OsError>,
    ) -> (Self, Result<(), RoutingTableErrorView>) {
        let r = add_outcome(self.platform, route, outcome);
        if r is Err {
            (self, r)
        } else {
            match role {
                RouteRole::Server => (
                    RouteManagerView { server_route: Some(route), ..self },
                    r,
                ),
                RouteRole::Lan => (
                    RouteManagerView { lan_routes: self.lan_routes.push(route), ..self },
                    r,
                ),
                RouteRole::Vpn => (
                    RouteManagerView { vpn_routes: self.vpn_routes.push(route), ..self },
                    r,
                ),
            }
        }
    }

    /// The routes to delete in the end.
    pub open spec fn leftovers(self) -> Seq<RouteView> {
        self.vpn_routes + self.lan_routes + (match self.server_route {
            Some(route) => seq![route],
            None => Seq::empty(),
        })
    }

    /// What a look at the routes of the system comes to: `after` is what is
    /// installed then, and `r` what is to be done. There is something to do
    /// when the route to the server no longer follows the best default route.
    pub open spec fn server_route_checked(
        self,
        routes: Result<Seq<ListedRoute<Seq<char>>>, OsError>,
        after: Self,
        r: RoutingResult<Option<ServerRouteChange>>,
    ) -> bool {
        match routes {
            Err(e) => r matches Err(error) && error@ == RoutingTableError::<
                Seq<char>,
            >::DefaultInterfaceNotFound(e) && after == self,
            Ok(routes) => {
                let choice = self.choice(self.server_ip, routes);
                match r {
                    Err(error) => {
                        &&& error is DefaultRouteNotFound
                        &&& forall|i: int| !#[trigger] choice.is_default(i)
                        &&& after == self
                    },
                    Ok(None) => {
                        &&& exists|i: int| #[trigger]
                            choice.is_best(i) && !self.is_outdated(routes[i].route)
                        &&& after == self
                    },
                    Ok(Some(change)) => {
                        &&& exists|i: int|
                            {
                                let current = routes[i].route;
                                #[trigger] choice.is_best(i) && self.is_outdated(current)
                                    && change.new_route@ == self.server_route_via(
                                    current.if_index,
                                    current.gateway,
                                )
                            }
                        &&& self.server_route == Some(change.old_route@)
                        &&& after == (RouteManagerView { server_route: None, ..self })
                    },
                }
            },
        }
    }

    /// Whether the route to the server no longer follows a default route.
    pub open spec fn is_outdated(self, current: RouteView) -> bool {
        self.server_route matches Some(route) && (route.gateway != current.gateway
            || route.if_index != current.if_index)
    }
}

impl RouteManagerInner {
    /// Nothing installed yet.
    pub fn new(
        platform: Platform,
        routing_mode: RouteMode,
        block_ipv6: bool,
        server_ip: IpAddr,
        tun_index: u32,
        tun_peer_ip: IpAddr,
        tun_dns_ip: IpAddr,
    ) -> (inner: Self)
        ensures
            inner@ == (RouteManagerView {
                platform,
                routing_mode,
                block_ipv6,
                server_ip,
                tun_index,
                tun_peer_ip,
                tun_dns_ip,
                vpn_routes: Seq::empty(),
                lan_routes: Seq::empty(),
                server_route: None,
            }),
    {
        let inner = RouteManagerInner {
            platform,
            routing_mode,
            block_ipv6,
            server_ip,
            tun_index,
            tun_peer_ip,
            tun_dns_ip,
            vpn_routes: Vec::new(),
            lan_routes: Vec::new(),
            server_route: None,
        };
        assert(inner@.vpn_routes =~= Seq::empty());
        assert(inner@.lan_routes =~= Seq::empty());
        inner
    }

    /// Identifies route used to reach a particular ip: what the system's
    /// lookup came to.
    pub fn find_route(found: Result<Option<Route<String>>, OsError>) -> (r: RoutingResult<
        Route<String>,
    >)
        ensures
            match found {
                Err(e) => r matches Err(error) && error@ == RoutingTableError::<
                    Seq<char>,
                >::DefaultInterfaceNotFound(e),
                Ok(None) => r matches Err(error) && error is DefaultRouteNotFound,
                Ok(Some(route)) => r == Ok::<_, RoutingTableError<String>>(route),
            },
    {
        match found {
            Err(e) => Err(RoutingTableError::DefaultInterfaceNotFound(e)),
            Ok(None) => Err(RoutingTableError::DefaultRouteNotFound),
            Ok(Some(route)) => Ok(route),
        }
    }

    /// Identifies default interface by the route to be used to access the
    /// server. Returns the interface index and optional gateway. Gateway is
    /// None for direct routes (common in containers and direct network
    /// connections).
    pub fn find_default_interface_index_and_gateway(
        found: Result<Option<Route<String>>, OsError>,
    ) -> (r: RoutingResult<(u32, Option<IpAddr>)>)
        ensures
            match found {
                Err(e) => r matches Err(error) && error@ == RoutingTableError::<
                    Seq<char>,
                >::DefaultInterfaceNotFound(e),
                Ok(None) => r matches Err(error) && error is DefaultRouteNotFound,
                Ok(Some(route)) => match route.if_index {
                    Some(if_index) => r == Ok::<_, RoutingTableError<String>>(
                        (if_index, route.gateway),
                    ),
                    None => r matches Err(error) && error is InterfaceIndexNotFound,
                },
            },
    {
        let default_route = match Self::find_route(found) {
            Ok(route) => route,
            Err(error) => return Err(error),
        };
        match default_route.if_index {
            Some(if_index) => Ok((if_index, default_route.gateway)),
            None => Err(RoutingTableError::InterfaceIndexNotFound),
        }
    }

    /// Whether any routes are to be installed.
    pub fn installs_routes(&self) -> (installs: bool)
        ensures
            installs == (self.routing_mode !is NoExec),
    {
        !matches!(self.routing_mode, RouteMode::NoExec)
    }

    /// The route to the server.
    fn server_route_to(&self, if_index: Option<u32>, gateway: Option<IpAddr>) -> (route: Route<
        String,
    >)
        ensures
            route@ == self@.server_route_via(if_index, gateway),
    {
        let mut route = Route::new(self.server_ip, host_prefix_len(&self.server_ip));
        route.if_index = if_index;
        route.gateway = gateway;
        if matches!(self.platform, Platform::Windows) {
            route.metric = Some(0);
        }
        route
    }

    /// The route to a local network.
    fn lan_route_to(&self, network: IpAddr, prefix: u8, if_index: u32, gateway: Option<IpAddr>) -> (
    route: Route<String>)
        ensures
            route@ == self@.lan_route_via(network, prefix, if_index, gateway),
    {
        let mut route = Route::new(network, prefix);
        route.if_index = Some(if_index);
        // Only use gateway if it matches the route's address family
        match gateway {
            Some(gw) => if same_ip_family(&network, &gw) {
                route.gateway = Some(gw);
            },
            None => {},
        }
        if matches!(self.platform, Platform::Windows) {
            route.metric = Some(0);
        }
        route
    }

    /// A route into the tunnel.
    fn tunnel_route_to(&self, network: IpAddr, prefix: u8) -> (route: Route<String>)
        ensures
            route@ == self@.tunnel_route(network, prefix),
    {
        let mut route = Route::new(network, prefix);
        route.gateway = Some(self.tun_peer_ip);
        route.if_index = Some(self.tun_index);
        if matches!(self.platform, Platform::Windows) {
            route.metric = Some(0);
        }
        route
    }

    /// Add the routes to local networks to a plan.
    fn plan_lan_routes(
        &self,
        plan: &mut Vec<PlannedRoute<String>>,
        if_index: u32,
        gateway: Option<IpAddr>,
    )
        ensures
            planned_views(final(plan)@) == planned_views(old(plan)@) + lan_networks().map_values(
                |network: (IpAddr, u8)|
                    PlannedRoute {
                        role: RouteRole::Lan,
                        route: self@.lan_route_via(network.0, network.1, if_index, gateway),
                    },
            ),
    {
        let networks: [(IpAddr, u8); 5] = [
            (IpAddr::V4(0xc0a8_0000), 16u8),
            (IpAddr::V4(0xac10_0000), 12u8),
            (IpAddr::V4(0x0a00_0000), 8u8),
            (IpAddr::V4(0xa9fe_0000), 16u8),
            (IpAddr::V4(0xe000_0000), 24u8),
        ];
        let ghost lan = lan_networks().map_values(
            |network: (IpAddr, u8)|
                PlannedRoute {
                    role: RouteRole::Lan,
                    route: self@.lan_route_via(network.0, network.1, if_index, gateway),
                },
        );
        assert(networks@ =~= lan_networks());
        assert(planned_views(plan@) =~= planned_views(old(plan)@) + lan.take(0));
        let mut i: usize = 0;
        while i < 5
            invariant
                i <= 5,
                networks@ == lan_networks(),
                lan.len() == 5,
                lan == lan_networks().map_values(
                    |network: (IpAddr, u8)|
                        PlannedRoute {
                            role: RouteRole::Lan,
                            route: self@.lan_route_via(network.0, network.1, if_index, gateway),
                        },
                ),
                planned_views(plan@) == planned_views(old(plan)@) + lan.take(i as int),
            decreases 5 - i,
        {
            let (network, prefix) = networks[i];
            assert((network, prefix) == lan_networks()[i as int]);
            let route = self.lan_route_to(network, prefix, if_index, gateway);
            let ghost before = plan@;
            let planned = PlannedRoute { role: RouteRole::Lan, route };
            plan.push(planned);
            proof {
                assert(planned_views(plan@) =~= planned_views(before).push(planned@));
                assert(lan.take(i + 1) =~= lan.take(i as int).push(lan[i as int]));
                assert(planned@ == lan[i as int]);
                assert(planned_views(old(plan)@) + lan.take(i + 1) =~= (planned_views(old(plan)@)
                    + lan.take(i as int)).push(lan[i as int]));
            }
            i = i + 1;
        }
        assert(lan.take(5) =~= lan);
    }

    /// The routes to install besides those for IPv6, in order, once the route
    /// to the server was looked up. Nothing with [`RouteMode::NoExec`].
    ///
    /// Each is added with [`RouteManagerInner::check_role`] before and
    /// [`RouteManagerInner::route_added`] after it; the first error ends it.
    pub fn install_routes(&self, found: Result<Option<Route<String>>, OsError>) -> (r: RoutingResult<
        Vec<PlannedRoute<String>>,
    >)
        ensures
            match self@.routes_to_install(found_view(found)) {
                Ok(routes) => r matches Ok(plan) && planned_views(plan@) == routes,
                Err(owed) => r matches Err(error) && error@ == owed,
            },
    {
        let mut plan: Vec<PlannedRoute<String>> = Vec::new();
        assert(planned_views(plan@) =~= Seq::empty());
        if matches!(self.routing_mode, RouteMode::NoExec) {
            return Ok(plan);
        }
        // Setting up VPN Server Routes

        let (if_index, gateway) = match Self::find_default_interface_index_and_gateway(found) {
            Ok(interface) => interface,
            Err(error) => return Err(error),
        };
        // Server route with optional gateway - handles both direct routes (containers)
        // and routed networks (host systems with gateways)
        plan.push(
            PlannedRoute {
                role: RouteRole::Server,
                route: self.server_route_to(Some(if_index), gateway),
            },
        );
        let ghost after_server = planned_views(plan@);
        assert(after_server =~= seq![
            PlannedRoute {
                role: RouteRole::Server,
                route: self@.server_route_via(Some(if_index), gateway),
            },
        ]);
        if matches!(self.routing_mode, RouteMode::Lan) {
            self.plan_lan_routes(&mut plan, if_index, gateway);
        }
        // Standard tunnel routes (high priority default routing)
        plan.push(
            PlannedRoute {
                role: RouteRole::Vpn,
                route: self.tunnel_route_to(IpAddr::V4(0), 1),
            },
        );
        plan.push(
            PlannedRoute {
                role: RouteRole::Vpn,
                route: self.tunnel_route_to(IpAddr::V4(IPV4_UPPER_HALF), 1),
            },
        );
        // DNS route separately since it's not a constant
        plan.push(
            PlannedRoute {
                role: RouteRole::Vpn,
                route: self.tunnel_route_to(self.tun_dns_ip, host_prefix_len(&self.tun_dns_ip)),
            },
        );
        assert(planned_views(plan@) =~= self@.install_plan(if_index, gateway));
        Ok(plan)
    }

    /// The sink routes to install after all others: none unless IPv6 traffic
    /// is discarded, nor on a host with no IPv6 stack, which has nothing to
    /// discard.
    pub fn install_ipv6_sink(&self, has_ipv6_stack: bool) -> (routes: Vec<Route<String>>)
        ensures
            route_views(routes@) == self@.wanted_sinks(has_ipv6_stack),
    {
        if has_ipv6_stack && self.block_ipv6 && !matches!(self.routing_mode, RouteMode::NoExec) {
            ipv6_sink_routes(self.platform, self.tun_index)
        } else {
            let routes: Vec<Route<String>> = Vec::new();
            assert(route_views(routes@) =~= Seq::empty());
            routes
        }
    }

    /// Whether a route to unique local addresses is wanted before the sink
    /// routes.
    pub fn keeps_ipv6_lan(&self) -> (keeps: bool)
        ensures
            keeps == self@.wants_ipv6_lan(),
    {
        self.block_ipv6 && matches!(self.routing_mode, RouteMode::Lan)
    }

    /// The route that keeps fc00::/7 on the interface (and gateway) of the
    /// current IPv6 default route. Best effort: without an IPv6 default route
    /// there is no IPv6 LAN to keep, and a failure here must not stop the
    /// connection.
    pub fn install_ipv6_lan_route(&self, routes: Result<Vec<ListedRoute<String>>, OsError>) -> (r:
        Option<Route<String>>)
        ensures
            match routes {
                Err(_) => r is None,
                Ok(routes) => {
                    let network = IpAddr::V6(IPV6_UNIQUE_LOCAL);
                    let choice = self@.choice(network, listed_views(routes@));
                    match r {
                        Some(lan_route) => exists|i: int|
                            {
                                let best = choice.routes[i].route;
                                #[trigger] choice.is_best(i) && best.if_index is Some && lan_route@
                                    == self@.lan_route_via(
                                    network,
                                    IPV6_UNIQUE_LOCAL_PREFIX,
                                    best.if_index->0,
                                    best.gateway,
                                )
                            },
                        None => forall|i: int| #[trigger]
                            choice.is_best(i) ==> choice.routes[i].route.if_index is None,
                    }
                },
            },
    {
        let network = IpAddr::V6(IPV6_UNIQUE_LOCAL);
        let ghost choice = self@.choice(network, listed_views(routes->Ok_0@));
        let default_route = match self.find_best_default_route(&network, routes) {
            Ok(route) => route,
            Err(_) => return None,
        };
        proof {
            best_routes_are_alike(choice);
        }
        match default_route.if_index {
            None => None,
            Some(if_index) => Some(
                self.lan_route_to(
                    network,
                    IPV6_UNIQUE_LOCAL_PREFIX,
                    if_index,
                    default_route.gateway,
                ),
            ),
        }
    }

    /// Whether a route of this role may be added: there is only one route to
    /// the server.
    pub fn check_role(&self, role: RouteRole) -> (r: RoutingResult<()>)
        ensures
            if role is Server && self.server_route is Some {
                r matches Err(error) && error is ServerRouteAlreadyExists
            } else {
                r is Ok
            },
    {
        match role {
            RouteRole::Server => if self.server_route.is_some() {
                return Err(RoutingTableError::ServerRouteAlreadyExists);
            },
            _ => {},
        }
        Ok(())
    }

    /// What adding a route came to.
    fn add_route(&self, route: &Route<String>, outcome: Result<(), OsError>) -> (r: RoutingResult<
        (),
    >)
        ensures
            result_view(r) == add_outcome(self.platform, route@, outcome),
    {
        match outcome {
            Ok(_) => Ok(()),
            Err(e) => if is_route_exists_error(self.platform, &e) {
                // Ignore error if route already exists and
                // keep the existing route
                Ok(())
            } else if e.permission_denied {
                Err(RoutingTableError::InsufficientPermissions)
            } else {
                Err(RoutingTableError::AddRouteError(route.duplicate(), e))
            },
        }
    }

    /// A route has been added, or could not be: stores it in the first case.
    pub fn route_added(
        &mut self,
        role: RouteRole,
        route: Route<String>,
        outcome: Result<(), OsError>,
    ) -> (r: RoutingResult<()>)
        ensures
            (final(self)@, result_view(r)) == old(self)@.added(role, route@, outcome),
    {
        match self.add_route(&route, outcome) {
            Ok(_) => {},
            Err(error) => return Err(error),
        }
        let ghost added = route@;
        match role {
            RouteRole::Server => {
                self.server_route = Some(route);
            },
            RouteRole::Lan => {
                self.lan_routes.push(route);
                assert(self@.lan_routes =~= old(self)@.lan_routes.push(added));
            },
            RouteRole::Vpn => {
                self.vpn_routes.push(route);
                assert(self@.vpn_routes =~= old(self)@.vpn_routes.push(added));
            },
        }
        Ok(())
    }

    /// The routes to delete when the client is done, in order. That one cannot
    /// be deleted does not keep the others from it.
    pub fn cleanup_sync(&self) -> (routes: Vec<Route<String>>)
        ensures
            route_views(routes@) == self@.leftovers(),
    {
        let mut routes: Vec<Route<String>> = Vec::new();
        let mut i: usize = 0;
        assert(route_views(routes@) =~= self@.vpn_routes.take(0));
        while i < self.vpn_routes.len()
            invariant
                i <= self.vpn_routes.len(),
                route_views(routes@) == self@.vpn_routes.take(i as int),
            decreases self.vpn_routes.len() - i,
        {
            let route = self.vpn_routes[i].duplicate();
            let ghost before = routes@;
            routes.push(route);
            assert(route_views(routes@) =~= route_views(before).push(route@));
            assert(self@.vpn_routes.take(i + 1) =~= self@.vpn_routes.take(i as int).push(
                self@.vpn_routes[i as int],
            ));
            i = i + 1;
        }
        assert(self@.vpn_routes.take(i as int) =~= self@.vpn_routes);
        let mut j: usize = 0;
        assert(route_views(routes@) =~= self@.vpn_routes + self@.lan_routes.take(0));
        while j < self.lan_routes.len()
            invariant
                j <= self.lan_routes.len(),
                route_views(routes@) == self@.vpn_routes + self@.lan_routes.take(j as int),
            decreases self.lan_routes.len() - j,
        {
            let route = self.lan_routes[j].duplicate();
            let ghost before = routes@;
            routes.push(route);
            assert(route_views(routes@) =~= route_views(before).push(route@));
            assert(self@.lan_routes.take(j + 1) =~= self@.lan_routes.take(j as int).push(
                self@.lan_routes[j as int],
            ));
            assert(self@.vpn_routes + self@.lan_routes.take(j + 1) =~= (self@.vpn_routes
                + self@.lan_routes.take(j as int)).push(self@.lan_routes[j as int]));
            j = j + 1;
        }
        assert(self@.lan_routes.take(j as int) =~= self@.lan_routes);
        match &self.server_route {
            Some(server_route) => {
                let route = server_route.duplicate();
                routes.push(route);
            },
            None => {},
        }
        assert(route_views(routes@) =~= self@.leftovers());
        routes
    }

    /// Check if server route needs updating due to network changes: it follows
    /// the gateway and the interface of the best default route. Returns the
    /// change to make, if any; the old route is then no longer recorded.
    pub fn check_and_update_server_route(
        &mut self,
        routes: Result<Vec<ListedRoute<String>>, OsError>,
    ) -> (r: RoutingResult<Option<ServerRouteChange>>)
        ensures
            old(self)@.server_route_checked(
                match routes {
                    Ok(routes) => Ok(listed_views(routes@)),
                    Err(e) => Err(e),
                },
                final(self)@,
                r,
            ),
    {
        let server_ip = self.server_ip;
        let current = match self.find_best_default_route(&server_ip, routes) {
            Ok(route) => route,
            Err(error) => return Err(error),
        };
        let outdated = match &self.server_route {
            Some(route) => route.gateway != current.gateway || route.if_index != current.if_index,
            None => false,
        };
        if !outdated {
            return Ok(None);
        }
        // New route with current gateway and interface

        let new_route = self.server_route_to(current.if_index, current.gateway);
        match self.server_route.take() {
            Some(old_route) => Ok(Some(ServerRouteChange { old_route, new_route })),
            None => Ok(None),
        }
    }
}

/// All best routes are one and the same.
proof fn best_routes_are_alike(choice: RouteChoice)
    ensures
        forall|i: int, j: int| #[trigger]
            choice.is_best(i) && #[trigger] choice.is_best(j) ==> choice.routes[i].route
                == choice.routes[j].route,
{
    assert forall|i: int, j: int| #[trigger]
        choice.is_best(i) && #[trigger] choice.is_best(j) implies choice.routes[i].route
        == choice.routes[j].route by {
        if choice.platform is MacOs {
            assert(i == j);
        } else if exists|k: int| #[trigger] choice.is_in_use(k) {
            assert(choice.is_in_use(i) && choice.is_in_use(j));
        } else {
            assert(choice.is_cheapest(i) && choice.is_cheapest(j));
            assert(i == j);
        }
    }
}

/// The routes of a client, before and after they are installed.
#[derive(Debug)]
pub struct RouteManager {
    /// What is to be installed, until that has begun
    pub inner: Option<RouteManagerInner>,
}

/// Owns the routes installed after [`RouteManager::start`]; when it is done
/// with, the host deletes them (see [`RouteManagerInner::cleanup_sync`]).
/// Exposes the per-network-event maintenance step.
#[derive(Debug)]
pub struct RouteUpdater {
    /// What is installed
    pub inner: RouteManagerInner,
}

impl RouteManager {
    /// Routes that are still to be installed. The two results tell whether
    /// the routing table can be accessed, synchronously and asynchronously.
    pub fn new(
        platform: Platform,
        routing_mode: RouteMode,
        block_ipv6: bool,
        server_ip: IpAddr,
        tun_index: u32,
        tun_peer_ip: IpAddr,
        tun_dns_ip: IpAddr,
        access: Result<(), OsError>,
        async_access: Result<(), OsError>,
    ) -> (r: RoutingResult<RouteManager>)
        ensures
            match (access, async_access) {
                (Err(e), _) => r matches Err(error) && error@ == RoutingTableError::<
                    Seq<char>,
                >::RoutingManagerError(e),
                (Ok(_), Err(e)) => r matches Err(error) && error@ == RoutingTableError::<
                    Seq<char>,
                >::AsyncRoutingManagerError(e),
                (Ok(_), Ok(_)) => r matches Ok(manager) && manager.inner matches Some(inner)
                    && inner@ == (RouteManagerView {
                    platform,
                    routing_mode,
                    block_ipv6,
                    server_ip,
                    tun_index,
                    tun_peer_ip,
                    tun_dns_ip,
                    vpn_routes: Seq::empty(),
                    lan_routes: Seq::empty(),
                    server_route: None,
                }),
            },
    {
        match access {
            Ok(_) => {},
            Err(e) => return Err(RoutingTableError::RoutingManagerError(e)),
        }
        match async_access {
            Ok(_) => {},
            Err(e) => return Err(RoutingTableError::AsyncRoutingManagerError(e)),
        }
        let inner = RouteManagerInner::new(
            platform,
            routing_mode,
            block_ipv6,
            server_ip,
            tun_index,
            tun_peer_ip,
            tun_dns_ip,
        );
        Ok(RouteManager { inner: Some(inner) })
    }

    /// Hand out what is to be installed, as the per-event updater. This can be
    /// done only once.
    pub fn start(&mut self) -> (r: RoutingResult<RouteUpdater>)
        ensures
            final(self).inner is None,
            match old(self).inner {
                Some(inner) => r matches Ok(updater) && updater.inner == inner,
                None => r matches Err(error) && error is InsufficientPermissions,
            },
    {
        match self.inner.take() {
            Some(inner) => Ok(RouteUpdater { inner }),
            None => Err(RoutingTableError::InsufficientPermissions),
        }
    }
}

impl RouteUpdater {
    /// Refresh the server route if the default route changed (a no-op with
    /// [`RouteMode::NoExec`]). Returns the change to make, if any; see
    /// [`RouteManagerInner::check_and_update_server_route`].
    pub fn check_and_update_server_route(
        &mut self,
        routes: Result<Vec<ListedRoute<String>>, OsError>,
    ) -> (r: RoutingResult<Option<ServerRouteChange>>)
        ensures
            if old(self).inner.routing_mode is NoExec {
                r is Ok && r->Ok_0 is None && final(self).inner@ == old(self).inner@
            } else {
                old(self).inner@.server_route_checked(
                    match routes {
                        Ok(routes) => Ok(listed_views(routes@)),
                        Err(e) => Err(e),
                    },
                    final(self).inner@,
                    r,
                )
            },
    {
        if matches!(self.inner.routing_mode, RouteMode::NoExec) {
            return Ok(None);
        }
        self.inner.check_and_update_server_route(routes)
    }
}

/// The product of two powers of two.
proof fn two_to_adds(a: int, b: int)
    requires
        a >= 0,
        b >= 0,
    ensures
        two_to(a + b) == two_to(a) * two_to(b),
    decreases a,
{
    if a > 0 {
        two_to_adds(a - 1, b);
        assert(two_to(a + b) == 2 * two_to(a + b - 1));
        assert(2 * (two_to(a - 1) * two_to(b)) == (2 * two_to(a - 1)) * two_to(b))
            by (nonlinear_arith);
    } else {
        assert(1 * two_to(b) == two_to(b));
    }
}

/// The product of two powers of two whose values are known.
proof fn product_of_powers(a: int, b: int, x: int, y: int)
    requires
        a >= 0,
        b >= 0,
        two_to(a) == x,
        two_to(b) == y,
    ensures
        two_to(a + b) == x * y,
{
    two_to_adds(a, b);
}

/// The powers of two that the sizes of networks are put together from.
proof fn word_powers()
    ensures
        two_to(1) == 2,
        two_to(7) == 0x80,
        two_to(8) == 0x100,
        two_to(16) == 0x1_0000,
        two_to(32) == 0x1_0000_0000,
        two_to(64) == 0x1_0000_0000_0000_0000,
{
    assert(two_to(1) == 2 && two_to(7) == 0x80 && two_to(8) == 0x100) by {
        reveal_with_fuel(two_to, 9);
    }
    product_of_powers(8, 8, 0x100, 0x100);
    product_of_powers(16, 16, 0x1_0000, 0x1_0000);
    product_of_powers(32, 32, 0x1_0000_0000, 0x1_0000_0000);
}

/// The sizes of the halves of both address families.
proof fn halves()
    ensures
        two_to(31) == 0x8000_0000,
        two_to(127) == 0x8000_0000_0000_0000_0000_0000_0000_0000,
{
    word_powers();
    product_of_powers(16, 7, 0x1_0000, 0x80);
    product_of_powers(8, 23, 0x100, 0x80_0000);
    product_of_powers(32, 31, 0x1_0000_0000, 0x8000_0000);
    product_of_powers(64, 63, 0x1_0000_0000_0000_0000, 0x8000_0000_0000_0000);
}

/// Every IPv6 address falls into exactly one of the two sink routes, on every
/// system.
pub proof fn sinks_cover_ipv6_once(platform: Platform, tun_index: u32, ip: u128)
    ensures
        sink_routes(platform, tun_index).len() == 2,
        sink_routes(platform, tun_index)[0].leads_to(IpAddr::V6(ip)) != sink_routes(
            platform,
            tun_index,
        )[1].leads_to(IpAddr::V6(ip)),
{
    halves();
    let half = 0x8000_0000_0000_0000_0000_0000_0000_0000int;
    assert(IPV6_BITS - 1u8 == 127);
    assert(0int / half == 0);
    assert(half / half == 1);
    assert(ip as int / half == (if ip < half {
        0int
    } else {
        1int
    }));
}

/// No IPv4 address falls into a sink route.
pub proof fn sinks_ignore_ipv4(platform: Platform, tun_index: u32, ip: u32, i: int)
    requires
        0 <= i < sink_routes(platform, tun_index).len(),
    ensures
        !sink_routes(platform, tun_index)[i].leads_to(IpAddr::V4(ip)),
{
}

/// Every IPv4 address falls into exactly one of the two tunnel routes, so they
/// win over any default route.
pub proof fn tunnel_covers_ipv4_once(manager: RouteManagerView, ip: u32)
    ensures
        ({
            let lower = manager.tunnel_route(tunnel_networks()[0].0, tunnel_networks()[0].1);
            let upper = manager.tunnel_route(tunnel_networks()[1].0, tunnel_networks()[1].1);
            &&& tunnel_networks().len() == 2
            &&& lower.leads_to(IpAddr::V4(ip)) != upper.leads_to(IpAddr::V4(ip))
            &&& lower.prefix > 0 && upper.prefix > 0
        }),
{
    halves();
    let half = 0x8000_0000int;
    assert(0int / half == 0);
    assert(half / half == 1);
    assert(ip as int / half == (if ip < half {
        0int
    } else {
        1int
    }));
}

/// What is sent to the server itself does not enter the tunnel and is not
/// discarded: the route to the server leads to it, and every other route of
/// the client that leads there too is less specific. The one exception would
/// be a resolver inside the tunnel that has the address of the server.
pub proof fn server_route_wins(
    manager: RouteManagerView,
    if_index: u32,
    gateway: Option<IpAddr>,
    i: int,
)
    requires
        manager.tun_dns_ip != manager.server_ip,
        0 <= i < manager.install_plan(if_index, gateway).len(),
    ensures
        ({
            let plan = manager.install_plan(if_index, gateway);
            let server = plan[0].route;
            &&& plan[0].role is Server && server.leads_to(manager.server_ip)
            &&& i > 0 && plan[i].route.leads_to(manager.server_ip) ==> plan[i].route.prefix
                < server.prefix
        }),
{
    let plan = manager.install_plan(if_index, gateway);
    let ip = manager.server_ip;
    assert(plan[0].route.destination == ip);
    if i > 0 {
        let route = plan[i].route;
        if route.prefix >= address_bits(ip) && one_family(route.destination, ip) {
            assert(route.prefix == address_bits(route.destination) || route.prefix <= 24);
            assert(route.destination == manager.tun_dns_ip);
            assert(two_to(0) == 1);
            assert(address_value(route.destination) / 1 == address_value(route.destination));
            assert(address_value(ip) / 1 == address_value(ip));
        }
    }
}

/// The sink routes are less specific than the route to any server.
pub proof fn sinks_yield_to_the_server(
    manager: RouteManagerView,
    if_index: u32,
    gateway: Option<IpAddr>,
    i: int,
)
    requires
        0 <= i < sink_routes(manager.platform, manager.tun_index).len(),
    ensures
        sink_routes(manager.platform, manager.tun_index)[i].prefix < manager.server_route_via(
            Some(if_index),
            gateway,
        ).prefix,
{
}

/// What has a route of its own that is more specific than half of all
/// addresses keeps it, and is not discarded: so do link-local (fe80::/10) and
/// multicast (ff00::/8) traffic, with their on-link routes.
pub proof fn sinks_yield_to_on_link_routes(
    platform: Platform,
    tun_index: u32,
    on_link: RouteView,
    i: int,
)
    requires
        on_link.prefix > 1,
        0 <= i < sink_routes(platform, tun_index).len(),
    ensures
        sink_routes(platform, tun_index)[i].prefix < on_link.prefix,
{
}

/// The size of the network of unique local addresses.
proof fn unique_local_size()
    ensures
        two_to(121) == 0x200_0000_0000_0000_0000_0000_0000_0000,
{
    word_powers();
    product_of_powers(1, 8, 2, 0x100);
    product_of_powers(16, 9, 0x1_0000, 0x200);
    product_of_powers(32, 25, 0x1_0000_0000, 0x200_0000);
    product_of_powers(64, 57, 0x1_0000_0000_0000_0000, 0x200_0000_0000_0000);
}

/// Where local networks stay reachable, unique local addresses follow the
/// default route they are given and not the sink: the route kept for them
/// leads to exactly those that begin with `fc` or `fd`, and is more specific
/// than the sink routes.
pub proof fn unique_local_addresses_stay_local(
    manager: RouteManagerView,
    if_index: u32,
    gateway: Option<IpAddr>,
    ip: u128,
    i: int,
)
    requires
        0 <= i < sink_routes(manager.platform, manager.tun_index).len(),
    ensures
        ({
            let lan = manager.lan_route_via(
                IpAddr::V6(IPV6_UNIQUE_LOCAL),
                IPV6_UNIQUE_LOCAL_PREFIX,
                if_index,
                gateway,
            );
            &&& lan.leads_to(IpAddr::V6(ip)) == (0xfc00_0000_0000_0000_0000_0000_0000_0000 <= ip
                < 0xfe00_0000_0000_0000_0000_0000_0000_0000)
            &&& lan.prefix > sink_routes(manager.platform, manager.tun_index)[i].prefix
        }),
{
    unique_local_size();
    let size = 0x200_0000_0000_0000_0000_0000_0000_0000int;
    assert(IPV6_BITS - IPV6_UNIQUE_LOCAL_PREFIX == 121);
    assert(IPV6_UNIQUE_LOCAL as int / size == 0x7e);
}

/// Where local networks stay reachable, what is sent to them does not enter
/// the tunnel: each of their routes is more specific than both tunnel routes.
pub proof fn local_networks_win_over_the_tunnel(
    manager: RouteManagerView,
    if_index: u32,
    gateway: Option<IpAddr>,
    i: int,
    j: int,
)
    requires
        0 <= i < lan_networks().len(),
        0 <= j < tunnel_networks().len(),
    ensures
        ({
            let (network, prefix) = lan_networks()[i];
            let (half, half_prefix) = tunnel_networks()[j];
            manager.lan_route_via(network, prefix, if_index, gateway).prefix
                > manager.tunnel_route(half, half_prefix).prefix
        }),
{
}

/// Nothing is left behind: every route that was added, or that existed
/// already, is deleted in the end, and so is everything added before it.
pub proof fn added_routes_are_deleted(
    manager: RouteManagerView,
    role: RouteRole,
    route: RouteView,
    outcome: Result<(), OsError>,
)
    requires
        manager.added(role, route, outcome).1 is Ok,
        role is Server ==> manager.server_route is None,
    ensures
        ({
            let after = manager.added(role, route, outcome).0;
            &&& after.leftovers().contains(route)
            &&& after.leftovers().len() == manager.leftovers().len() + 1
            &&& forall|earlier: RouteView| #[trigger]
                manager.leftovers().contains(earlier) ==> after.leftovers().contains(earlier)
        }),
{
    let before = manager.leftovers();
    let after = manager.added(role, route, outcome).0.leftovers();
    let vpn = manager.vpn_routes.len() as int;
    let lan = manager.lan_routes.len() as int;
    let at = if role is Vpn {
        vpn
    } else {
        vpn + lan
    };
    assert(after[at] == route);
    assert forall|earlier: RouteView| #[trigger] before.contains(earlier) implies after.contains(
        earlier,
    ) by {
        let k = choose|k: int| 0 <= k < before.len() && before[k] == earlier;
        assert(after[if k < at {
            k
        } else {
            k + 1
        }] == earlier);
    }
}

impl RouteManagerView {
    /// What has been installed once all routes of a plan have been added.
    pub open spec fn all_added(self, plan: Seq<PlannedRoute<Seq<char>>>) -> Self
        decreases plan.len(),
    {
        if plan.len() == 0 {
            self
        } else {
            self.all_added(plan.drop_last()).added(
                plan.last().role,
                plan.last().route,
                Ok(()),
            ).0
        }
    }
}

/// What a plan with at most one route to the server leaves to delete.
proof fn planned_routes_are_left(manager: RouteManagerView, plan: Seq<PlannedRoute<Seq<char>>>)
    requires
        manager.server_route is None,
        forall|i: int| 0 < i < plan.len() ==> (#[trigger] plan[i]).role !is Server,
    ensures
        manager.all_added(plan).leftovers().len() == manager.leftovers().len() + plan.len(),
        manager.all_added(plan).server_route is Some ==> plan.len() > 0,
        forall|i: int|
            0 <= i < plan.len() ==> manager.all_added(plan).leftovers().contains(
                (#[trigger] plan[i]).route,
            ),
    decreases plan.len(),
{
    if plan.len() > 0 {
        let earlier = plan.drop_last();
        let last = plan.last();
        assert(last == plan[plan.len() - 1]);
        assert forall|i: int| 0 < i < earlier.len() implies (#[trigger] earlier[i]).role
            !is Server by {
            assert(earlier[i] == plan[i]);
        }
        planned_routes_are_left(manager, earlier);
        let before = manager.all_added(earlier);
        let after = manager.all_added(plan);
        assert(last.role is Server ==> before.server_route is None);
        added_routes_are_deleted(before, last.role, last.route, Ok(()));
        assert forall|i: int| 0 <= i < plan.len() implies after.leftovers().contains(
            (#[trigger] plan[i]).route,
        ) by {
            if i < earlier.len() {
                assert(earlier[i] == plan[i]);
                assert(before.leftovers().contains(earlier[i].route));
            }
        }
    }
}

/// The routes to install for IPv6, after all others: the one that keeps unique
/// local addresses on their network, if there is one, and the sink routes, if
/// there are any.
pub open spec fn ipv6_plan(lan_route: Option<RouteView>, sinks: Seq<RouteView>) -> Seq<
    PlannedRoute<Seq<char>>,
> {
    let lan = match lan_route {
        Some(route) => seq![PlannedRoute { role: RouteRole::Lan, route }],
        None => Seq::empty(),
    };
    lan + sinks.map_values(|route: RouteView| PlannedRoute { role: RouteRole::Vpn, route })
}

/// A client that has installed everything deletes everything in the end: as
/// many routes as it has installed, and each of them, those for IPv6 among
/// them, with or without a route for unique local addresses and with whatever
/// sink routes there are.
pub proof fn installations_are_undone(
    manager: RouteManagerView,
    if_index: u32,
    gateway: Option<IpAddr>,
    lan_route: Option<RouteView>,
    sinks: Seq<RouteView>,
)
    requires
        manager.leftovers().len() == 0,
    ensures
        ({
            let plan = manager.install_plan(if_index, gateway) + ipv6_plan(lan_route, sinks);
            let left = manager.all_added(plan).leftovers();
            &&& left.len() == plan.len()
            &&& forall|i: int| 0 <= i < plan.len() ==> left.contains((#[trigger] plan[i]).route)
            &&& lan_route is Some ==> left.contains(lan_route->0)
            &&& forall|i: int| 0 <= i < sinks.len() ==> left.contains(#[trigger] sinks[i])
        }),
{
    let base = manager.install_plan(if_index, gateway);
    let ipv6 = ipv6_plan(lan_route, sinks);
    let plan = base + ipv6;
    assert(manager.server_route is None);
    assert forall|i: int| 0 < i < plan.len() implies (#[trigger] plan[i]).role !is Server by {
        if i >= base.len() {
            assert(plan[i] == ipv6[i - base.len()]);
        }
    }
    planned_routes_are_left(manager, plan);
    let left = manager.all_added(plan).leftovers();
    let lan: int = if lan_route is Some {
        1
    } else {
        0
    };
    if lan_route is Some {
        assert(plan[base.len() as int].route == lan_route->0);
    }
    assert forall|i: int| 0 <= i < sinks.len() implies left.contains(#[trigger] sinks[i]) by {
        assert(plan[base.len() + lan + i].route == sinks[i]);
    }
}

/// Apart from the route to the server, and from the sink routes, a client
/// installs IPv4 routes alone, as long as the resolver has an IPv4 address.
pub proof fn ipv6_is_left_alone(
    manager: RouteManagerView,
    if_index: u32,
    gateway: Option<IpAddr>,
    i: int,
)
    requires
        manager.tun_dns_ip is V4,
        0 < i < manager.install_plan(if_index, gateway).len(),
    ensures
        manager.install_plan(if_index, gateway)[i].route.destination is V4,
{
}

/// Once the route to the server has been replaced, a second look at the same
/// routing table leaves it alone.
pub proof fn second_look_changes_nothing(
    manager: RouteManagerView,
    routes: Seq<ListedRoute<Seq<char>>>,
    i: int,
    j: int,
)
    requires
        manager.choice(manager.server_ip, routes).is_best(i),
        manager.server_route matches Some(route) && route.prefix != 0,
        ({
            let current = routes[i].route;
            let replaced = RouteManagerView {
                server_route: Some(manager.server_route_via(current.if_index, current.gateway)),
                ..manager
            };
            replaced.choice(manager.server_ip, routes).is_best(j)
        }),
    ensures
        ({
            let current = routes[i].route;
            let replaced = RouteManagerView {
                server_route: Some(manager.server_route_via(current.if_index, current.gateway)),
                ..manager
            };
            !replaced.is_outdated(routes[j].route)
        }),
{
    let current = routes[i].route;
    let replaced = RouteManagerView {
        server_route: Some(manager.server_route_via(current.if_index, current.gateway)),
        ..manager
    };
    let before = manager.choice(manager.server_ip, routes);
    let after = replaced.choice(manager.server_ip, routes);
    assert forall|k: int| #[trigger] before.is_default(k) == after.is_default(k) by {}
    assert forall|k: int| #[trigger] before.is_cheapest(k) == after.is_cheapest(k) by {
        if before.is_cheapest(k) {
            assert forall|l: int| #[trigger] after.is_default(l) implies after.cost(k)
                <= after.cost(l) by {
                assert(before.is_default(l));
            }
        }
        if after.is_cheapest(k) {
            assert forall|l: int| #[trigger] before.is_default(l) implies before.cost(k)
                <= before.cost(l) by {
                assert(after.is_default(l));
            }
        }
    }
    assert forall|k: int| !#[trigger] before.is_in_use(k) && !after.is_in_use(k) by {
        if before.is_in_use(k) {
            assert(before.is_default(k));
        }
        if after.is_in_use(k) {
            assert(after.is_default(k));
        }
    }
    assert(i == j) by {
        if manager.platform is MacOs {
            assert(before.is_default(i) && after.is_default(j));
            assert(after.is_default(i) && before.is_default(j));
        } else {
            assert(before.is_cheapest(i) && after.is_cheapest(j));
            assert(after.is_cheapest(i) && before.is_cheapest(j));
        }
    }
}

/// The best default route is one, of the family of the address, and no other
/// of them costs less. Of several that cost the same, the one in use stays,
/// else the first is taken. On macOS, which has no costs, the first is taken.
pub proof fn best_routes_cost_least(choice: RouteChoice, i: int)
    requires
        choice.is_best(i),
    ensures
        0 <= i < choice.routes.len(),
        choice.routes[i].route.prefix == 0,
        (choice.routes[i].route.destination is V4) == (choice.server_ip is V4),
        forall|j: int|
            0 <= j < choice.routes.len() && (#[trigger] choice.routes[j]).route.prefix == 0 && (
            choice.routes[j].route.destination is V4) == (choice.server_ip is V4) ==> {
                &&& choice.platform is MacOs ==> i <= j
                &&& choice.platform !is MacOs ==> route_cost(choice.platform, choice.routes[i])
                    <= route_cost(choice.platform, choice.routes[j])
                &&& choice.platform !is MacOs && j < i && choice.server_route != Some(
                    choice.routes[i].route,
                ) ==> route_cost(choice.platform, choice.routes[i]) < route_cost(
                    choice.platform,
                    choice.routes[j],
                )
                &&& choice.platform !is MacOs && choice.server_route == Some(
                    choice.routes[j].route,
                ) && route_cost(choice.platform, choice.routes[i]) == route_cost(
                    choice.platform,
                    choice.routes[j],
                ) ==> choice.server_route == Some(choice.routes[i].route)
            },
{
    if choice.platform !is MacOs {
        assert(choice.is_cheapest(i)) by {
            if exists|k: int| #[trigger] choice.is_in_use(k) {
                assert(choice.is_in_use(i));
            }
        }
    }
    assert(choice.is_default(i));
    assert forall|j: int|
        0 <= j < choice.routes.len() && (#[trigger] choice.routes[j]).route.prefix == 0 && (
        choice.routes[j].route.destination is V4) == (choice.server_ip is V4) implies {
        &&& choice.platform is MacOs ==> i <= j
        &&& choice.platform !is MacOs ==> route_cost(choice.platform, choice.routes[i])
            <= route_cost(choice.platform, choice.routes[j])
        &&& choice.platform !is MacOs && j < i && choice.server_route != Some(
            choice.routes[i].route,
        ) ==> route_cost(choice.platform, choice.routes[i]) < route_cost(
            choice.platform,
            choice.routes[j],
        )
        &&& choice.platform !is MacOs && choice.server_route == Some(
            choice.routes[j].route,
        ) && route_cost(choice.platform, choice.routes[i]) == route_cost(
            choice.platform,
            choice.routes[j],
        ) ==> choice.server_route == Some(choice.routes[i].route)
    } by {
        assert(choice.is_default(j));
        if choice.platform !is MacOs && choice.server_route == Some(choice.routes[j].route)
            && choice.cost(i) == choice.cost(j) {
            assert(choice.is_cheapest(j)) by {
                assert forall|k: int| #[trigger] choice.is_default(k) implies choice.cost(j)
                    <= choice.cost(k) by {
                    assert(choice.cost(i) <= choice.cost(k));
                }
            }
            assert(choice.is_in_use(j));
            assert(choice.is_in_use(i));
        }
        if choice.platform !is MacOs && j < i && choice.server_route != Some(
            choice.routes[i].route,
        ) && choice.cost(i) == choice.cost(j) {
            assert(choice.is_cheapest(j)) by {
                assert forall|k: int| #[trigger] choice.is_default(k) implies choice.cost(j)
                    <= choice.cost(k) by {
                    assert(choice.cost(i) <= choice.cost(k));
                }
            }
            assert(!choice.is_in_use(i));
        }
    }
}

/// When a look at the routing table finds nothing to do although there is a
/// route to the server, that route has the gateway and the interface of the
/// best default route. When it finds something to do, the route to the server
/// lacked one of the two; the route that takes its place has both, leads to
/// the server alone, and the old one is the one that was recorded and is no
/// longer. Nothing else changes either way.
pub proof fn server_route_follows_the_network(
    manager: RouteManagerView,
    routes: Seq<ListedRoute<Seq<char>>>,
    after: RouteManagerView,
    r: RoutingResult<Option<ServerRouteChange>>,
)
    requires
        manager.server_route_checked(Ok(routes), after, r),
        r is Ok,
    ensures
        ({
            let choice = manager.choice(manager.server_ip, routes);
            exists|i: int|
                {
                    let current = routes[i].route;
                    &&& #[trigger] choice.is_best(i)
                    &&& match r->Ok_0 {
                        None => {
                            &&& after == manager
                            &&& manager.server_route matches Some(route) ==> route.gateway
                                == current.gateway && route.if_index == current.if_index
                        },
                        Some(change) => {
                            &&& manager.server_route == Some(change.old_route@)
                            &&& change.old_route.gateway != current.gateway
                                || change.old_route.if_index != current.if_index
                            &&& change.new_route.gateway == current.gateway
                            &&& change.new_route.if_index == current.if_index
                            &&& change.new_route.destination == manager.server_ip
                            &&& change.new_route.prefix == address_bits(manager.server_ip)
                            &&& after == (RouteManagerView { server_route: None, ..manager })
                        },
                    }
                }
        }),
{
    let choice = manager.choice(manager.server_ip, routes);
    match r->Ok_0 {
        None => {
            let i = choose|i: int| #[trigger]
                choice.is_best(i) && !manager.is_outdated(routes[i].route);
            assert(choice.is_best(i));
        },
        Some(change) => {
            let i = choose|i: int|
                {
                    let current = routes[i].route;
                    #[trigger] choice.is_best(i) && manager.is_outdated(current)
                        && change.new_route@ == manager.server_route_via(
                        current.if_index,
                        current.gateway,
                    )
                };
            assert(choice.is_best(i));
            assert(change.new_route@.gateway == change.new_route.gateway);
        },
    }
}

/// Every route leads where its role says: the one to the server out of the
/// interface, and through the gateway, that lead there now; those to local
/// networks out of the same, through the gateway where it speaks their family;
/// the others into the tunnel. On Windows each comes ahead of any other route.
pub proof fn planned_routes_lead_where_they_should(
    manager: RouteManagerView,
    if_index: u32,
    gateway: Option<IpAddr>,
    i: int,
)
    requires
        0 <= i < manager.install_plan(if_index, gateway).len(),
    ensures
        ({
            let plan = manager.install_plan(if_index, gateway);
            let route = plan[i].route;
            &&& plan.len() == (if manager.routing_mode is Lan {
                9int
            } else {
                4int
            })
            &&& plan[i].role is Server <==> i == 0
            &&& plan[i].role is Vpn <==> i >= plan.len() - 3
            &&& route.metric == (if manager.platform is Windows {
                Some(0u32)
            } else {
                None
            })
            &&& plan[i].role is Server ==> route.destination == manager.server_ip && route.prefix
                == address_bits(manager.server_ip) && route.if_index == Some(if_index)
                && route.gateway == gateway
            &&& plan[i].role is Lan ==> route.if_index == Some(if_index) && route.destination is V4
                && route.gateway == (if gateway is Some && gateway->0 is V4 {
                gateway
            } else {
                None
            })
            &&& plan[i].role is Vpn ==> route.if_index == Some(manager.tun_index) && route.gateway
                == Some(manager.tun_peer_ip)
            &&& i == plan.len() - 1 ==> route.destination == manager.tun_dns_ip && route.prefix
                == address_bits(manager.tun_dns_ip)
        }),
{
}

/// The local networks that stay reachable are the private networks of RFC
/// 1918, the link-local network and local multicast, each of them whole.
pub proof fn local_networks_stay_reachable(
    manager: RouteManagerView,
    if_index: u32,
    gateway: Option<IpAddr>,
    ip: u32,
)
    requires
        manager.routing_mode is Lan,
        0xc0a8_0000 <= ip <= 0xc0a8_ffff || 0xac10_0000 <= ip <= 0xac1f_ffff || 0x0a00_0000 <= ip
            <= 0x0aff_ffff || 0xa9fe_0000 <= ip <= 0xa9fe_ffff || 0xe000_0000 <= ip
            <= 0xe000_00ff,
    ensures
        ({
            let plan = manager.install_plan(if_index, gateway);
            exists|i: int|
                0 <= i < plan.len() && (#[trigger] plan[i]).role is Lan && plan[i].route.leads_to(
                    IpAddr::V4(ip),
                )
        }),
{
    let plan = manager.install_plan(if_index, gateway);
    word_powers();
    assert(two_to(20) == 0x10_0000) by {
        assert(two_to(4) == 16) by {
            reveal_with_fuel(two_to, 5);
        }
        product_of_powers(16, 4, 0x1_0000, 16);
    }
    assert(two_to(24) == 0x100_0000) by {
        product_of_powers(16, 8, 0x1_0000, 0x100);
    }
    let n = ip as int;
    if 0xc0a8_0000 <= ip <= 0xc0a8_ffff {
        assert(n / 0x1_0000 == 0xc0a8_0000int / 0x1_0000);
        assert(plan[1].route.leads_to(IpAddr::V4(ip)));
        assert(plan[1].role is Lan);
    } else if 0xac10_0000 <= ip <= 0xac1f_ffff {
        assert(n / 0x10_0000 == 0xac10_0000int / 0x10_0000);
        assert(plan[2].route.leads_to(IpAddr::V4(ip)));
        assert(plan[2].role is Lan);
    } else if 0x0a00_0000 <= ip <= 0x0aff_ffff {
        assert(n / 0x100_0000 == 0x0a00_0000int / 0x100_0000);
        assert(plan[3].route.leads_to(IpAddr::V4(ip)));
        assert(plan[3].role is Lan);
    } else if 0xa9fe_0000 <= ip <= 0xa9fe_ffff {
        assert(n / 0x1_0000 == 0xa9fe_0000int / 0x1_0000);
        assert(plan[4].route.leads_to(IpAddr::V4(ip)));
        assert(plan[4].role is Lan);
    } else {
        assert(n / 0x100 == 0xe000_0000int / 0x100);
        assert(plan[5].route.leads_to(IpAddr::V4(ip)));
        assert(plan[5].role is Lan);
    }
}

/// A route that could not be added is not recorded, and the failure is told as
/// what it is. That a route exists already is no failure: error 17, or 5010 on
/// Windows, says so.
pub proof fn failed_additions_change_nothing(
    manager: RouteManagerView,
    role: RouteRole,
    route: RouteView,
    e: OsError,
)
    ensures
        ({
            let (after, r) = manager.added(role, route, Err(e));
            let already = if manager.platform is Windows {
                5010i32
            } else {
                17i32
            };
            &&& r is Ok <==> e.raw_os_error == Some(already)
            &&& r is Ok ==> (after, r) == manager.added(role, route, Ok(()))
            &&& r is Err ==> after == manager
            &&& r is Err && e.permission_denied ==> r->Err_0 is InsufficientPermissions
            &&& r is Err && !e.permission_denied ==> r->Err_0
                == RoutingTableErrorView::AddRouteError(route, e)
        }),
{
}

/// A route that is added is recorded under its role, last, and those of other
/// roles stay as they are. In the end the routes into the tunnel are deleted
/// first and the one to the server last.
pub proof fn routes_are_recorded_by_role(manager: RouteManagerView, route: RouteView)
    ensures
        ({
            let server = manager.added(RouteRole::Server, route, Ok(())).0;
            let lan = manager.added(RouteRole::Lan, route, Ok(())).0;
            let vpn = manager.added(RouteRole::Vpn, route, Ok(())).0;
            &&& server == (RouteManagerView { server_route: Some(route), ..manager })
            &&& lan == (RouteManagerView { lan_routes: manager.lan_routes.push(route), ..manager })
            &&& vpn == (RouteManagerView { vpn_routes: manager.vpn_routes.push(route), ..manager })
            &&& server.leftovers().last() == route
            &&& server.leftovers().take(manager.vpn_routes.len() as int) == manager.vpn_routes
            &&& server.leftovers().len() == manager.vpn_routes.len() + manager.lan_routes.len() + 1
        }),
{
    let server = manager.added(RouteRole::Server, route, Ok(())).0;
    assert(server.leftovers().take(manager.vpn_routes.len() as int) =~= manager.vpn_routes);
}

/// IPv6 traffic is discarded exactly where that is asked for, routes are
/// touched at all and there is an IPv6 stack; unique local addresses are kept
/// where local networks are.
pub proof fn ipv6_is_discarded_where_asked_for(manager: RouteManagerView, has_ipv6_stack: bool)
    ensures
        manager.wanted_sinks(has_ipv6_stack).len() == (if manager.block_ipv6 && has_ipv6_stack
            && manager.routing_mode !is NoExec {
            2int
        } else {
            0int
        }),
        forall|i: int|
            0 <= i < manager.wanted_sinks(has_ipv6_stack).len() ==> (
            #[trigger] manager.wanted_sinks(has_ipv6_stack)[i]).destination is V6,
        manager.wants_ipv6_lan() <==> manager.block_ipv6 && manager.routing_mode is Lan,
{
}

/// Routes are planned along the interface and the gateway that lead to the
/// server now. Where no routes are touched, none is planned; a lookup that
/// failed, found nothing or names no interface is told as such.
pub proof fn plans_follow_the_lookup(
    manager: RouteManagerView,
    found: Result<Option<RouteView>, OsError>,
)
    ensures
        ({
            let r = manager.routes_to_install(found);
            let touched = manager.routing_mode !is NoExec;
            &&& !touched ==> r is Ok && r->Ok_0.len() == 0
            &&& touched && found is Err ==> r == Err::<Seq<PlannedRoute<Seq<char>>>, _>(
                RoutingTableErrorView::DefaultInterfaceNotFound(found->Err_0),
            )
            &&& touched && found is Ok && found->Ok_0 is None ==> r is Err && r->Err_0
                is DefaultRouteNotFound
            &&& touched && found is Ok && found->Ok_0 is Some && found->Ok_0->0.if_index is None
                ==> r is Err && r->Err_0 is InterfaceIndexNotFound
            &&& touched && found is Ok && found->Ok_0 is Some && found->Ok_0->0.if_index is Some
                ==> {
                &&& r is Ok && r->Ok_0.len() >= 4
                &&& r->Ok_0[0].role is Server
                &&& r->Ok_0[0].route.destination == manager.server_ip
                &&& r->Ok_0[0].route.if_index == found->Ok_0->0.if_index
                &&& r->Ok_0[0].route.gateway == found->Ok_0->0.gateway
            }
        }),
{
}

} // verus!
