//! Routes: what they say, where they lead and what they cost.

use crate::net::{IpAddr, OsError};
use vstd::prelude::*;

verus! {

/// The system whose routing table is managed.
#[derive(Clone, Copy, Debug, PartialEq, Eq, Structural)]
pub enum Platform {
    /// Linux
    Linux,
    /// macOS
    MacOs,
    /// Windows
    Windows,
}

/// What becomes of traffic outside of the tunnel.
#[derive(Clone, Copy, Debug, PartialEq, Eq, Structural)]
pub enum RouteMode {
    /// Everything goes through the tunnel
    Default,
    /// Local networks stay reachable
    Lan,
    /// No routes are touched
    NoExec,
}

impl Default for RouteMode {
    fn default() -> (mode: RouteMode)
        ensures
            mode == RouteMode::Default,
    {
        RouteMode::Default
    }
}

/// What a route does with the traffic it matches.
#[derive(Clone, Copy, Debug, PartialEq, Eq, Structural)]
pub enum RouteKind {
    /// Forwards it
    Unicast,
    /// Refuses it with an error
    Unreachable,
    /// Drops it
    Blackhole,
    /// Refuses it as forbidden
    Prohibit,
}

/// What tells two routes apart besides where they lead, each as far as the
/// system knows it.
#[derive(Clone, Copy, Debug, PartialEq, Eq, Structural)]
pub struct RouteAttributes {
    /// Routing table (Linux)
    pub table: u8,
    /// What it does with traffic (Linux and macOS)
    pub kind: RouteKind,
    /// Source that it applies to (Linux)
    pub source: Option<IpAddr>,
    /// Prefix length of that source (Linux)
    pub source_prefix: u8,
    /// Source address to prefer (Linux)
    pub pref_source: Option<IpAddr>,
    /// Identifier of the interface (Windows)
    pub luid: Option<u64>,
    /// Whether lookups are bound to the interface (macOS)
    pub if_scope: bool,
}

/// A route. It is generic in how it holds text (`S`): the executable form is
/// `Route<String>`, and its view holds a sequence.
#[derive(Debug)]
pub struct Route<S> {
    /// Network that it leads to
    pub destination: IpAddr,
    /// Number of leading bits that an address shares with that network
    pub prefix: u8,
    /// Next hop, none for a direct route
    pub gateway: Option<IpAddr>,
    /// Index of the interface
    pub if_index: Option<u32>,
    /// Name of the interface
    pub if_name: Option<S>,
    /// Cost (Linux and Windows)
    pub metric: Option<u32>,
    /// What else tells it apart
    pub attributes: RouteAttributes,
}

/// What a route says.
pub type RouteView = Route<Seq<char>>;

impl View for Route<String> {
    type V = RouteView;

    open spec fn view(&self) -> RouteView {
        Route {
            destination: self.destination,
            prefix: self.prefix,
            gateway: self.gateway,
            if_index: self.if_index,
            if_name: match self.if_name {
                Some(name) => Some(name@),
                None => None,
            },
            metric: self.metric,
            attributes: self.attributes,
        }
    }
}

/// A route of the system, with the cost of its interface if that is known
/// (Windows).
#[derive(Debug)]
pub struct ListedRoute<S> {
    /// The route
    pub route: Route<S>,
    /// Cost of the interface
    pub interface_metric: Option<u32>,
}

impl View for ListedRoute<String> {
    type V = ListedRoute<Seq<char>>;

    open spec fn view(&self) -> ListedRoute<Seq<char>> {
        ListedRoute { route: self.route@, interface_metric: self.interface_metric }
    }
}

/// What can go wrong with the routing table.
#[derive(Debug)]
pub enum RoutingTableError<S> {
    /// The asynchronous access to the routing table failed
    AsyncRoutingManagerError(OsError),
    /// A route could not be added
    AddRouteError(Route<S>, OsError),
    /// The routes could not be looked up
    DefaultInterfaceNotFound(OsError),
    /// There is no default route
    DefaultRouteNotFound,
    /// The default route names no interface
    InterfaceIndexNotFound,
    /// The default route names no gateway
    InterfaceGatewayNotFound,
    /// The routing table may not be modified
    InsufficientPermissions,
    /// The access to the routing table failed
    RoutingManagerError(OsError),
    /// There is a server route already
    ServerRouteAlreadyExists,
}

/// What a [`RoutingTableError`] says.
pub type RoutingTableErrorView = RoutingTableError<Seq<char>>;

impl View for RoutingTableError<String> {
    type V = RoutingTableErrorView;

    open spec fn view(&self) -> RoutingTableErrorView {
        match *self {
            RoutingTableError::AsyncRoutingManagerError(e) =>
                RoutingTableError::AsyncRoutingManagerError(e),
            RoutingTableError::AddRouteError(route, e) => RoutingTableError::AddRouteError(
                route@,
                e,
            ),
            RoutingTableError::DefaultInterfaceNotFound(e) =>
                RoutingTableError::DefaultInterfaceNotFound(e),
            RoutingTableError::DefaultRouteNotFound => RoutingTableError::DefaultRouteNotFound,
            RoutingTableError::InterfaceIndexNotFound => RoutingTableError::InterfaceIndexNotFound,
            RoutingTableError::InterfaceGatewayNotFound =>
                RoutingTableError::InterfaceGatewayNotFound,
            RoutingTableError::InsufficientPermissions =>
                RoutingTableError::InsufficientPermissions,
            RoutingTableError::RoutingManagerError(e) => RoutingTableError::RoutingManagerError(e),
            RoutingTableError::ServerRouteAlreadyExists =>
                RoutingTableError::ServerRouteAlreadyExists,
        }
    }
}

/// The answer of a function that can fail on the routing table.
pub type RoutingResult<T> = Result<T, RoutingTableError<String>>;

/// Number of bits of an IPv4 address
pub const IPV4_BITS: u8 = 32;

/// Number of bits of an IPv6 address
pub const IPV6_BITS: u8 = 128;

/// The IPv6 loopback address, `::1`
pub const IPV6_LOCALHOST: u128 = 1;

/// Lowest address of the upper half of IPv4, `128.0.0.0`
pub const IPV4_UPPER_HALF: u32 = 0x8000_0000;

/// Lowest address of the upper half of IPv6, `8000::`
pub const IPV6_UPPER_HALF: u128 = 0x8000_0000_0000_0000_0000_0000_0000_0000;

/// Lowest of the RFC 4193 unique local addresses, `fc00::`
pub const IPV6_UNIQUE_LOCAL: u128 = 0xfc00_0000_0000_0000_0000_0000_0000_0000;

/// Prefix length of the unique local addresses
pub const IPV6_UNIQUE_LOCAL_PREFIX: u8 = 7;

/// The networks that stay reachable with [`RouteMode::Lan`]: the private
/// networks of RFC 1918, the link-local network of RFC 3927 and multicast of
/// RFC 5771.
pub open spec fn lan_networks() -> Seq<(IpAddr, u8)> {
    seq![
        (IpAddr::V4(0xc0a8_0000), 16u8),
        (IpAddr::V4(0xac10_0000), 12u8),
        (IpAddr::V4(0x0a00_0000), 8u8),
        (IpAddr::V4(0xa9fe_0000), 16u8),
        (IpAddr::V4(0xe000_0000), 24u8),
    ]
}

/// The two halves of IPv4, which win over any default route.
pub open spec fn tunnel_networks() -> Seq<(IpAddr, u8)> {
    seq![(IpAddr::V4(0), 1u8), (IpAddr::V4(IPV4_UPPER_HALF), 1u8)]
}

/// The two halves of IPv6.
pub open spec fn ipv6_sink_networks() -> Seq<(IpAddr, u8)> {
    seq![(IpAddr::V6(0), 1u8), (IpAddr::V6(IPV6_UPPER_HALF), 1u8)]
}

/// Number of bits of an address of the same family.
pub open spec fn address_bits(ip: IpAddr) -> u8 {
    match ip {
        IpAddr::V4(_) => IPV4_BITS,
        IpAddr::V6(_) => IPV6_BITS,
    }
}

/// Whether two addresses are of one family.
pub open spec fn one_family(a: IpAddr, b: IpAddr) -> bool {
    (a is V4) == (b is V4)
}

/// Returns the host prefix length for an IP address
/// (32 bits for IPv4, 128 bits for IPv6)
pub fn host_prefix_len(ip: &IpAddr) -> (prefix: u8)
    ensures
        prefix == address_bits(*ip),
{
    match ip {
        IpAddr::V4(_) => IPV4_BITS,
        IpAddr::V6(_) => IPV6_BITS,
    }
}

/// Checks if two IP addresses are from the same address family
/// (both IPv4 or both IPv6)
pub fn same_ip_family(ip1: &IpAddr, ip2: &IpAddr) -> (same: bool)
    ensures
        same == one_family(*ip1, *ip2),
{
    ip1.is_ipv4() == ip2.is_ipv4()
}

/// A route to a network and nothing else.
pub open spec fn plain_route(destination: IpAddr, prefix: u8) -> RouteView {
    Route {
        destination,
        prefix,
        gateway: None,
        if_index: None,
        if_name: None,
        metric: None,
        attributes: RouteAttributes {
            table: 0,
            kind: RouteKind::Unicast,
            source: None,
            source_prefix: 0,
            pref_source: None,
            luid: None,
            if_scope: false,
        },
    }
}

/// The number that an address spells.
pub open spec fn address_value(ip: IpAddr) -> int {
    match ip {
        IpAddr::V4(v) => v as int,
        IpAddr::V6(v) => v as int,
    }
}

/// Two to the power of `bits`.
pub open spec fn two_to(bits: int) -> int
    decreases bits,
{
    if bits <= 0 {
        1
    } else {
        2 * two_to(bits - 1)
    }
}

/// Whether an address lies in a network: it is of the same family and shares
/// the leading bits.
pub open spec fn in_network(network: IpAddr, prefix: u8, ip: IpAddr) -> bool {
    let rest = two_to(address_bits(network) - prefix);
    one_family(network, ip) && address_value(network) / rest == address_value(ip) / rest
}

impl Route<Seq<char>> {
    /// Whether the route leads to an address.
    pub open spec fn leads_to(self, ip: IpAddr) -> bool {
        in_network(self.destination, self.prefix, ip)
    }

    /// The route with a next hop.
    pub open spec fn via(self, gateway: IpAddr) -> RouteView {
        Route { gateway: Some(gateway), ..self }
    }

    /// The route with an interface.
    pub open spec fn on(self, if_index: u32) -> RouteView {
        Route { if_index: Some(if_index), ..self }
    }

    /// The route at the lowest cost, where the system wants that said.
    pub open spec fn preferred_on(self, platform: Platform) -> RouteView {
        if platform is Windows {
            Route { metric: Some(0), ..self }
        } else {
            self
        }
    }
}

impl Route<String> {
    /// A route to a network and nothing else.
    pub fn new(destination: IpAddr, prefix: u8) -> (route: Self)
        ensures
            route@ == plain_route(destination, prefix),
    {
        Route {
            destination,
            prefix,
            gateway: None,
            if_index: None,
            if_name: None,
            metric: None,
            attributes: RouteAttributes {
                table: 0,
                kind: RouteKind::Unicast,
                source: None,
                source_prefix: 0,
                pref_source: None,
                luid: None,
                if_scope: false,
            },
        }
    }

    /// Another copy of the route.
    pub fn duplicate(&self) -> (route: Self)
        ensures
            route@ == self@,
    {
        let if_name = match &self.if_name {
            Some(name) => Some(name.clone()),
            None => None,
        };
        Route {
            destination: self.destination,
            prefix: self.prefix,
            gateway: self.gateway,
            if_index: self.if_index,
            if_name,
            metric: self.metric,
            attributes: self.attributes,
        }
    }

    /// Whether two routes are the same in everything.
    pub fn same(&self, other: &Self) -> (same: bool)
        ensures
            same == (self@ == other@),
    {
        let same_name = match (&self.if_name, &other.if_name) {
            (Some(a), Some(b)) => *a == *b,
            (None, None) => true,
            _ => false,
        };
        same_name && self.destination == other.destination && self.prefix == other.prefix
            && self.gateway == other.gateway && self.if_index == other.if_index && self.metric
            == other.metric && self.attributes == other.attributes
    }

    /// Determine whether the target address is included in the route
    pub fn contains(&self, dest: &IpAddr) -> (contains: bool)
        requires
            self.prefix <= address_bits(self.destination),
        ensures
            contains == self@.leads_to(*dest),
    {
        match (self.destination, *dest) {
            (IpAddr::V4(network), IpAddr::V4(ip)) => {
                let mut a: u32 = network;
                let mut b: u32 = ip;
                let mut bits: u8 = IPV4_BITS - self.prefix;
                let ghost all = IPV4_BITS - self.prefix;
                proof {
                    two_to_is_positive(all as int);
                    assert(network as int / 1 == network && ip as int / 1 == ip);
                }
                while bits > 0
                    invariant
                        0 <= bits <= all,
                        a == network as int / two_to(all - bits),
                        b == ip as int / two_to(all - bits),
                    decreases bits,
                {
                    proof {
                        halving(network as int, all - bits);
                        halving(ip as int, all - bits);
                    }
                    a = a / 2;
                    b = b / 2;
                    bits = bits - 1;
                }
                a == b
            },
            (IpAddr::V6(network), IpAddr::V6(ip)) => {
                let mut a: u128 = network;
                let mut b: u128 = ip;
                let mut bits: u8 = IPV6_BITS - self.prefix;
                let ghost all = IPV6_BITS - self.prefix;
                proof {
                    two_to_is_positive(all as int);
                    assert(network as int / 1 == network && ip as int / 1 == ip);
                }
                while bits > 0
                    invariant
                        0 <= bits <= all,
                        a == network as int / two_to(all - bits),
                        b == ip as int / two_to(all - bits),
                    decreases bits,
                {
                    proof {
                        halving(network as int, all - bits);
                        halving(ip as int, all - bits);
                    }
                    a = a / 2;
                    b = b / 2;
                    bits = bits - 1;
                }
                a == b
            },
            _ => false,
        }
    }
}

proof fn two_to_is_positive(bits: int)
    ensures
        two_to(bits) >= 1,
    decreases bits,
{
    if bits > 0 {
        two_to_is_positive(bits - 1);
    }
}

/// Halving a quotient is the same as doubling the divisor.
proof fn halving(n: int, bits: int)
    requires
        n >= 0,
        bits >= 0,
    ensures
        n / two_to(bits) / 2 == n / two_to(bits + 1),
{
    two_to_is_positive(bits);
    let d = two_to(bits);
    assert(two_to(bits + 1) == 2 * d);
    assert(n / d / 2 == n / (d * 2)) by {
        vstd::arithmetic::div_mod::lemma_div_denominator(n, d, 2);
    }
    assert(d * 2 == 2 * d);
}

/// The sink route to one half of IPv6: through the loopback gateway, on the
/// loopback device or on the tunnel, as the system lets it.
pub open spec fn sink_route(platform: Platform, tun_index: u32, network: IpAddr, prefix: u8) ->
    RouteView {
    let route = plain_route(network, prefix);
    match platform {
        Platform::MacOs => route.via(IpAddr::V6(IPV6_LOCALHOST)),
        Platform::Linux => Route { if_name: Some("lo"@), ..route },
        Platform::Windows => route.on(tun_index).preferred_on(platform),
    }
}

/// The routes that steer all IPv6 traffic into a blackhole.
pub open spec fn sink_routes(platform: Platform, tun_index: u32) -> Seq<RouteView> {
    ipv6_sink_networks().map_values(
        |network: (IpAddr, u8)| sink_route(platform, tun_index, network.0, network.1),
    )
}

/// What a list of routes says.
pub open spec fn route_views(routes: Seq<Route<String>>) -> Seq<RouteView> {
    routes.map_values(|route: Route<String>| route@)
}

/// Routes that steer all IPv6 traffic into a blackhole, because the tunnel
/// carries IPv4 only.
///
/// On macOS they are gateway routes via `::1`: the kernel binds them to the
/// loopback interface and discards the looped-back packets, since their
/// destination is not local and forwarding is off. (An interface route on
/// the TUN is refused with ENETUNREACH because the TUN has no IPv6 address.)
/// On Linux they are device routes on `lo`, discarded the same way. On
/// Windows the TUN adapter carries a link-local address, so they are
/// interface routes on the TUN and the inside path drops what arrives.
///
/// Link-local (fe80::/10) and multicast (ff00::/8) keep their more specific
/// on-link routes on all three platforms, and when the outside connection is
/// IPv6 the /128 server route wins over these /1 halves.
pub fn ipv6_sink_routes(platform: Platform, tun_index: u32) -> (routes: Vec<Route<String>>)
    ensures
        route_views(routes@) == sink_routes(platform, tun_index),
{
    let mut routes: Vec<Route<String>> = Vec::new();
    routes.push(ipv6_sink_route(platform, tun_index, IpAddr::V6(0), 1));
    routes.push(ipv6_sink_route(platform, tun_index, IpAddr::V6(IPV6_UPPER_HALF), 1));
    assert(route_views(routes@) =~= sink_routes(platform, tun_index));
    routes
}

/// The sink route to one half of IPv6.
fn ipv6_sink_route(platform: Platform, tun_index: u32, network: IpAddr, prefix: u8) -> (route:
    Route<String>)
    ensures
        route@ == sink_route(platform, tun_index, network, prefix),
{
    let mut route = Route::new(network, prefix);
    match platform {
        Platform::MacOs => {
            route.gateway = Some(IpAddr::V6(IPV6_LOCALHOST));
        },
        Platform::Linux => {
            route.if_name = Some("lo".to_owned());
        },
        Platform::Windows => {
            route.if_index = Some(tun_index);
            route.metric = Some(0);
        },
    }
    route
}

/// The cost of a route: on Windows that of its interface is added, and one
/// that is not known is the highest; macOS has none.
pub open spec fn route_cost(platform: Platform, listed: ListedRoute<Seq<char>>) -> u32 {
    let own = match listed.route.metric {
        Some(metric) => metric,
        None => 0,
    };
    match platform {
        Platform::MacOs => 0,
        Platform::Linux => own,
        Platform::Windows => {
            let interface = match (listed.route.if_index, listed.interface_metric) {
                (Some(_), Some(metric)) => metric,
                _ => u32::MAX,
            };
            if own + interface <= u32::MAX {
                (own + interface) as u32
            } else {
                u32::MAX
            }
        },
    }
}

/// The cost of a route.
pub fn get_route_metric(platform: Platform, listed: &ListedRoute<String>) -> (metric: u32)
    ensures
        metric == route_cost(platform, listed@),
{
    let route_metric: u32 = match listed.route.metric {
        Some(metric) => metric,
        None => 0,
    };
    match platform {
        Platform::MacOs => 0,
        Platform::Linux => route_metric,
        Platform::Windows => {
            let interface_metric: u32 = match (listed.route.if_index, listed.interface_metric) {
                (Some(_), Some(metric)) => metric,
                _ => u32::MAX,
            };
            route_metric.saturating_add(interface_metric)
        },
    }
}

/// A network is the block of addresses of its family that share its leading
/// bits: from where it begins, as many as its size, which halves with every
/// further bit of the prefix.
pub proof fn networks_are_blocks(network: IpAddr, prefix: u8, ip: IpAddr)
    requires
        prefix <= address_bits(network),
    ensures
        ({
            let size = two_to(address_bits(network) - prefix);
            let begin = address_value(network) - address_value(network) % size;
            &&& size >= 1
            &&& prefix < address_bits(network) ==> size == 2 * two_to(
                address_bits(network) - prefix - 1,
            )
            &&& in_network(network, prefix, ip) <==> (network is V4) == (ip is V4) && begin
                <= address_value(ip) < begin + size
        }),
{
    two_to_is_positive(address_bits(network) - prefix);
    let size = two_to(address_bits(network) - prefix);
    let a = address_value(network);
    let b = address_value(ip);
    assert(a / size == b / size <==> a - a % size <= b < a - a % size + size) by (nonlinear_arith)
        requires
            size >= 1,
            a >= 0,
            b >= 0,
    ;
}

/// A host route leads to its host and to nothing else.
pub proof fn host_routes_lead_to_one_address(host: IpAddr, ip: IpAddr)
    ensures
        in_network(host, address_bits(host), ip) <==> host == ip,
        host is V4 ==> address_bits(host) == 32,
        host is V6 ==> address_bits(host) == 128,
{
    assert(two_to(0) == 1);
    assert(address_value(host) / 1 == address_value(host));
    assert(address_value(ip) / 1 == address_value(ip));
}

/// What goes into a sink goes nowhere: on macOS to the loopback address, on
/// Linux to the loopback device, and on Windows, ahead of all other routes,
/// into the tunnel, which does not carry it.
pub proof fn sinks_lead_nowhere(platform: Platform, tun_index: u32, i: int)
    requires
        0 <= i < sink_routes(platform, tun_index).len(),
    ensures
        ({
            let sink = sink_routes(platform, tun_index)[i];
            &&& sink.attributes.kind is Unicast
            &&& platform is MacOs ==> sink.gateway == Some(IpAddr::V6(1)) && sink.if_index is None
            &&& platform is Linux ==> sink.if_name == Some("lo"@) && sink.gateway is None
            &&& platform is Windows ==> sink.if_index == Some(tun_index) && sink.metric == Some(
                0u32,
            ) && sink.gateway is None
        }),
{
}

/// A route costs what it says, nothing if it says nothing. On Windows the cost
/// of its interface comes on top, and one whose interface is not known costs
/// most; no cost exceeds the largest number there is. macOS has no costs.
pub proof fn costs_add_up(listed: ListedRoute<Seq<char>>)
    ensures
        ({
            let own = match listed.route.metric {
                Some(metric) => metric as int,
                None => 0,
            };
            let windows = route_cost(Platform::Windows, listed);
            &&& route_cost(Platform::MacOs, listed) == 0
            &&& route_cost(Platform::Linux, listed) == own
            &&& listed.route.if_index is None || listed.interface_metric is None ==> windows
                == 0xffff_ffff
            &&& listed.route.if_index is Some && listed.interface_metric is Some ==> windows == (
            if own + listed.interface_metric->0 <= 0xffff_ffff {
                own + listed.interface_metric->0
            } else {
                0xffff_ffff
            })
        }),
{
}

} // verus!
