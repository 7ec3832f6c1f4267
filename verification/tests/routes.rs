use lightway::net::{IpAddr, OsError};
use lightway::route::{
    get_route_metric, host_prefix_len, ipv6_sink_routes, same_ip_family, ListedRoute, Platform,
    Route, RouteMode, RoutingTableError, IPV6_LOCALHOST, IPV6_UNIQUE_LOCAL,
};
use lightway::route_manager::{
    is_route_exists_error, RouteManager, RouteManagerInner, RouteRole, RouteUpdater,
};

const EXTERNAL_IP_V4: IpAddr = IpAddr::V4(0x0808_0808);
const EXTERNAL_IP_V6: IpAddr = IpAddr::V6(0x2001_4860_4860_0000_0000_0000_0000_8888);
const TUN_PEER_IP: IpAddr = IpAddr::V4(0x0a31_0002);
const TUN_DNS_IP: IpAddr = IpAddr::V4(0x0808_0404);
const GATEWAY: IpAddr = IpAddr::V4(0xc0a8_0101);

const PLATFORMS: [Platform; 3] = [Platform::Linux, Platform::MacOs, Platform::Windows];

fn noexec_manager(tun_index: u32) -> RouteManager {
    RouteManager::new(
        Platform::Linux,
        RouteMode::NoExec,
        true,
        EXTERNAL_IP_V4,
        tun_index,
        TUN_PEER_IP,
        TUN_DNS_IP,
        Ok(()),
        Ok(()),
    )
    .unwrap()
}

fn inner(platform: Platform, mode: RouteMode, block_ipv6: bool, server: IpAddr) -> RouteManagerInner {
    RouteManagerInner::new(platform, mode, block_ipv6, server, 7, TUN_PEER_IP, TUN_DNS_IP)
}

fn route(destination: IpAddr, prefix: u8, gateway: Option<IpAddr>, if_index: Option<u32>) -> Route<String> {
    let mut route = Route::new(destination, prefix);
    route.gateway = gateway;
    route.if_index = if_index;
    route
}

fn listed(route: Route<String>, interface_metric: Option<u32>) -> ListedRoute<String> {
    ListedRoute { route, interface_metric }
}

fn default_via(if_index: u32, metric: Option<u32>) -> ListedRoute<String> {
    let mut r = route(IpAddr::V4(0), 0, Some(GATEWAY), Some(if_index));
    r.metric = metric;
    listed(r, Some(0))
}

#[test]
fn test_ipv6_sink_routes() {
    for platform in PLATFORMS {
        let routes = ipv6_sink_routes(platform, 7);
        let expected = [
            IpAddr::V6(0),
            IpAddr::V6(0x8000_0000_0000_0000_0000_0000_0000_0000),
        ];
        assert_eq!(routes.len(), expected.len());
        for (route, network) in routes.iter().zip(expected) {
            assert_eq!(route.destination, network);
            assert_eq!(route.prefix, 1);
            match platform {
                // a gateway route via loopback; an interface route on the
                // TUN is refused because the TUN has no IPv6 address
                Platform::MacOs => {
                    assert_eq!(route.gateway, Some(IpAddr::V6(IPV6_LOCALHOST)));
                    assert_eq!(route.if_index, None);
                }
                // a device route on loopback
                Platform::Linux => {
                    assert_eq!(route.if_name.as_deref(), Some("lo"));
                    assert_eq!(route.gateway, None);
                }
                // an interface route on the TUN, which has a link-local
                Platform::Windows => {
                    assert_eq!(route.if_index, Some(7));
                    assert_eq!(route.gateway, None);
                    assert_eq!(route.metric, Some(0));
                }
            }
        }
    }
}

#[test]
fn test_ipv6_sink_routes_cover_exactly_one_half() {
    let addresses: [u128; 7] = [
        // global unicast
        0x2001_4860_4860_0000_0000_0000_0000_8888,
        // loopback
        1,
        // link local
        0xfe80_0000_0000_0000_0000_0000_0000_0001,
        // multicast
        0xff02_0000_0000_0000_0000_0000_0000_0001,
        // unique local
        0xfd00_0000_0000_0000_0000_0000_0000_0001,
        // top of lower half
        0x7fff_ffff_ffff_ffff_ffff_ffff_ffff_ffff,
        // top of upper half
        u128::MAX,
    ];
    for platform in PLATFORMS {
        for addr in addresses {
            let covering = ipv6_sink_routes(platform, 1)
                .iter()
                .filter(|route| route.contains(&IpAddr::V6(addr)))
                .count();
            assert_eq!(covering, 1);
        }
    }
}

#[test]
fn test_ipv6_sink_routes_ignore_ipv4() {
    for platform in PLATFORMS {
        assert!(ipv6_sink_routes(platform, 1)
            .iter()
            .all(|route| !route.contains(&EXTERNAL_IP_V4)));
    }
}

#[test]
fn test_route_manager_inner_structure() {
    for (route_mode, block_ipv6) in [
        (RouteMode::Default, true),
        (RouteMode::Default, false),
        (RouteMode::Lan, true),
        (RouteMode::Lan, false),
    ] {
        let inner = RouteManagerInner::new(
            Platform::Linux,
            route_mode,
            block_ipv6,
            EXTERNAL_IP_V4,
            0,
            TUN_PEER_IP,
            TUN_DNS_IP,
        );
        assert_eq!(inner.routing_mode, route_mode);
        assert_eq!(inner.block_ipv6, block_ipv6);
        assert_eq!(inner.server_ip, EXTERNAL_IP_V4);
        assert_eq!(inner.tun_index, 0);
        assert_eq!(inner.tun_peer_ip, TUN_PEER_IP);
        assert_eq!(inner.tun_dns_ip, TUN_DNS_IP);
        assert_eq!(inner.vpn_routes.len(), 0);
        assert_eq!(inner.lan_routes.len(), 0);
        assert!(inner.server_route.is_none());
    }
}

#[test]
fn test_route_manager_double_start_error() {
    let mut route_manager = noexec_manager(0);
    // First start should succeed
    assert!(route_manager.start().is_ok());
    // Second start should fail since inner is already taken
    let second_start_result = route_manager.start();
    assert!(matches!(
        second_start_result,
        Err(RoutingTableError::InsufficientPermissions)
    ));
}

#[test]
fn test_route_manager_start_with_noexec_mode() {
    let mut route_manager = noexec_manager(1);
    // NoExec installs nothing and the per-event step is a no-op
    let mut updater = route_manager.start().unwrap();
    assert!(!updater.inner.installs_routes());
    let found = Ok(Some(route(IpAddr::V4(0), 0, Some(GATEWAY), Some(2))));
    assert!(updater.inner.install_routes(found).unwrap().is_empty());
    assert!(updater.inner.install_ipv6_sink(true).is_empty());
    assert!(updater
        .check_and_update_server_route(Ok(vec![]))
        .unwrap()
        .is_none());
    assert!(updater.inner.server_route.is_none());
}

#[test]
fn test_ipv6_server_route_manager_creation() {
    let inner = RouteManagerInner::new(
        Platform::Linux,
        RouteMode::Default,
        true,
        EXTERNAL_IP_V6,
        1,
        TUN_PEER_IP,
        TUN_DNS_IP,
    );
    assert_eq!(inner.server_ip, EXTERNAL_IP_V6);
    assert!(!inner.server_ip.is_ipv4());
}

#[test]
fn access_failures_are_told_apart() {
    let e = OsError { raw_os_error: Some(1), permission_denied: true };
    let make = |access, async_access| {
        RouteManager::new(
            Platform::Linux,
            RouteMode::Default,
            true,
            EXTERNAL_IP_V4,
            7,
            TUN_PEER_IP,
            TUN_DNS_IP,
            access,
            async_access,
        )
    };
    assert!(matches!(
        make(Err(e), Ok(())),
        Err(RoutingTableError::RoutingManagerError(x)) if x == e
    ));
    assert!(matches!(
        make(Ok(()), Err(e)),
        Err(RoutingTableError::AsyncRoutingManagerError(x)) if x == e
    ));
}

#[test]
fn route_mode_defaults_to_default() {
    assert_eq!(RouteMode::default(), RouteMode::Default);
}

#[test]
fn prefix_lengths_and_families() {
    assert_eq!(host_prefix_len(&EXTERNAL_IP_V4), 32);
    assert_eq!(host_prefix_len(&EXTERNAL_IP_V6), 128);
    assert!(same_ip_family(&EXTERNAL_IP_V4, &TUN_PEER_IP));
    assert!(!same_ip_family(&EXTERNAL_IP_V4, &EXTERNAL_IP_V6));
}

#[test]
fn containment_goes_by_leading_bits() {
    let lan = Route::new(IpAddr::V4(0xc0a8_0000), 16);
    assert!(lan.contains(&IpAddr::V4(0xc0a8_ffff)));
    assert!(!lan.contains(&IpAddr::V4(0xc0a9_0000)));
    let host = Route::new(IpAddr::V4(5), 32);
    assert!(host.contains(&IpAddr::V4(5)));
    assert!(!host.contains(&IpAddr::V4(4)));
    let all = Route::new(IpAddr::V4(0), 0);
    assert!(all.contains(&IpAddr::V4(u32::MAX)));
    assert!(!all.contains(&IpAddr::V6(0)));
}

#[test]
fn metrics_by_platform() {
    let plain = listed(route(IpAddr::V4(0), 0, None, Some(3)), Some(25));
    assert_eq!(get_route_metric(Platform::Linux, &plain), 0);
    assert_eq!(get_route_metric(Platform::MacOs, &plain), 0);
    assert_eq!(get_route_metric(Platform::Windows, &plain), 25);
    let costly = default_via(3, Some(u32::MAX - 1));
    assert_eq!(get_route_metric(Platform::Linux, &costly), u32::MAX - 1);
    let unknown = listed(route(IpAddr::V4(0), 0, None, None), Some(25));
    assert_eq!(get_route_metric(Platform::Windows, &unknown), u32::MAX);
    let unmeasured = listed(route(IpAddr::V4(0), 0, None, Some(3)), None);
    assert_eq!(get_route_metric(Platform::Windows, &unmeasured), u32::MAX);
}

fn best(inner: &RouteManagerInner, routes: Vec<ListedRoute<String>>) -> Option<u32> {
    match inner.find_best_default_route(&EXTERNAL_IP_V4, Ok(routes)) {
        Ok(route) => route.if_index,
        Err(RoutingTableError::DefaultRouteNotFound) => None,
        Err(e) => panic!("{e:?}"),
    }
}

#[test]
fn best_default_route_has_the_least_metric() {
    let linux = inner(Platform::Linux, RouteMode::Default, true, EXTERNAL_IP_V4);
    let table = || {
        vec![
            listed(route(IpAddr::V6(0), 0, None, Some(1)), None),
            listed(route(IpAddr::V4(0xc0a8_0000), 16, None, Some(2)), None),
            default_via(3, Some(600)),
            default_via(4, Some(100)),
            default_via(5, Some(100)),
            default_via(6, Some(200)),
        ]
    };
    assert_eq!(best(&linux, table()), Some(4));
    let macos = inner(Platform::MacOs, RouteMode::Default, true, EXTERNAL_IP_V4);
    assert_eq!(best(&macos, table()), Some(3));
    // of equals, the route in use is kept
    let mut kept = inner(Platform::Linux, RouteMode::Default, true, EXTERNAL_IP_V4);
    kept.server_route = Some(default_via(5, Some(100)).route);
    assert_eq!(best(&kept, table()), Some(5));
    // but not against a cheaper one
    kept.server_route = Some(default_via(6, Some(200)).route);
    assert_eq!(best(&kept, table()), Some(4));
}

#[test]
fn missing_default_routes_are_reported() {
    let linux = inner(Platform::Linux, RouteMode::Default, true, EXTERNAL_IP_V4);
    assert_eq!(best(&linux, vec![]), None);
    // a lone default route is the one of least metric, whatever that is
    assert_eq!(best(&linux, vec![default_via(3, Some(u32::MAX))]), Some(3));
    let windows = inner(Platform::Windows, RouteMode::Default, true, EXTERNAL_IP_V4);
    let unknown = || listed(route(IpAddr::V4(0), 0, Some(GATEWAY), Some(5)), None);
    assert_eq!(best(&windows, vec![unknown()]), Some(5));
    assert_eq!(best(&windows, vec![unknown(), default_via(4, Some(9))]), Some(4));
    let e = OsError { raw_os_error: None, permission_denied: false };
    assert!(matches!(
        linux.find_best_default_route(&EXTERNAL_IP_V4, Err(e)),
        Err(RoutingTableError::DefaultInterfaceNotFound(x)) if x == e
    ));
}

#[test]
fn interface_and_gateway_of_the_route_found() {
    assert!(matches!(
        RouteManagerInner::find_default_interface_index_and_gateway(Ok(None)),
        Err(RoutingTableError::DefaultRouteNotFound)
    ));
    let without = route(IpAddr::V4(0), 0, Some(GATEWAY), None);
    assert!(matches!(
        RouteManagerInner::find_default_interface_index_and_gateway(Ok(Some(without))),
        Err(RoutingTableError::InterfaceIndexNotFound)
    ));
    let direct = route(IpAddr::V4(0), 0, None, Some(2));
    assert_eq!(
        RouteManagerInner::find_default_interface_index_and_gateway(Ok(Some(direct))).unwrap(),
        (2, None)
    );
    let e = OsError { raw_os_error: Some(5), permission_denied: false };
    assert!(matches!(
        RouteManagerInner::find_route(Err(e)),
        Err(RoutingTableError::DefaultInterfaceNotFound(x)) if x == e
    ));
}

#[test]
fn install_plan_of_the_default_mode() {
    let linux = inner(Platform::Linux, RouteMode::Default, true, EXTERNAL_IP_V4);
    let found = Ok(Some(route(IpAddr::V4(0), 0, Some(GATEWAY), Some(2))));
    let plan = linux.install_routes(found).unwrap();
    let roles: Vec<RouteRole> = plan.iter().map(|p| p.role).collect();
    assert_eq!(
        roles,
        [RouteRole::Server, RouteRole::Vpn, RouteRole::Vpn, RouteRole::Vpn]
    );
    assert_eq!(plan[0].route.destination, EXTERNAL_IP_V4);
    assert_eq!(plan[0].route.prefix, 32);
    assert_eq!(plan[0].route.gateway, Some(GATEWAY));
    assert_eq!(plan[0].route.if_index, Some(2));
    assert_eq!(plan[0].route.metric, None);
    for (planned, network, prefix) in [
        (&plan[1], IpAddr::V4(0), 1),
        (&plan[2], IpAddr::V4(0x8000_0000), 1),
        (&plan[3], TUN_DNS_IP, 32),
    ] {
        assert_eq!(planned.route.destination, network);
        assert_eq!(planned.route.prefix, prefix);
        assert_eq!(planned.route.gateway, Some(TUN_PEER_IP));
        assert_eq!(planned.route.if_index, Some(7));
    }
}

#[test]
fn install_plan_of_the_lan_mode() {
    let windows = inner(Platform::Windows, RouteMode::Lan, true, EXTERNAL_IP_V6);
    let gateway = IpAddr::V6(0xfe80_0000_0000_0000_0000_0000_0000_0001);
    let found = Ok(Some(route(IpAddr::V6(0), 0, Some(gateway), Some(2))));
    let plan = windows.install_routes(found).unwrap();
    assert_eq!(plan.len(), 9);
    assert_eq!(plan[0].route.prefix, 128);
    let lan: Vec<(IpAddr, u8)> = plan[1..6]
        .iter()
        .map(|p| {
            assert_eq!(p.role, RouteRole::Lan);
            // an IPv6 gateway is of no use to an IPv4 network
            assert_eq!(p.route.gateway, None);
            assert_eq!(p.route.if_index, Some(2));
            (p.route.destination, p.route.prefix)
        })
        .collect();
    assert_eq!(
        lan,
        [
            (IpAddr::V4(0xc0a8_0000), 16),
            (IpAddr::V4(0xac10_0000), 12),
            (IpAddr::V4(0x0a00_0000), 8),
            (IpAddr::V4(0xa9fe_0000), 16),
            (IpAddr::V4(0xe000_0000), 24),
        ]
    );
    assert!(plan.iter().all(|p| p.route.metric == Some(0)));
}

#[test]
fn ipv6_lan_follows_the_ipv6_default_route() {
    let linux = inner(Platform::Linux, RouteMode::Lan, true, EXTERNAL_IP_V4);
    assert!(linux.keeps_ipv6_lan());
    let gateway = IpAddr::V6(0xfe80_0000_0000_0000_0000_0000_0000_0001);
    let table = vec![
        default_via(2, None),
        listed(route(IpAddr::V6(0), 0, Some(gateway), Some(3)), None),
    ];
    let lan = linux.install_ipv6_lan_route(Ok(table)).unwrap();
    assert_eq!(lan.destination, IpAddr::V6(IPV6_UNIQUE_LOCAL));
    assert_eq!(lan.prefix, 7);
    assert_eq!(lan.if_index, Some(3));
    assert_eq!(lan.gateway, Some(gateway));
    // more specific than the sink for exactly the unique local addresses
    assert!(lan.contains(&IpAddr::V6(0xfc00_0000_0000_0000_0000_0000_0000_0000)));
    assert!(lan.contains(&IpAddr::V6(0xfdff_ffff_ffff_ffff_ffff_ffff_ffff_ffff)));
    assert!(!lan.contains(&IpAddr::V6(0xfbff_ffff_ffff_ffff_ffff_ffff_ffff_ffff)));
    assert!(!lan.contains(&IpAddr::V6(0xfe00_0000_0000_0000_0000_0000_0000_0000)));
    assert!(linux.install_ipv6_sink(true).iter().all(|sink| sink.prefix < lan.prefix));
    assert!(linux.install_ipv6_lan_route(Ok(vec![default_via(2, None)])).is_none());
    let e = OsError { raw_os_error: None, permission_denied: false };
    assert!(linux.install_ipv6_lan_route(Err(e)).is_none());
    let open = inner(Platform::Linux, RouteMode::Lan, false, EXTERNAL_IP_V4);
    assert!(!open.keeps_ipv6_lan());
    assert!(open.install_ipv6_sink(true).is_empty());
    // a host with no IPv6 stack has nothing to discard
    assert!(linux.install_ipv6_sink(false).is_empty());
    assert_eq!(linux.install_ipv6_sink(true).len(), 2);
}

#[test]
fn existing_routes_count_as_added() {
    let exists = OsError { raw_os_error: Some(libc::EEXIST), permission_denied: false };
    assert!(is_route_exists_error(Platform::Linux, &exists));
    assert!(is_route_exists_error(Platform::MacOs, &exists));
    assert!(!is_route_exists_error(Platform::Windows, &exists));
    let code = windows_sys::Win32::Foundation::ERROR_OBJECT_ALREADY_EXISTS;
    let object = OsError { raw_os_error: Some(code as i32), permission_denied: false };
    assert!(is_route_exists_error(Platform::Windows, &object));
    assert!(!is_route_exists_error(Platform::Linux, &object));
    let unknown = OsError { raw_os_error: None, permission_denied: false };
    assert!(!is_route_exists_error(Platform::Linux, &unknown));

    let mut linux = inner(Platform::Linux, RouteMode::Default, true, EXTERNAL_IP_V4);
    linux
        .route_added(RouteRole::Vpn, Route::new(EXTERNAL_IP_V4, 32), Err(exists))
        .unwrap();
    assert_eq!(linux.vpn_routes.len(), 1);
}

#[test]
fn failed_additions_are_not_recorded() {
    let mut linux = inner(Platform::Linux, RouteMode::Default, true, EXTERNAL_IP_V4);
    let denied = OsError { raw_os_error: Some(libc::EPERM), permission_denied: true };
    assert!(matches!(
        linux.route_added(RouteRole::Lan, Route::new(GATEWAY, 32), Err(denied)),
        Err(RoutingTableError::InsufficientPermissions)
    ));
    let broken = OsError { raw_os_error: Some(libc::ENETUNREACH), permission_denied: false };
    match linux.route_added(RouteRole::Server, Route::new(GATEWAY, 32), Err(broken)) {
        Err(RoutingTableError::AddRouteError(route, e)) => {
            assert_eq!(route.destination, GATEWAY);
            assert_eq!(e, broken);
        }
        other => panic!("{other:?}"),
    }
    assert!(linux.cleanup_sync().is_empty());
}

#[test]
fn there_is_one_server_route() {
    let mut linux = inner(Platform::Linux, RouteMode::Default, true, EXTERNAL_IP_V4);
    assert!(linux.check_role(RouteRole::Server).is_ok());
    linux
        .route_added(RouteRole::Server, Route::new(EXTERNAL_IP_V4, 32), Ok(()))
        .unwrap();
    assert!(matches!(
        linux.check_role(RouteRole::Server),
        Err(RoutingTableError::ServerRouteAlreadyExists)
    ));
    assert!(linux.check_role(RouteRole::Lan).is_ok());
    assert!(linux.check_role(RouteRole::Vpn).is_ok());
}

#[test]
fn cleanup_deletes_in_order() {
    let mut linux = inner(Platform::Linux, RouteMode::Lan, true, EXTERNAL_IP_V4);
    let add = |linux: &mut RouteManagerInner, role, ip| {
        linux
            .route_added(role, Route::new(IpAddr::V4(ip), 32), Ok(()))
            .unwrap()
    };
    add(&mut linux, RouteRole::Server, 1);
    add(&mut linux, RouteRole::Lan, 2);
    add(&mut linux, RouteRole::Vpn, 3);
    add(&mut linux, RouteRole::Vpn, 4);
    let order: Vec<IpAddr> = linux.cleanup_sync().iter().map(|r| r.destination).collect();
    assert_eq!(
        order,
        [IpAddr::V4(3), IpAddr::V4(4), IpAddr::V4(2), IpAddr::V4(1)]
    );
    // what is recorded stays recorded
    assert_eq!(linux.vpn_routes.len(), 2);
    assert_eq!(linux.lan_routes.len(), 1);
    assert!(linux.server_route.is_some());
}

#[test]
fn everything_installed_is_deleted() {
    let mut linux = inner(Platform::Linux, RouteMode::Lan, true, EXTERNAL_IP_V4);
    let found = route(IpAddr::V4(0), 0, Some(GATEWAY), Some(2));
    let mut installed: Vec<(IpAddr, u8)> = Vec::new();
    for planned in linux.install_routes(Ok(Some(found))).unwrap() {
        installed.push((planned.route.destination, planned.route.prefix));
        linux.route_added(planned.role, planned.route, Ok(())).unwrap();
    }
    let table = vec![listed(route(IpAddr::V6(0), 0, None, Some(3)), None)];
    let lan = linux.install_ipv6_lan_route(Ok(table)).unwrap();
    installed.push((lan.destination, lan.prefix));
    linux.route_added(RouteRole::Lan, lan, Ok(())).unwrap();
    for sink in linux.install_ipv6_sink(true) {
        assert!(sink.prefix < 8);
        installed.push((sink.destination, sink.prefix));
        linux.route_added(RouteRole::Vpn, sink, Ok(())).unwrap();
    }
    assert_eq!(installed.len(), 12);
    let deleted: Vec<(IpAddr, u8)> =
        linux.cleanup_sync().iter().map(|r| (r.destination, r.prefix)).collect();
    assert_eq!(deleted.len(), installed.len());
    for route in &installed {
        assert!(deleted.contains(route));
    }
}

#[test]
fn server_route_follows_the_default_route() {
    let mut updater = RouteUpdater {
        inner: inner(Platform::Linux, RouteMode::Default, true, EXTERNAL_IP_V4),
    };
    updater.inner.server_route =
        Some(route(EXTERNAL_IP_V4, 32, Some(GATEWAY), Some(3)));
    // no change
    let unchanged = updater
        .check_and_update_server_route(Ok(vec![default_via(3, None)]))
        .unwrap();
    assert!(unchanged.is_none());
    assert!(updater.inner.server_route.is_some());
    // another interface
    let change = updater
        .check_and_update_server_route(Ok(vec![default_via(4, None)]))
        .unwrap()
        .unwrap();
    assert_eq!(change.old_route.if_index, Some(3));
    assert_eq!(change.new_route.if_index, Some(4));
    assert_eq!(change.new_route.gateway, Some(GATEWAY));
    assert_eq!(change.new_route.destination, EXTERNAL_IP_V4);
    assert_eq!(change.new_route.prefix, 32);
    assert!(updater.inner.server_route.is_none());
    updater.inner.check_role(RouteRole::Server).unwrap();
    updater
        .inner
        .route_added(RouteRole::Server, change.new_route, Ok(()))
        .unwrap();
    // a second look changes nothing
    assert!(updater
        .check_and_update_server_route(Ok(vec![default_via(4, None)]))
        .unwrap()
        .is_none());
    // no default route
    assert!(matches!(
        updater.check_and_update_server_route(Ok(vec![])),
        Err(RoutingTableError::DefaultRouteNotFound)
    ));
}

#[test]
fn server_route_is_more_specific_than_all_others() {
    let linux = inner(Platform::Linux, RouteMode::Lan, true, EXTERNAL_IP_V6);
    let found = Ok(Some(route(IpAddr::V6(0), 0, None, Some(2))));
    let plan = linux.install_routes(found).unwrap();
    let server = &plan[0].route;
    assert!(server.contains(&EXTERNAL_IP_V6));
    for other in plan[1..].iter().map(|p| &p.route).chain(linux.install_ipv6_sink(true).iter()) {
        if other.contains(&EXTERNAL_IP_V6) {
            assert!(other.prefix < server.prefix);
        }
    }
}

#[test]
fn tunnel_routes_cover_ipv4_once() {
    let linux = inner(Platform::Linux, RouteMode::Default, true, EXTERNAL_IP_V4);
    let found = Ok(Some(route(IpAddr::V4(0), 0, None, Some(2))));
    let plan = linux.install_routes(found).unwrap();
    for ip in [0, 1, 0x7fff_ffff, 0x8000_0000, u32::MAX] {
        let covering = plan[1..3].iter().filter(|p| p.route.contains(&IpAddr::V4(ip))).count();
        assert_eq!(covering, 1);
    }
}
