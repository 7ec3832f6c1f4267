use bytes::{Bytes, BytesMut};
use lightway::action::{Action, Event, HostAction, TickDelay, TickType};
use lightway::auth::{ServerAuthHandle, ServerAuthResult};
use lightway::connection::{Connection, ConnectionMode, ConnectionType, State};
use lightway::error::ConnectionError;
use lightway::expresslane::ExpresslaneState;
use lightway::inbound::{frames_after, OutsideStep, VersionReading};
use lightway::inside_ip::{decimal_text, dotted_text, parse_ipv4, parse_usize, InsideIpConfig};
use lightway::lifecycle::NewConnectionArgs;
use lightway::net::{IpAddr, SocketAddr};
use lightway::pmtud::{
    pmtud_limits, PacketSizes, PmtudAction, PmtudReport, PmtudState, PmtudStatus, PmtudStep,
    BASE_PLPMTU,
};
use lightway::queue::MAX_TLS_PENDING_QUEUE_PACKETS;
use lightway::time::{Duration, Instant};
use lightway::tls;
use lightway::wire::{
    AuthSuccessWithConfigV4, ExpresslaneVersion, Frame, FromWireError, Header, SessionId, Version,
    EMPTY_SESSION_ID, KEEPALIVE_ID, REJECTED_SESSION_ID,
};
use rand::rngs::StdRng;
use rand::SeedableRng;

const NOW: Instant = Instant { nanos: 1_000 };
const LATER: Instant = Instant { nanos: 2_000 };
const V1_2: Version = Version { major: 1, minor: 2 };
const V1_3: Version = Version { major: 1, minor: 3 };
const SESSION: SessionId = SessionId { id: 0x1122 };
const OTHER_SESSION: SessionId = SessionId { id: 0x3344 };
const READING: VersionReading = VersionReading {
    negotiated: ExpresslaneVersion::Unknown,
    accepted: false,
};
const SERVER: ConnectionMode = ConnectionMode::Server {
    has_auth_handle: false,
    key_update_pending: false,
    pending_session_id: None,
};
const CONFIG: InsideIpConfig = InsideIpConfig {
    client_ip: 0x0a7d_0002,
    server_ip: 0x0a7d_0001,
    dns_ip: 0x0a7d_00fe,
};
const SEARCHING: PmtudReport = PmtudReport {
    status: PmtudStatus {
        state: PmtudState::Searching,
        plpmtu: Some(1250),
    },
    maximum_packet_sizes: None,
};
const SETTLED: PmtudReport = PmtudReport {
    status: PmtudStatus {
        state: PmtudState::SearchComplete,
        plpmtu: Some(1400),
    },
    maximum_packet_sizes: Some(PacketSizes {
        data: 1390,
        fragment: 1380,
    }),
};

fn args(connection_type: ConnectionType, mode: ConnectionMode) -> NewConnectionArgs<u8> {
    NewConnectionArgs {
        app_state: 42,
        connection_type,
        protocol_version: V1_2,
        session_id: SESSION,
        mode,
        auth_method: Bytes::from_static(b"secret"),
        outside_mtu: 1500,
        max_data_size: 1400,
        has_inside_io: true,
        pmtud: None,
        has_inside_pkt_codec: false,
        expresslane: false,
        publishes_expresslane_keys: true,
        expresslane_max_version: ExpresslaneVersion::Known(2),
    }
}

fn build(args: NewConnectionArgs<u8>) -> Connection<u8> {
    let mut conn = Connection::new(
        args,
        Ok(tls::Poll::PendingRead),
        NOW,
        StdRng::seed_from_u64(7),
    )
    .unwrap();
    conn.take_actions();
    conn
}

fn server(connection_type: ConnectionType) -> Connection<u8> {
    let mut conn = build(args(connection_type, SERVER));
    assert!(conn.negotiated(Ok(tls::Poll::Ready(()))).unwrap());
    conn.take_actions();
    conn
}

fn client(connection_type: ConnectionType) -> Connection<u8> {
    let mut conn = build(args(connection_type, ConnectionMode::Client));
    assert!(conn.negotiated(Ok(tls::Poll::Ready(()))).unwrap());
    conn.take_actions();
    conn
}

fn success(mtu: &str) -> AuthSuccessWithConfigV4<String> {
    AuthSuccessWithConfigV4 {
        local_ip: "10.125.0.2".to_string(),
        peer_ip: "10.125.0.1".to_string(),
        dns_ip: "10.125.0.254".to_string(),
        mtu: mtu.to_string(),
        session: SESSION,
    }
}

fn online(mut conn: Connection<u8>) -> Connection<u8> {
    match conn.core.mode {
        ConnectionMode::Client => conn.handle_auth_response(success("1350"), false).unwrap(),
        ConnectionMode::Server { .. } => conn.finish_authentication(None, false).unwrap(),
    }
    assert_eq!(conn.state(), State::Online);
    conn.take_actions();
    conn
}

fn events(actions: &[HostAction]) -> Vec<Event> {
    actions
        .iter()
        .filter_map(|action| match action {
            Action::Event(event) => Some(*event),
            _ => None,
        })
        .collect()
}

#[test]
fn new_connections_begin_connecting() {
    let conn = Connection::new(
        args(ConnectionType::Datagram, ConnectionMode::Client),
        Ok(tls::Poll::PendingWrite),
        NOW,
        StdRng::seed_from_u64(1),
    )
    .unwrap();
    assert_eq!(conn.state(), State::Connecting);
    assert_eq!(conn.session_id(), SESSION);
    assert_eq!(conn.connection_type(), ConnectionType::Datagram);
    assert_eq!(conn.tunnel_protocol_version(), V1_2);
    assert_eq!(*conn.app_state(), 42);
    assert_eq!(conn.tick_interval(), None);
    assert_eq!(conn.pmtud_status(), None);
    assert_eq!(conn.pending_session_id(), None);
    assert_eq!(conn.activity().last_outside_data_received, NOW);
    assert_eq!(conn.core.expresslane.state, ExpresslaneState::Disabled);
    assert!(matches!(conn.actions[..], [Action::UpdateTickInterval]));
}

#[test]
fn expresslane_begins_by_mode() {
    let mut a = args(ConnectionType::Datagram, ConnectionMode::Client);
    a.expresslane = true;
    assert_eq!(build(a).core.expresslane.state, ExpresslaneState::Inactive);
    let mut a = args(ConnectionType::Datagram, SERVER);
    a.expresslane = true;
    assert_eq!(
        build(a).core.expresslane.state,
        ExpresslaneState::WaitingForClient
    );
}

#[test]
fn path_mtu_discovery_is_for_datagrams() {
    let mut a = args(ConnectionType::Stream, ConnectionMode::Client);
    a.pmtud = Some(SEARCHING);
    assert_eq!(build(a).pmtud_status(), None);
    let mut a = args(ConnectionType::Datagram, ConnectionMode::Client);
    a.pmtud = Some(SEARCHING);
    assert_eq!(build(a).pmtud_status(), Some(SEARCHING.status));
    assert_eq!(pmtud_limits(ConnectionType::Stream, true, None, 0), None);
    assert_eq!(pmtud_limits(ConnectionType::Datagram, false, None, 0), None);
    assert_eq!(
        pmtud_limits(ConnectionType::Datagram, true, None, 1500),
        Some((BASE_PLPMTU, 1419))
    );
    assert_eq!(
        pmtud_limits(ConnectionType::Datagram, true, Some(1300), 1500),
        Some((1300, 1419))
    );
}

#[test]
fn failed_negotiation_fails_the_connection() {
    let error = tls::Error::Fatal(tls::ErrorKind::PeerClosed);
    let r = Connection::new(
        args(ConnectionType::Datagram, ConnectionMode::Client),
        Err(error),
        NOW,
        StdRng::seed_from_u64(1),
    );
    assert!(matches!(r, Err(ConnectionError::Tls(e)) if e == error));
}

#[test]
fn immediate_link_authenticates_a_client() {
    let conn = Connection::new(
        args(ConnectionType::Datagram, ConnectionMode::Client),
        Ok(tls::Poll::Ready(())),
        NOW,
        StdRng::seed_from_u64(1),
    )
    .unwrap();
    assert_eq!(conn.state(), State::Authenticating);
    match &conn.actions[..] {
        [Action::Event(Event::StateChanged(State::LinkUp)), Action::Event(Event::StateChanged(State::Authenticating)), Action::Send {
            frame: Frame::AuthRequest(credentials),
            required: true,
        }, Action::UpdateTickInterval] => assert_eq!(&credentials[..], b"secret"),
        other => panic!("{other:?}"),
    }
}

#[test]
fn servers_wait_with_the_link_up() {
    let mut conn = build(args(ConnectionType::Stream, SERVER));
    assert!(conn.negotiated(Ok(tls::Poll::Ready(()))).unwrap());
    assert_eq!(conn.state(), State::LinkUp);
    assert_eq!(events(&conn.actions), [Event::StateChanged(State::LinkUp)]);
}

#[test]
fn negotiation_that_needs_more_data_updates_the_tick() {
    let mut conn = build(args(ConnectionType::Datagram, SERVER));
    assert!(!conn.negotiated(Ok(tls::Poll::PendingRead)).unwrap());
    assert!(matches!(conn.actions[..], [Action::UpdateTickInterval]));
    assert!(!conn
        .negotiated(Ok(tls::Poll::AppData(Bytes::new())))
        .unwrap());
    assert_eq!(conn.actions.len(), 1);
    let error = tls::Error::Transient(-3);
    assert!(matches!(
        conn.negotiated(Err(error)),
        Err(ConnectionError::Tls(e)) if e == error
    ));
}

#[test]
fn tick_intervals_are_scaled() {
    let timers = |version, quick_timeout| tls::DtlsTimers {
        current_timeout: Duration::from_millis(2_000),
        version,
        quick_timeout,
    };
    let mut conn = build(args(ConnectionType::Datagram, ConnectionMode::Client));
    conn.update_tick_interval(timers(tls::ProtocolVersion::DtlsV1_2, true));
    assert_eq!(conn.tick_interval(), Some(Duration::from_millis(200)));
    assert!(matches!(
        conn.actions[..],
        [Action::ScheduleTick {
            delay: TickDelay::After(d),
            tick: TickType::ConnectionTick
        }] if d == Duration::from_millis(200)
    ));
    // while a tick is under way no other is scheduled
    conn.update_tick_interval(timers(tls::ProtocolVersion::DtlsV1_3, true));
    assert_eq!(conn.tick_interval(), Some(Duration::from_millis(50)));
    assert_eq!(conn.actions.len(), 1);
    conn.update_tick_interval(timers(tls::ProtocolVersion::DtlsV1_3, false));
    assert_eq!(conn.tick_interval(), Some(Duration::from_millis(200)));

    let mut stream = build(args(ConnectionType::Stream, ConnectionMode::Client));
    stream.update_tick_interval(timers(tls::ProtocolVersion::TlsV1_3, false));
    assert_eq!(stream.tick_interval(), None);

    let mut up = online(server(ConnectionType::Datagram));
    up.update_tick_interval(timers(tls::ProtocolVersion::DtlsV1_3, false));
    assert_eq!(up.tick_interval(), None);
    up.set_key_update_pending(true);
    up.update_tick_interval(timers(tls::ProtocolVersion::DtlsV1_3, false));
    assert_eq!(up.tick_interval(), Some(Duration::from_millis(200)));
}

#[test]
fn ticks_repeat_the_authentication_request() {
    let mut conn = client(ConnectionType::Datagram);
    conn.tick(TickType::ConnectionTick).unwrap();
    assert!(matches!(
        conn.actions[..],
        [
            Action::Send { frame: Frame::AuthRequest(_), required: true },
            Action::UpdateTickInterval
        ]
    ));
}

#[test]
fn ticks_look_at_the_session() {
    let mut conn = build(args(ConnectionType::Datagram, ConnectionMode::Client));
    conn.connection_tick().unwrap();
    assert!(matches!(conn.take_actions()[..], [Action::CheckDtlsTimeout]));
    conn.dtls_timeout_polled(tls::Poll::Ready(false)).unwrap();
    assert!(matches!(conn.take_actions()[..], [Action::UpdateTickInterval]));
    let mut stream = build(args(ConnectionType::Stream, ConnectionMode::Client));
    stream.connection_tick().unwrap();
    assert!(matches!(stream.take_actions()[..], [Action::UpdateTickInterval]));
}

#[test]
fn timeouts_disconnect() {
    let mut conn = online(client(ConnectionType::Datagram));
    assert!(matches!(
        conn.dtls_timeout_polled(tls::Poll::Ready(true)),
        Err(ConnectionError::TimedOut)
    ));
    assert_eq!(conn.state(), State::Disconnected);
    assert!(matches!(
        conn.connection_tick(),
        Err(ConnectionError::Disconnected)
    ));
}

#[test]
fn authenticating_servers_make_no_sense() {
    let mut conn = build(args(ConnectionType::Datagram, SERVER));
    conn.core.state = State::Authenticating;
    assert!(matches!(
        conn.connection_tick(),
        Err(ConnectionError::InvalidMode)
    ));
}

#[test]
fn disconnecting_says_goodbye() {
    let mut conn = online(server(ConnectionType::Datagram));
    conn.disconnect().unwrap();
    assert!(matches!(
        conn.actions[..],
        [
            Action::Event(Event::StateChanged(State::Disconnecting)),
            Action::FreeClientIp,
            Action::Send { frame: Frame::Goodbye, required: false },
            Action::Shutdown,
            Action::Event(Event::StateChanged(State::Disconnected)),
        ]
    ));
    assert!(matches!(
        conn.disconnect(),
        Err(ConnectionError::InvalidState)
    ));
    assert!(matches!(
        conn.outside_data_received(),
        Err(ConnectionError::Disconnected)
    ));
    let mut early = build(args(ConnectionType::Datagram, ConnectionMode::Client));
    assert!(matches!(
        early.disconnect(),
        Err(ConnectionError::InvalidState)
    ));
    let mut gone = online(client(ConnectionType::Stream));
    gone.disconnect().unwrap();
    assert!(!gone.actions.iter().any(|a| matches!(a, Action::FreeClientIp)));
}

#[test]
fn protocol_version_is_the_servers_to_set() {
    let mut conn = client(ConnectionType::Datagram);
    assert!(matches!(
        conn.set_tunnel_protocol_version(V1_3),
        Err(ConnectionError::InvalidMode)
    ));
    let mut conn = server(ConnectionType::Datagram);
    conn.set_tunnel_protocol_version(V1_3).unwrap();
    assert_eq!(conn.tunnel_protocol_version(), V1_3);
    let mut conn = online(conn);
    conn.set_tunnel_protocol_version(V1_3).unwrap();
    assert!(matches!(
        conn.set_tunnel_protocol_version(V1_2),
        Err(ConnectionError::InvalidState)
    ));
}

#[test]
fn offloaded_traffic_counts_as_activity() {
    let mut conn = online(client(ConnectionType::Datagram));
    conn.mark_offload_activity(false, false, LATER, false);
    assert_eq!(conn.activity().last_outside_data_received, NOW);
    conn.mark_offload_activity(false, true, LATER, false);
    assert_eq!(conn.activity().last_outside_data_received, LATER);
    assert_eq!(conn.activity().last_data_traffic_from_peer, NOW);
    conn.mark_offload_activity(true, false, LATER, false);
    assert_eq!(conn.activity().last_data_traffic_from_peer, LATER);
}

#[test]
fn moved_peers_publish_the_keys() {
    let addr = |port| SocketAddr {
        ip: IpAddr::V4(1),
        port,
        flowinfo: 0,
        scope_id: 0,
    };
    let mut conn = online(client(ConnectionType::Datagram));
    assert_eq!(conn.set_peer_addr(addr(1), addr(1)), addr(1));
    assert!(conn.actions.is_empty());
    assert_eq!(conn.set_peer_addr(addr(2), addr(1)), addr(1));
    assert!(matches!(
        conn.actions[..],
        [Action::PublishExpresslaneKey { session_id: SESSION, .. }]
    ));
}

#[test]
fn small_setters() {
    let mut conn = online(client(ConnectionType::Datagram));
    *conn.app_state_mut() = 43;
    assert_eq!(*conn.app_state(), 43);
    conn.core.has_inside_io = false;
    conn.inside_io();
    assert!(conn.core.has_inside_io);
    conn.set_outside_io(LATER);
    assert_eq!(conn.activity().last_data_delivered_to_inside, LATER);
    conn.set_key_update_pending(true);
    assert_eq!(conn.core.mode, ConnectionMode::Client);
    assert!(!conn.is_encoding_enabled(true));
}

#[test]
fn authentication_expires_with_its_handle() {
    let conn = client(ConnectionType::Datagram);
    assert!(matches!(
        conn.authentication_expired(true),
        Err(ConnectionError::InvalidMode)
    ));
    let mut conn = server(ConnectionType::Datagram);
    assert!(!conn.authentication_expired(true).unwrap());
    grant(&mut conn, Some(ServerAuthHandle { inside_pkt_codec: false }));
    assert!(conn.authentication_expired(true).unwrap());
    assert!(!conn.authentication_expired(false).unwrap());
}

fn grant(conn: &mut Connection<u8>, handle: Option<ServerAuthHandle>) {
    conn.authorization_decided(
        CONFIG,
        1350,
        ServerAuthResult::Granted {
            tunnel_protocol_version: Some(V1_3),
            handle,
        },
    )
    .unwrap();
}

#[test]
fn servers_let_clients_in() {
    let mut conn = server(ConnectionType::Datagram);
    conn.handle_frame(Frame::AuthRequest(Bytes::from_static(b"who")), READING, false)
        .unwrap();
    let auth_method = match &conn.take_actions()[..] {
        [Action::AllocateClientIp { auth_method }] => auth_method.clone(),
        other => panic!("{other:?}"),
    };
    conn.client_ip_allocated(auth_method, Some(CONFIG)).unwrap();
    match &conn.take_actions()[..] {
        [Action::Authorize { auth_method, ip_config: CONFIG }] => {
            assert_eq!(&auth_method[..], b"who")
        }
        other => panic!("{other:?}"),
    }
    grant(&mut conn, Some(ServerAuthHandle { inside_pkt_codec: true }));
    assert!(conn.core.can_use_inside_pkt_encoding);
    match &conn.take_actions()[..] {
        [Action::StartKeyUpdateTimer, Action::Send {
            frame: Frame::AuthSuccessWithConfigV4(cfg),
            required: true,
        }, Action::FinishAuthentication(Some(V1_3))] => {
            assert_eq!(cfg.local_ip, "10.125.0.2");
            assert_eq!(cfg.peer_ip, "10.125.0.1");
            assert_eq!(cfg.dns_ip, "10.125.0.254");
            assert_eq!(cfg.mtu, "1350");
            assert_eq!(cfg.session, SESSION);
        }
        other => panic!("{other:?}"),
    }
    assert_eq!(conn.state(), State::LinkUp);
    conn.finish_authentication(Some(V1_3), false).unwrap();
    assert_eq!(conn.state(), State::Online);
    assert_eq!(conn.tunnel_protocol_version(), V1_3);
    assert!(matches!(
        conn.take_actions()[..],
        [
            Action::Event(Event::StateChanged(State::Online)),
            Action::SetAggressiveSend(false)
        ]
    ));
    // asked again, because the answer was lost
    conn.handle_auth_request(Bytes::from_static(b"who")).unwrap();
    // a grant without a handle keeps the permission as it was
    grant(&mut conn, None);
    assert!(conn.core.can_use_inside_pkt_encoding);
    assert!(!conn.authentication_expired(true).unwrap());
    assert!(matches!(
        conn.finish_authentication(Some(V1_2), false),
        Err(ConnectionError::InvalidState)
    ));
}

#[test]
fn servers_refuse_clients() {
    let refused = |conn: &Connection<u8>| {
        assert_eq!(conn.state(), State::Disconnected);
        assert!(matches!(
            conn.actions[..],
            [
                Action::Send { frame: Frame::AuthFailure, required: false },
                Action::Event(Event::StateChanged(State::Disconnecting)),
                Action::FreeClientIp,
                Action::Send { frame: Frame::Goodbye, required: false },
                Action::Shutdown,
                Action::Event(Event::StateChanged(State::Disconnected)),
            ]
        ));
    };
    let mut conn = server(ConnectionType::Datagram);
    assert!(matches!(
        conn.client_ip_allocated(Bytes::new(), None),
        Err(ConnectionError::NoAvailableClientIp)
    ));
    refused(&conn);
    let mut conn = server(ConnectionType::Datagram);
    conn.core.has_inside_io = false;
    assert!(matches!(
        conn.client_ip_allocated(Bytes::new(), Some(CONFIG)),
        Err(ConnectionError::InvalidInsideIo)
    ));
    refused(&conn);
    let mut conn = server(ConnectionType::Datagram);
    assert!(matches!(
        conn.authorization_decided(CONFIG, 1350, ServerAuthResult::Denied),
        Err(ConnectionError::AccessDenied)
    ));
    refused(&conn);
}

#[test]
fn authentication_requests_have_their_place() {
    let mut conn = client(ConnectionType::Datagram);
    assert!(matches!(
        conn.handle_auth_request(Bytes::new()),
        Err(ConnectionError::InvalidMode)
    ));
    let mut conn = build(args(ConnectionType::Datagram, SERVER));
    assert!(matches!(
        conn.handle_auth_request(Bytes::new()),
        Err(ConnectionError::InvalidState)
    ));
}

#[test]
fn clients_take_what_they_get() {
    let mut conn = client(ConnectionType::Datagram);
    conn.handle_frame(
        Frame::AuthSuccessWithConfigV4(success("1350")),
        READING,
        false,
    )
    .unwrap();
    assert_eq!(conn.state(), State::Online);
    assert!(matches!(
        conn.take_actions()[..],
        [
            Action::ApplyIpConfig(CONFIG),
            Action::Event(Event::StateChanged(State::Online)),
            Action::SetAggressiveSend(false),
        ]
    ));
    // a repeated answer is ignored, whatever it says
    conn.handle_auth_response(
        AuthSuccessWithConfigV4 {
            local_ip: "nonsense".to_string(),
            ..success("1350")
        },
        false,
    )
    .unwrap();
    assert!(conn.actions.is_empty());
}

#[test]
fn bad_addresses_are_refused() {
    for bad in ["", "10.125.0", "10.125.0.256", "10.125.0.02", "10.125.0.2 ", "10.125.0.2.1", "a.b.c.d", "10..0.2"] {
        let mut conn = client(ConnectionType::Datagram);
        let cfg = AuthSuccessWithConfigV4 {
            local_ip: bad.to_string(),
            ..success("1350")
        };
        assert!(matches!(
            conn.handle_auth_response(cfg, false),
            Err(ConnectionError::InvalidInsideIpConfig)
        ));
        assert_eq!(conn.state(), State::Authenticating);
    }
}

#[test]
fn narrow_paths_need_discovery() {
    let mut conn = client(ConnectionType::Datagram);
    assert!(matches!(
        conn.handle_auth_response(success("1420"), false),
        Err(ConnectionError::PathMtuDiscoveryRequired {
            inside_mtu: 1420,
            required_outside_mtu: 1501
        })
    ));
    let huge = usize::MAX.to_string();
    assert!(matches!(
        conn.handle_auth_response(success(&huge), false),
        Err(ConnectionError::PathMtuDiscoveryRequired {
            inside_mtu: usize::MAX,
            required_outside_mtu: usize::MAX
        })
    ));
    // exactly as much as fits
    conn.handle_auth_response(success("1419"), false).unwrap();
    // what is not a number is not looked at
    let mut conn = client(ConnectionType::Datagram);
    conn.handle_auth_response(success("many"), false).unwrap();
    // over a stream it does not matter
    let mut conn = client(ConnectionType::Stream);
    conn.handle_auth_response(success("9000"), false).unwrap();
    // nor with discovery
    let mut a = args(ConnectionType::Datagram, ConnectionMode::Client);
    a.pmtud = Some(SEARCHING);
    let mut conn = build(a);
    conn.handle_auth_response(success("9000"), false).unwrap();
    assert!(conn
        .actions
        .iter()
        .any(|a| matches!(a, Action::DrivePmtud(PmtudStep::Online))));
}

#[test]
fn servers_are_not_let_in() {
    let mut conn = server(ConnectionType::Datagram);
    assert!(matches!(
        conn.handle_auth_response(success("1350"), false),
        Err(ConnectionError::InvalidMode)
    ));
}

#[test]
fn numbers_and_addresses_in_text() {
    assert_eq!(decimal_text(0), "0");
    assert_eq!(decimal_text(10), "10");
    assert_eq!(decimal_text(usize::MAX), usize::MAX.to_string());
    assert_eq!(dotted_text(0xff00_0a64), "255.0.10.100");
    let number = |text: &str| parse_usize(&text.to_string());
    for text in ["0", "1350", "+7", "007", "", "+", "-1", "1 ", "12a", "18446744073709551615", "18446744073709551616", "99999999999999999999999", "++1"] {
        assert_eq!(number(text), text.parse::<usize>().ok(), "{text}");
    }
    let address = |text: &str| parse_ipv4(&text.to_string());
    assert_eq!(address("0.0.0.0"), Some(0));
    assert_eq!(address("255.255.255.255"), Some(u32::MAX));
    assert_eq!(address("1.2.3.4"), Some(0x0102_0304));
    for text in ["01.2.3.4", "1.2.3", "1.2.3.4.5", "256.1.1.1", "1.2.3.", ".1.2.3", "1,2,3,4", "1.2.3.4x", "1.2.3.1000", "", "1.2.3.4 "] {
        assert_eq!(address(text), None, "{text}");
    }
}

#[test]
fn frames_that_end_a_connection() {
    let mut conn = client(ConnectionType::Datagram);
    assert!(matches!(
        conn.handle_frame(Frame::AuthFailure, READING, false),
        Err(ConnectionError::Unauthorized)
    ));
    assert!(matches!(
        conn.handle_frame(Frame::Goodbye, READING, false),
        Err(ConnectionError::Goodbye)
    ));
    conn.handle_frame(Frame::NoOp, READING, false).unwrap();
    conn.handle_frame(Frame::ServerConfig, READING, false).unwrap();
    assert!(conn.actions.is_empty());
}

#[test]
fn first_packets_are_announced_to_clients() {
    let mut conn = client(ConnectionType::Datagram);
    conn.outside_data_received().unwrap();
    conn.outside_data_received().unwrap();
    assert_eq!(events(&conn.actions), [Event::FirstPacketReceived]);
    let mut conn = server(ConnectionType::Datagram);
    conn.outside_data_received().unwrap();
    assert!(conn.actions.is_empty());
}

fn header(version: Version, session: SessionId) -> Option<Header> {
    Some(Header {
        version,
        expresslane_data: false,
        session,
    })
}

#[test]
fn servers_check_headers() {
    let conn = server(ConnectionType::Datagram);
    conn.check_outside_packet(header(V1_2, SESSION), true).unwrap();
    conn.check_outside_packet(None, true).unwrap();
    assert!(matches!(
        conn.check_outside_packet(header(V1_3, SESSION), true),
        Err(ConnectionError::InvalidProtocolVersion)
    ));
    let rejected = SessionId { id: REJECTED_SESSION_ID };
    assert!(matches!(
        conn.check_outside_packet(header(V1_2, rejected), true),
        Err(ConnectionError::RejectedSessionID)
    ));
    assert!(matches!(
        conn.check_outside_packet(header(V1_2, SESSION), false),
        Err(ConnectionError::RejectedSessionID)
    ));
    let conn = client(ConnectionType::Datagram);
    conn.check_outside_packet(header(V1_3, rejected), true).unwrap();
    assert!(matches!(
        conn.check_outside_packet(header(V1_3, rejected), false),
        Err(ConnectionError::RejectedSessionID)
    ));
}

#[test]
fn payloads_go_where_the_state_says() {
    let mut conn = build(args(ConnectionType::Datagram, SERVER));
    let plain = header(V1_2, SESSION);
    assert_eq!(
        conn.process_new_outside_data(plain, LATER),
        OutsideStep::Negotiate
    );
    assert_eq!(conn.activity().last_outside_data_received, LATER);
    assert!(conn.drops_unused_bytes());
    let mut conn = server(ConnectionType::Stream);
    assert!(!conn.drops_unused_bytes());
    assert_eq!(
        conn.process_new_outside_data(None, LATER),
        OutsideStep::ReadMessages
    );
    let express = Some(Header {
        version: V1_2,
        expresslane_data: true,
        session: SESSION,
    });
    assert_eq!(
        conn.process_new_outside_data(express, LATER),
        OutsideStep::Decrypt
    );
    let mut conn = online(conn);
    assert_eq!(
        conn.process_new_outside_data(plain, LATER),
        OutsideStep::ReadMessages
    );
    conn.disconnect().unwrap();
    assert_eq!(
        conn.process_new_outside_data(plain, LATER),
        OutsideStep::Refuse
    );
}

#[test]
fn parsing_runs_out_of_data_without_error() {
    assert!(matches!(
        Connection::<u8>::frame_parsed(Err(FromWireError::InsufficientData), 3),
        Ok(None)
    ));
    assert!(matches!(
        Connection::<u8>::frame_parsed(Ok(Frame::NoOp), 3),
        Ok(Some((Frame::NoOp, 4)))
    ));
    assert!(matches!(
        Connection::<u8>::frame_parsed(Err(FromWireError::UnknownFrameType), 3),
        Err(ConnectionError::WireError(FromWireError::UnknownFrameType))
    ));
}

#[test]
fn valid_frames_of_a_datagram_are_counted() {
    let mut frames_read: usize = 0;
    for parsed in [
        Ok(Frame::NoOp),
        Err(FromWireError::InsufficientData),
        Ok(Frame::Goodbye),
    ] {
        if let Some((_, n)) = Connection::<u8>::frame_parsed(parsed, frames_read).unwrap() {
            frames_read = n;
        }
    }
    assert_eq!(frames_read, 2);
    assert_eq!(frames_after(OutsideStep::Decrypt, false, 0).unwrap(), 1);
    assert_eq!(frames_after(OutsideStep::Negotiate, false, 2).unwrap(), 0);
    assert_eq!(frames_after(OutsideStep::Negotiate, true, 2).unwrap(), 2);
    assert_eq!(frames_after(OutsideStep::ReadMessages, false, 2).unwrap(), 2);
    assert_eq!(frames_after(OutsideStep::ReadMessages, true, 0).unwrap(), 0);
    assert!(matches!(
        frames_after(OutsideStep::Refuse, true, 2),
        Err(ConnectionError::InvalidState)
    ));
}

#[test]
fn sessions_wait_for_valid_frames() {
    let other = SessionId { id: 77 };
    let mut conn = online(client(ConnectionType::Datagram));
    conn.outside_data_received().unwrap();
    let _ = conn.process_new_outside_data(header(V1_2, other), LATER);
    conn.handle_frame(Frame::NoOp, READING, false).unwrap();
    conn.handle_frame(
        Frame::Ping { id: 3, payload: Bytes::new() },
        READING,
        false,
    )
    .unwrap();
    assert_eq!(conn.session_id(), SESSION);
    conn.outside_data_processed(header(V1_2, other), 0);
    assert_eq!(conn.session_id(), SESSION);
    conn.outside_data_processed(header(V1_2, other), 2);
    assert_eq!(conn.session_id(), other);
    let mut conn = online(server(ConnectionType::Datagram));
    conn.begin_session_rotation(other);
    conn.handle_frame(Frame::NoOp, READING, false).unwrap();
    conn.outside_data_processed(header(V1_2, other), 0);
    assert_eq!(conn.session_id(), SESSION);
    assert_eq!(conn.pending_session_id(), Some(other));
    conn.outside_data_processed(header(V1_2, other), 1);
    assert_eq!(conn.session_id(), other);
    assert_eq!(conn.pending_session_id(), None);
}

#[test]
fn early_data_are_kept() {
    let mut conn = server(ConnectionType::Stream);
    conn.receive_buf.extend_from_slice(b"ab");
    assert!(conn
        .tls_read(Ok(tls::Poll::AppData(Bytes::from_static(b"cd"))))
        .unwrap());
    assert_eq!(&conn.receive_buf[..], b"abcd");
    assert!(conn.tls_read(Ok(tls::Poll::Ready(()))).unwrap());
    assert!(!conn.tls_read(Ok(tls::Poll::PendingRead)).unwrap());
    assert!(!conn.tls_read(Ok(tls::Poll::PendingWrite)).unwrap());
    let error = tls::Error::Transient(1);
    assert!(matches!(
        conn.tls_read(Err(error)),
        Err(ConnectionError::Tls(e)) if e == error
    ));
}

#[test]
fn fatal_packets_end_a_batch() {
    type Conn = Connection<u8>;
    assert_eq!(
        Conn::multiple_outside_data_received(3, Ok(2), false).unwrap(),
        5
    );
    assert_eq!(
        Conn::multiple_outside_data_received(3, Err(ConnectionError::InvalidState), false).unwrap(),
        3
    );
    assert!(matches!(
        Conn::multiple_outside_data_received(3, Err(ConnectionError::Goodbye), true),
        Err(ConnectionError::Goodbye)
    ));
    // whether an error would be fatal does not matter where there is none
    assert_eq!(Conn::multiple_outside_data_received(3, Ok(2), true).unwrap(), 5);
}

#[test]
fn several_packets_are_tallied() {
    type Conn = Connection<()>;
    let mut total: usize = 0;
    for received in [Ok(2), Err(ConnectionError::InvalidState), Ok(0), Ok(3)] {
        total = Conn::multiple_outside_data_received(total, received, false).unwrap();
    }
    assert_eq!(total, 5);
    // the first fatal error is what is returned
    let outcomes = [
        (Ok(2), false),
        (Err(ConnectionError::InvalidState), false),
        (Err(ConnectionError::Goodbye), true),
        (Err(ConnectionError::TimedOut), true),
    ];
    let mut tally = Ok(0);
    for (received, is_fatal) in outcomes {
        tally = match tally {
            Ok(total) => Conn::multiple_outside_data_received(total, received, is_fatal),
            Err(error) => Err(error),
        };
    }
    assert!(matches!(tally, Err(ConnectionError::Goodbye)));
}

#[test]
fn clients_follow_the_session_id() {
    let mut conn = online(client(ConnectionType::Datagram));
    conn.outside_data_processed(header(V1_2, OTHER_SESSION), 0);
    conn.outside_data_processed(None, 1);
    conn.outside_data_processed(header(V1_2, SessionId { id: EMPTY_SESSION_ID }), 1);
    conn.outside_data_processed(header(V1_2, SESSION), 1);
    assert!(conn.actions.is_empty());
    conn.outside_data_processed(header(V1_2, OTHER_SESSION), 1);
    assert_eq!(conn.session_id(), OTHER_SESSION);
    assert!(matches!(
        conn.actions[..],
        [
            Action::SetSessionId(OTHER_SESSION),
            Action::PublishExpresslaneKey { session_id: OTHER_SESSION, .. }
        ]
    ));
}

#[test]
fn session_id_rotation() {
    let mut conn = online(client(ConnectionType::Datagram));
    assert!(matches!(
        conn.rotate_session_id(),
        Err(ConnectionError::InvalidMode)
    ));
    let mut conn = online(server(ConnectionType::Datagram));
    let new = conn.rotate_session_id().unwrap();
    assert_ne!(new, SESSION);
    assert_eq!(conn.pending_session_id(), Some(new));
    assert_eq!(conn.session_id(), SESSION);
    match &conn.take_actions()[..] {
        [Action::SetSessionId(id), Action::Event(Event::SessionIdRotationStarted { old: SESSION, new: n }), Action::Send {
            frame: Frame::Ping { id: KEEPALIVE_ID, payload },
            required: false,
        }] => {
            assert_eq!(*id, new);
            assert_eq!(*n, new);
            assert!(payload.is_empty());
        }
        other => panic!("{other:?}"),
    }
    // a second rotation is the first one
    assert_eq!(conn.rotate_session_id().unwrap(), new);
    assert!(conn.actions.is_empty());
    // another identifier does not complete it
    conn.update_session_id(Some(OTHER_SESSION));
    assert_eq!(conn.session_id(), SESSION);
    conn.update_session_id(Some(new));
    assert_eq!(conn.session_id(), new);
    assert_eq!(conn.pending_session_id(), None);
    assert_eq!(
        events(&conn.actions),
        [Event::SessionIdRotationAcknowledged { old: SESSION, new }]
    );
}

#[test]
fn keepalives_are_for_online_connections() {
    let mut conn = client(ConnectionType::Datagram);
    conn.keepalive().unwrap();
    assert!(conn.actions.is_empty());
    assert!(matches!(
        conn.handle_ping(KEEPALIVE_ID),
        Err(ConnectionError::InvalidState)
    ));
    assert!(matches!(
        conn.handle_pong(KEEPALIVE_ID, Bytes::new()),
        Err(ConnectionError::InvalidState)
    ));
    let mut conn = online(conn);
    conn.keepalive().unwrap();
    assert!(matches!(
        conn.take_actions()[..],
        [Action::Send { frame: Frame::Ping { id: KEEPALIVE_ID, .. }, required: true }]
    ));
    conn.handle_frame(
        Frame::Ping { id: 9, payload: Bytes::from_static(b"padding") },
        READING,
        false,
    )
    .unwrap();
    match &conn.take_actions()[..] {
        [Action::Send { frame: Frame::Pong { id: 9, payload }, required: true }] => {
            assert!(payload.is_empty())
        }
        other => panic!("{other:?}"),
    }
    conn.handle_pong(KEEPALIVE_ID, Bytes::new()).unwrap();
    assert_eq!(events(&conn.take_actions()), [Event::KeepaliveReply]);
}

#[test]
fn path_mtu_discovery_steps() {
    let mut a = args(ConnectionType::Datagram, ConnectionMode::Client);
    a.pmtud = Some(SEARCHING);
    let mut conn = build(a);
    conn.pmtud_tick().unwrap();
    assert!(conn.actions.is_empty());
    let mut conn = online(conn);
    conn.pmtud_tick().unwrap();
    assert!(matches!(
        conn.take_actions()[..],
        [Action::DrivePmtud(PmtudStep::Tick)]
    ));
    conn.pmtud_stepped(SEARCHING, PmtudAction::SendProbe { id: 5, size: 3 });
    match &conn.take_actions()[..] {
        [Action::SendProbe { frame: Frame::Ping { id: 5, payload } }] => {
            assert_eq!(&payload[..], [0, 0, 0])
        }
        other => panic!("{other:?}"),
    }
    conn.pmtud_stepped(SETTLED, PmtudAction::Wait);
    assert_eq!(
        events(&conn.take_actions()),
        [Event::PmtudStateChanged(SETTLED.status)]
    );
    assert_eq!(conn.pmtud_status(), Some(SETTLED.status));
    conn.handle_pong(5, Bytes::from_static(b"x")).unwrap();
    match &conn.take_actions()[..] {
        [Action::DrivePmtud(PmtudStep::PongReceived { id: 5, payload })] => {
            assert_eq!(&payload[..], b"x")
        }
        other => panic!("{other:?}"),
    }
    let mut without = online(client(ConnectionType::Datagram));
    without.pmtud_stepped(SETTLED, PmtudAction::SendProbe { id: 5, size: 3 });
    assert!(without.actions.is_empty());
}

#[test]
fn tls_keys_are_updated_by_servers_that_speak_1_3() {
    let mut conn = online(server(ConnectionType::Datagram));
    assert!(conn.should_update_tls_keys(tls::ProtocolVersion::DtlsV1_3, true));
    assert!(conn.should_update_tls_keys(tls::ProtocolVersion::TlsV1_3, true));
    assert!(!conn.should_update_tls_keys(tls::ProtocolVersion::DtlsV1_2, true));
    assert!(!conn.should_update_tls_keys(tls::ProtocolVersion::DtlsV1_3, false));
    conn.tls_key_update_triggered(Ok(tls::Poll::PendingWrite)).unwrap();
    assert!(!conn.may_complete_tls_key_update(true));
    assert!(conn.may_complete_tls_key_update(false));
    conn.tls_key_update_checked(false);
    conn.tls_key_update_checked(true);
    assert!(matches!(
        conn.take_actions()[..],
        [
            Action::Event(Event::TlsKeysUpdateStart),
            Action::UpdateTickInterval,
            Action::Event(Event::TlsKeysUpdateCompleted),
            Action::UpdateTickInterval,
        ]
    ));
    conn.tls_key_update_triggered(Ok(tls::Poll::AppData(Bytes::new()))).unwrap();
    assert!(conn.actions.is_empty());
    let error = tls::Error::Transient(4);
    assert!(matches!(
        conn.tls_key_update_triggered(Err(error)),
        Err(ConnectionError::Tls(e)) if e == error
    ));
    let mut conn = online(client(ConnectionType::Datagram));
    assert!(!conn.should_update_tls_keys(tls::ProtocolVersion::DtlsV1_3, true));
    assert!(!conn.may_complete_tls_key_update(false));
    conn.tls_key_update_checked(true);
    assert!(conn.actions.is_empty());
}

fn tcp_packet() -> Bytes {
    let mut pkt = vec![0u8; 40];
    pkt[0] = 0x45;
    pkt[9] = 6;
    Bytes::from(pkt)
}

#[test]
fn queue_limits() {
    let buffer = || BytesMut::from(&b"frame"[..]);
    let mut conn = online(client(ConnectionType::Stream));
    let tcp = Frame::Data(tcp_packet());
    assert!(conn.queue_admits(&tcp));
    conn.enqueue(buffer());
    assert!(!conn.queue_admits(&tcp));
    for _ in 1..MAX_TLS_PENDING_QUEUE_PACKETS {
        assert!(conn.queue_admits(&Frame::Goodbye));
        conn.enqueue(buffer());
    }
    assert!(!conn.queue_admits(&Frame::Goodbye));
    let mut udp = tcp_packet().to_vec();
    udp[9] = 17;
    let mut conn = online(client(ConnectionType::Stream));
    conn.enqueue(buffer());
    assert!(conn.queue_admits(&Frame::Data(Bytes::from(udp))));
    assert!(conn.queue_admits(&Frame::EncodedData(tcp_packet())));
    let mut conn = online(client(ConnectionType::Datagram));
    assert!(conn.queue_admits(&Frame::Goodbye));
    conn.enqueue(buffer());
    assert!(!conn.queue_admits(&Frame::Goodbye));
}

#[test]
fn queued_bytes_leave_in_order() {
    let mut conn = online(client(ConnectionType::Stream));
    conn.enqueue(BytesMut::from(&b"one"[..]));
    conn.enqueue(BytesMut::from(&b"two"[..]));
    // blocked: the same buffer is offered again
    let head = conn.next_pending().unwrap();
    assert_eq!(&head[..], b"one");
    assert!(!conn.write_completed(head, Ok(tls::Poll::PendingWrite)).unwrap());
    // written in part: the rest comes first
    let mut head = conn.next_pending().unwrap();
    let _ = head.split_to(1);
    assert!(!conn.write_completed(head, Ok(tls::Poll::Ready(()))).unwrap());
    let head = conn.next_pending().unwrap();
    assert_eq!(&head[..], b"ne");
    // written in full: the next one follows
    assert!(conn
        .write_completed(BytesMut::new(), Ok(tls::Poll::Ready(())))
        .unwrap());
    let head = conn.next_pending().unwrap();
    assert_eq!(&head[..], b"two");
    // data in between: the buffer is gone
    assert!(conn
        .write_completed(head, Ok(tls::Poll::AppData(Bytes::new())))
        .unwrap());
    assert!(conn.next_pending().is_none());
    let error = tls::Error::Fatal(tls::ErrorKind::PeerClosed);
    assert!(matches!(
        conn.write_completed(BytesMut::new(), Err(error)),
        Err(ConnectionError::Tls(e)) if e == error
    ));
}
