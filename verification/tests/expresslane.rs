use bytes::{Bytes, BytesMut};
use lightway::action::{
    Action, Event, ExpresslaneTickData, HostAction, StatsUse, TickDelay, TickType,
};
use lightway::connection::{Connection, ConnectionMode, ConnectionType, State};
use lightway::error::ConnectionError;
use lightway::expresslane::{
    ExpresslaneState, EXPRESSLANE_MISSING_STATS_LIMIT, MAX_RETRANSMISSION_ATTEMPTS,
};
use lightway::inbound::VersionReading;
use lightway::lifecycle::NewConnectionArgs;
use lightway::time::Instant;
use lightway::tls;
use lightway::wire::{
    ExpresslaneConfig, ExpresslaneError, ExpresslaneKey, ExpresslaneVersion, Frame, SessionId,
    Version, KEEPALIVE_ID,
};
use rand::rngs::StdRng;
use rand::SeedableRng;

const NOW: Instant = Instant { nanos: 1_000 };
const SESSION: SessionId = SessionId { id: 0x1122 };
const V2: ExpresslaneVersion = ExpresslaneVersion::Known(2);
const KEY: ExpresslaneKey = ExpresslaneKey { upper: 1, lower: 2 };
const PEER_KEY: ExpresslaneKey = ExpresslaneKey { upper: 3, lower: 4 };
const NO_KEY: ExpresslaneKey = ExpresslaneKey { upper: 0, lower: 0 };
const SERVER: ConnectionMode = ConnectionMode::Server {
    has_auth_handle: false,
    key_update_pending: false,
    pending_session_id: None,
};
const OFFER: ExpresslaneConfig = ExpresslaneConfig {
    enabled: true,
    key: PEER_KEY,
    version: V2,
    ack: false,
    counter: 77,
};

fn online(mode: ConnectionMode) -> Connection<()> {
    let args = NewConnectionArgs {
        app_state: (),
        connection_type: ConnectionType::Datagram,
        protocol_version: Version { major: 1, minor: 3 },
        session_id: SESSION,
        mode,
        auth_method: Bytes::new(),
        outside_mtu: 1500,
        max_data_size: 1400,
        has_inside_io: true,
        pmtud: None,
        has_inside_pkt_codec: false,
        expresslane: true,
        publishes_expresslane_keys: true,
        expresslane_max_version: V2,
    };
    let mut conn = Connection::new(
        args,
        Ok(tls::Poll::PendingRead),
        NOW,
        StdRng::seed_from_u64(3),
    )
    .unwrap();
    conn.core.state = State::Online;
    conn.take_actions();
    conn
}

fn active() -> Connection<()> {
    let mut conn = online(ConnectionMode::Client);
    conn.core.expresslane.state = ExpresslaneState::Active;
    conn.core.expresslane.has_valid_keys = true;
    conn.core.expresslane.self_key = KEY;
    conn
}

fn receive(conn: &mut Connection<()>, config: ExpresslaneConfig) -> Vec<HostAction> {
    let reading = VersionReading {
        negotiated: V2,
        accepted: conn.expresslane_version_changes(V2),
    };
    conn.handle_frame(Frame::ExpresslaneConfig(config), reading, false)
        .unwrap();
    conn.take_actions()
}

#[test]
fn keys_are_exchanged() {
    let mut conn = online(ConnectionMode::Client);
    conn.rotate_expresslane_key(false).unwrap();
    assert!(conn.actions.is_empty());
    conn.rotate_expresslane_key(true).unwrap();
    assert!(matches!(conn.take_actions()[..], [Action::ShareExpresslaneKey]));
    conn.expresslane_key_installed(KEY, true, NOW);
    assert_eq!(conn.core.expresslane.last_key_rotation, Some(NOW));
    let config = match &conn.take_actions()[..] {
        [Action::Send {
            frame: Frame::ExpresslaneConfig(config),
            required: false,
        }, Action::ScheduleTick {
            delay: TickDelay::ExpresslaneRetransmit(0),
            tick: TickType::ExpresslaneKeyShareTick(ExpresslaneTickData(repeated)),
        }] => {
            assert_eq!(config, repeated);
            *config
        }
        other => panic!("{other:?}"),
    };
    assert_eq!(
        config,
        ExpresslaneConfig { enabled: true, key: KEY, version: V2, ack: false, counter: 1 }
    );
    // acknowledgements of other configurations do not count
    assert!(receive(&mut conn, ExpresslaneConfig { ack: true, counter: 2, ..config }).is_empty());
    let acked = receive(&mut conn, ExpresslaneConfig { ack: true, ..config });
    assert!(matches!(acked[..], [Action::PromoteSelfKey]));
    conn.expresslane_key_promoted(KEY, false);
    assert!(matches!(
        conn.take_actions()[..],
        [Action::PublishExpresslaneKey { session_id: SESSION, self_key: KEY, peer_key: NO_KEY, version: V2 }]
    ));
    assert_eq!(conn.core.expresslane.state, ExpresslaneState::Inactive);
    // the peer offers its key
    match receive(&mut conn, OFFER)[..] {
        [Action::InstallPeerKey(OFFER)] => {}
        ref other => panic!("{other:?}"),
    }
    conn.expresslane_peer_key_installed(OFFER, Ok(true), false).unwrap();
    match &conn.take_actions()[..] {
        [Action::PublishExpresslaneKey { peer_key: PEER_KEY, .. }, Action::Event(Event::ExpresslaneStateChanged(ExpresslaneState::Active)), Action::Send {
            frame: Frame::ExpresslaneConfig(answer),
            required: false,
        }] => assert_eq!(*answer, ExpresslaneConfig { ack: true, ..OFFER }),
        other => panic!("{other:?}"),
    }
    assert!(conn.core.expresslane_ready());
}

#[test]
fn waiting_servers_wake_up() {
    let mut conn = online(SERVER);
    assert!(!conn.core.expresslane_supported());
    conn.rotate_expresslane_key(true).unwrap();
    assert!(conn.actions.is_empty());
    let woken = receive(&mut conn, OFFER);
    assert!(matches!(
        woken[..],
        [
            Action::Event(Event::ExpresslaneStateChanged(ExpresslaneState::Inactive)),
            Action::InstallPeerKey(_)
        ]
    ));
    assert!(matches!(
        conn.expresslane_peer_key_installed(OFFER, Err(ExpresslaneError::SetKeyFailed), true),
        Err(ConnectionError::ExpresslaneError(ExpresslaneError::SetKeyFailed))
    ));
    conn.expresslane_peer_key_installed(OFFER, Ok(false), true).unwrap();
    assert!(matches!(
        conn.take_actions()[..],
        [
            Action::PublishExpresslaneKey { .. },
            Action::Send { frame: Frame::ExpresslaneConfig(_), required: false },
            Action::ShareExpresslaneKey,
        ]
    ));
}

#[test]
fn withdrawn_keys_deactivate() {
    let mut conn = active();
    let withdrawn = ExpresslaneConfig { enabled: false, ..OFFER };
    let actions = receive(&mut conn, withdrawn);
    assert!(matches!(
        actions[..],
        [
            Action::Event(Event::ExpresslaneStateChanged(ExpresslaneState::Inactive)),
            Action::Send { frame: Frame::ExpresslaneConfig(ExpresslaneConfig { ack: true, .. }), required: false },
        ]
    ));
    assert!(!conn.core.expresslane_ready());
}

#[test]
fn configurations_are_for_online_connections() {
    let mut conn = online(ConnectionMode::Client);
    conn.core.state = State::Authenticating;
    assert!(!conn.expresslane_version_changes(V2));
    assert!(matches!(
        conn.handle_expresslane_config(OFFER, V2, false, false),
        Err(ConnectionError::InvalidState)
    ));
    assert!(matches!(
        conn.expresslane_key_share_tick(ExpresslaneTickData(OFFER)),
        Err(ConnectionError::InvalidState)
    ));
}

#[test]
fn active_lanes_carry_packets() {
    let mut conn = active();
    let mut pkt = BytesMut::zeroed(60);
    pkt[0] = 0x45;
    conn.send_to_outside(&pkt, false).unwrap();
    match &conn.take_actions()[..] {
        [Action::SendExpresslane { session_id: SESSION, data, is_encoded: false }] => {
            assert_eq!(&data[..], &pkt[..])
        }
        other => panic!("{other:?}"),
    }
    // a server stamps with the session it is moving to
    let mut conn = online(SERVER);
    conn.core.expresslane.state = ExpresslaneState::Active;
    conn.core.expresslane.has_valid_keys = true;
    let new = SessionId { id: 9 };
    conn.begin_session_rotation(new);
    conn.take_actions();
    conn.send_to_outside(&pkt, true).unwrap();
    assert!(matches!(
        conn.take_actions()[..],
        [Action::SendExpresslane { session_id, is_encoded: true, .. }] if session_id == new
    ));
    // older protocol versions have no expresslane
    let mut conn = active();
    conn.core.tunnel_protocol_version = Version { major: 1, minor: 2 };
    conn.send_to_outside(&pkt, false).unwrap();
    assert!(matches!(conn.take_actions()[..], [Action::Send { .. }]));
}

fn counters(sent: u64, recv: u64) -> Bytes {
    let mut payload = sent.to_be_bytes().to_vec();
    payload.extend_from_slice(&recv.to_be_bytes());
    Bytes::from(payload)
}

/// One keepalive round trip with the given cumulative counters.
fn window(conn: &mut Connection<()>, peer: (u64, u64), own: Option<(u64, u64)>) -> Vec<HostAction> {
    conn.handle_pong(KEEPALIVE_ID, counters(peer.0, peer.1)).unwrap();
    let mut actions = conn.take_actions();
    match actions.pop() {
        Some(Action::ReadStats {
            session_id: SESSION,
            purpose: StatsUse::Health { peer_sent, peer_recv },
        }) => {
            assert_eq!((peer_sent, peer_recv), peer);
            conn.stats_read(StatsUse::Health { peer_sent, peer_recv }, own);
        }
        other => panic!("{other:?}"),
    }
    conn.take_actions()
}

#[test]
fn lossy_lanes_are_given_up() {
    let mut conn = active();
    for n in 1..=2u64 {
        // the peer sends, nothing arrives
        assert!(window(&mut conn, (100 * n, 0), Some((0, 0))).is_empty());
        assert_eq!(conn.core.expresslane.inbound_strikes, n as u8);
    }
    let actions = window(&mut conn, (300, 0), Some((0, 0)));
    match &actions[..] {
        [Action::Event(Event::ExpresslaneStateChanged(ExpresslaneState::Degraded)), Action::InvalidateNextSelfKey, Action::Send {
            frame: Frame::ExpresslaneConfig(config),
            required: false,
        }, Action::ScheduleTick {
            delay: TickDelay::ExpresslaneRetransmit(0),
            tick: TickType::ExpresslaneKeyShareTick(_),
        }] => assert_eq!(
            *config,
            ExpresslaneConfig { enabled: false, key: NO_KEY, version: V2, ack: false, counter: 1 }
        ),
        other => panic!("{other:?}"),
    }
    // degraded is terminal
    assert!(matches!(
        conn.rotate_expresslane_key(true),
        Err(ConnectionError::ExpreslaneDegraded)
    ));
    assert!(receive(&mut conn, OFFER).is_empty());
    let ack = ExpresslaneConfig { enabled: false, key: NO_KEY, version: V2, ack: true, counter: 1 };
    assert!(matches!(receive(&mut conn, ack)[..], [Action::PromoteSelfKey]));
    conn.expresslane_key_promoted(NO_KEY, true);
    assert_eq!(conn.core.expresslane.state, ExpresslaneState::Degraded);
}

#[test]
fn outbound_loss_counts_too() {
    let mut conn = active();
    for n in 1..=2u64 {
        assert!(window(&mut conn, (0, 0), Some((100 * n, 0))).is_empty());
    }
    // one good window takes a strike back
    assert!(window(&mut conn, (0, 100), Some((300, 0))).is_empty());
    assert_eq!(conn.core.expresslane.outbound_strikes, 1);
    assert!(window(&mut conn, (0, 100), Some((400, 0))).is_empty());
    assert!(!window(&mut conn, (0, 100), Some((500, 0))).is_empty());
    assert_eq!(conn.core.expresslane.state, ExpresslaneState::Degraded);
}

#[test]
fn counter_resets_read_as_loss() {
    let mut conn = active();
    assert!(window(&mut conn, (1000, 1000), Some((1000, 1000))).is_empty());
    // the peer's counters start over: the difference wraps
    assert!(window(&mut conn, (5, 5), Some((1010, 1010))).is_empty());
    assert_eq!(conn.core.expresslane.inbound_strikes, 1);
}

#[test]
fn missing_readings_are_tolerated_briefly() {
    let mut conn = active();
    for _ in 1..EXPRESSLANE_MISSING_STATS_LIMIT {
        assert!(window(&mut conn, (0, 0), None).is_empty());
    }
    // one reading clears the count
    assert!(window(&mut conn, (0, 0), Some((0, 0))).is_empty());
    assert_eq!(conn.core.expresslane.missing_local_readings, 0);
    for _ in 1..EXPRESSLANE_MISSING_STATS_LIMIT {
        assert!(window(&mut conn, (0, 0), None).is_empty());
    }
    assert!(!window(&mut conn, (0, 0), None).is_empty());
    assert_eq!(conn.core.expresslane.state, ExpresslaneState::Degraded);
}

#[test]
fn silent_peers_are_tolerated_briefly() {
    let mut conn = active();
    for n in 1..EXPRESSLANE_MISSING_STATS_LIMIT {
        conn.handle_pong(KEEPALIVE_ID, Bytes::new()).unwrap();
        assert_eq!(conn.core.expresslane.missing_peer_reports, n);
    }
    assert_eq!(conn.core.expresslane.state, ExpresslaneState::Active);
    conn.handle_pong(KEEPALIVE_ID, Bytes::from_static(b"not counters")).unwrap();
    assert_eq!(conn.core.expresslane.state, ExpresslaneState::Degraded);
}

#[test]
fn counters_travel_in_pings_and_pongs() {
    let mut conn = active();
    conn.keepalive().unwrap();
    assert!(matches!(
        conn.take_actions()[..],
        [Action::ReadStats { session_id: SESSION, purpose: StatsUse::Ping { required: true } }]
    ));
    conn.stats_read(StatsUse::Ping { required: true }, Some((0x0102, u64::MAX)));
    match &conn.take_actions()[..] {
        [Action::Send { frame: Frame::Ping { id: KEEPALIVE_ID, payload }, required: true }] => {
            assert_eq!(payload, &counters(0x0102, u64::MAX))
        }
        other => panic!("{other:?}"),
    }
    conn.handle_ping(KEEPALIVE_ID).unwrap();
    assert!(matches!(
        conn.take_actions()[..],
        [Action::ReadStats { purpose: StatsUse::Pong { id: KEEPALIVE_ID }, .. }]
    ));
    conn.stats_read(StatsUse::Pong { id: KEEPALIVE_ID }, None);
    match &conn.take_actions()[..] {
        [Action::Send { frame: Frame::Pong { id: KEEPALIVE_ID, payload }, required: true }] => {
            assert!(payload.is_empty())
        }
        other => panic!("{other:?}"),
    }
    // probes are answered without counters
    conn.handle_ping(5).unwrap();
    assert!(matches!(
        conn.take_actions()[..],
        [Action::Send { frame: Frame::Pong { id: 5, .. }, .. }]
    ));
}

#[test]
fn unacknowledged_configurations_are_repeated() {
    let mut conn = online(ConnectionMode::Client);
    conn.expresslane_key_installed(KEY, true, NOW);
    conn.take_actions();
    let config = ExpresslaneConfig { enabled: true, key: KEY, version: V2, ack: false, counter: 1 };
    let tick = TickType::ExpresslaneKeyShareTick(ExpresslaneTickData(config));
    // an older one is not
    conn.tick(TickType::ExpresslaneKeyShareTick(ExpresslaneTickData(
        ExpresslaneConfig { counter: 0, ..config },
    )))
    .unwrap();
    assert!(conn.actions.is_empty());
    for count in 1..=MAX_RETRANSMISSION_ATTEMPTS {
        conn.tick(tick).unwrap();
        match &conn.take_actions()[..] {
            [Action::ScheduleTick { delay: TickDelay::ExpresslaneRetransmit(n), tick: t }, Action::Send {
                frame: Frame::ExpresslaneConfig(repeated),
                required: true,
            }] => {
                assert_eq!((*n, *t, *repeated), (count, tick, config));
            }
            other => panic!("{other:?}"),
        }
    }
    conn.core.expresslane.state = ExpresslaneState::Active;
    conn.tick(tick).unwrap();
    assert_eq!(
        format!("{:?}", conn.take_actions()),
        format!(
            "{:?}",
            vec![HostAction::Event(Event::ExpresslaneStateChanged(ExpresslaneState::Inactive))]
        )
    );
    assert_eq!(conn.core.expresslane.last_key_rotation, None);
    // acknowledged in the meantime
    conn.core.expresslane.self_key = KEY;
    conn.core.expresslane.retransmit_count = 0;
    conn.tick(tick).unwrap();
    assert!(conn.actions.is_empty());
    // not supported
    conn.core.expresslane.state = ExpresslaneState::Disabled;
    assert!(matches!(
        conn.tick(tick),
        Err(ConnectionError::InvalidConnectionType)
    ));
}

#[test]
fn degrade_notices_stay_degraded() {
    let mut conn = active();
    conn.core.expresslane.state = ExpresslaneState::Degraded;
    conn.core.expresslane.config_counter = 4;
    conn.core.expresslane.retransmit_count = MAX_RETRANSMISSION_ATTEMPTS;
    let notice = ExpresslaneConfig { enabled: false, key: NO_KEY, version: V2, ack: false, counter: 4 };
    conn.expresslane_key_share_tick(ExpresslaneTickData(notice)).unwrap();
    assert!(conn.actions.is_empty());
    assert_eq!(conn.core.expresslane.state, ExpresslaneState::Degraded);
    // neither an offer nor a key of the peer brings it back
    assert!(receive(&mut conn, OFFER).is_empty());
    conn.expresslane_peer_key_installed(OFFER, Ok(true), true).unwrap();
    conn.expresslane_key_promoted(KEY, true);
    assert_eq!(conn.core.expresslane.state, ExpresslaneState::Degraded);
}

#[test]
fn sending_is_no_activity_of_the_peer() {
    let mut conn = active();
    let before = conn.activity();
    let mut pkt = BytesMut::zeroed(60);
    pkt[0] = 0x45;
    conn.inside_data_received(&pkt, 1350, true).unwrap();
    conn.send_to_outside(&pkt, false).unwrap();
    conn.keepalive().unwrap();
    conn.handle_ping(KEEPALIVE_ID).unwrap();
    conn.handle_pong(KEEPALIVE_ID, Bytes::new()).unwrap();
    assert_eq!(conn.activity(), before);
}

#[test]
fn configuration_numbers_start_over() {
    let mut conn = online(ConnectionMode::Client);
    conn.core.expresslane.config_counter = u64::MAX;
    conn.expresslane_key_installed(KEY, false, NOW);
    assert_eq!(conn.core.expresslane.config_counter, 0);
}
