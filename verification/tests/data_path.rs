use bytes::{Bytes, BytesMut};
use lightway::action::{Action, Event, TickDelay, TickType};
use lightway::connection::{Connection, ConnectionMode, ConnectionType, State};
use lightway::error::{ConnectionError, InvalidPacketError};
use lightway::gso::{GsoEnd, GsoPlan};
use lightway::inbound::{FragmentMapResult, VersionReading};
use lightway::lifecycle::NewConnectionArgs;
use lightway::net::OsError;
use lightway::outbound::{CodecStatus, IOCallbackResult, IngressNext, IngressPlan, PluginResult};
use lightway::pmtud::{PacketSizes, PmtudReport, PmtudState, PmtudStatus};
use lightway::time::{Duration, Instant};
use lightway::tls;
use lightway::wire::{
    DataFrag, EncodingRequest, EncodingResponse, ExpresslaneError, ExpresslaneVersion, Frame,
    FromWireError, SessionId, Version,
};
use rand::rngs::StdRng;
use rand::SeedableRng;

const NOW: Instant = Instant { nanos: 1_000 };
const LATER: Instant = Instant { nanos: 5_000_000_000 };
const SESSION: SessionId = SessionId { id: 0x1122 };
const READING: VersionReading = VersionReading {
    negotiated: ExpresslaneVersion::Unknown,
    accepted: false,
};
const SERVER: ConnectionMode = ConnectionMode::Server {
    has_auth_handle: false,
    key_update_pending: false,
    pending_session_id: None,
};
const SMALL_PATH: PmtudReport = PmtudReport {
    status: PmtudStatus {
        state: PmtudState::SearchComplete,
        plpmtu: Some(140),
    },
    maximum_packet_sizes: Some(PacketSizes {
        data: 100,
        fragment: 30,
    }),
};

fn connection(connection_type: ConnectionType, mode: ConnectionMode, codec: bool) -> Connection<()> {
    let args = NewConnectionArgs {
        app_state: (),
        connection_type,
        protocol_version: Version { major: 1, minor: 3 },
        session_id: SESSION,
        mode,
        auth_method: Bytes::new(),
        outside_mtu: 1500,
        max_data_size: 1400,
        has_inside_io: true,
        pmtud: None,
        has_inside_pkt_codec: codec,
        expresslane: false,
        publishes_expresslane_keys: false,
        expresslane_max_version: ExpresslaneVersion::Known(2),
    };
    let mut conn = Connection::new(
        args,
        Ok(tls::Poll::PendingRead),
        NOW,
        StdRng::seed_from_u64(3),
    )
    .unwrap();
    conn.core.state = State::Online;
    conn.take_actions();
    conn
}

fn online() -> Connection<()> {
    connection(ConnectionType::Datagram, ConnectionMode::Client, false)
}

fn packet(len: usize) -> BytesMut {
    let mut pkt = BytesMut::zeroed(len);
    pkt[0] = 0x45;
    for i in 1..len {
        pkt[i] = i as u8;
    }
    pkt
}

#[test]
fn inside_packets_are_checked() {
    let mut conn = online();
    assert_eq!(
        conn.inside_data_received(&packet(1350), 1350, false).unwrap(),
        IngressPlan { clamp_mss: None }
    );
    assert!(matches!(
        conn.inside_data_received(&packet(1351), 1350, false),
        Err(ConnectionError::InvalidInsidePacket(
            InvalidPacketError::InvalidPacketSize
        ))
    ));
    assert!(matches!(
        conn.inside_data_received(&BytesMut::from(&[0x60][..]), 1350, false),
        Err(ConnectionError::InvalidInsidePacket(
            InvalidPacketError::UnsupportedIpv6Packet
        ))
    ));
    assert!(matches!(
        conn.inside_data_received(&BytesMut::new(), 1350, false),
        Err(ConnectionError::InvalidInsidePacket(
            InvalidPacketError::InvalidIpv4Packet
        ))
    ));
    // the MTU of the inside path can change between two packets
    assert!(matches!(
        conn.inside_data_received(&packet(1350), 1280, false),
        Err(ConnectionError::InvalidInsidePacket(
            InvalidPacketError::InvalidPacketSize
        ))
    ));
    conn.inside_data_received(&packet(1351), 1400, false).unwrap();
    conn.core.has_inside_io = false;
    assert!(matches!(
        conn.inside_data_received(&packet(100), 1350, false),
        Err(ConnectionError::InvalidState)
    ));
    assert!(matches!(
        conn.inside_data_received_gso(&packet(100), false),
        Err(ConnectionError::InvalidState)
    ));
    conn.core.has_inside_io = true;
    conn.core.state = State::LinkUp;
    assert!(matches!(
        conn.inside_data_received(&packet(100), 1350, false),
        Err(ConnectionError::InvalidState)
    ));
    conn.core.state = State::Disconnected;
    assert!(matches!(
        conn.inside_data_received(&packet(100), 1350, false),
        Err(ConnectionError::Disconnected)
    ));
    assert!(matches!(
        conn.inside_data_received_gso(&packet(100), false),
        Err(ConnectionError::Disconnected)
    ));
}

#[test]
fn tcp_is_held_to_the_path() {
    let mut conn = online();
    conn.core.pmtud = Some(SMALL_PATH);
    assert_eq!(
        conn.inside_data_received(&packet(50), 1350, false).unwrap(),
        IngressPlan { clamp_mss: Some(60) }
    );
}

#[test]
fn plugins_decide_on_inside_packets() {
    let conn = online();
    assert_eq!(
        conn.ingress_done(PluginResult::Accept).unwrap(),
        IngressNext::Send
    );
    assert_eq!(
        conn.ingress_done(PluginResult::Drop).unwrap(),
        IngressNext::Dropped
    );
    assert!(matches!(
        conn.ingress_done(PluginResult::DropWithReply(BytesMut::from(&b"no"[..]))),
        Err(ConnectionError::PluginDropWithReply(reply)) if &reply[..] == b"no"
    ));
    assert!(matches!(
        conn.ingress_done(PluginResult::Error("bad".to_string())),
        Err(ConnectionError::PluginError(text)) if text == "bad"
    ));
    let coded = connection(ConnectionType::Datagram, ConnectionMode::Client, true);
    assert_eq!(
        coded.ingress_done(PluginResult::Accept).unwrap(),
        IngressNext::Encode
    );
}

#[test]
fn encoders_take_or_leave_packets() {
    let mut conn = connection(ConnectionType::Datagram, ConnectionMode::Client, true);
    conn.encoder_done(&packet(60), Ok(CodecStatus::PacketAccepted))
        .unwrap();
    assert!(conn.actions.is_empty());
    conn.encoder_done(&packet(60), Ok(CodecStatus::SkipPacket))
        .unwrap();
    match &conn.take_actions()[..] {
        [Action::Send { frame: Frame::Data(data), required: true }] => {
            assert_eq!(&data[..], &packet(60)[..])
        }
        other => panic!("{other:?}"),
    }
    assert!(matches!(
        conn.encoder_done(&packet(60), Err("full".to_string())),
        Err(ConnectionError::PacketCodecError(text)) if text == "full"
    ));
}

#[test]
fn packets_travel_in_frames() {
    let mut conn = online();
    conn.send_to_outside(&packet(1400), true).unwrap();
    assert!(matches!(
        conn.take_actions()[..],
        [Action::Send { frame: Frame::EncodedData(_), required: true }]
    ));
    assert!(matches!(
        conn.send_to_outside(&packet(1401), false),
        Err(ConnectionError::InvalidInsidePacket(
            InvalidPacketError::InvalidPacketSize
        ))
    ));
    let mut stream = connection(ConnectionType::Stream, ConnectionMode::Client, false);
    stream.send_to_outside(&packet(1401), false).unwrap();
    conn.core.state = State::LinkUp;
    assert!(matches!(
        conn.send_to_outside(&packet(60), false),
        Err(ConnectionError::InvalidState)
    ));
}

fn slices(conn: &mut Connection<()>) -> Vec<DataFrag<Bytes>> {
    conn.take_actions()
        .into_iter()
        .map(|action| match action {
            Action::Send {
                frame: Frame::DataFrag(frag),
                required: true,
            } => frag,
            other => panic!("{other:?}"),
        })
        .collect()
}

#[test]
fn long_packets_travel_in_slices() {
    let mut conn = online();
    conn.core.pmtud = Some(SMALL_PATH);
    conn.send_to_outside(&packet(100), false).unwrap();
    assert!(matches!(
        conn.take_actions()[..],
        [Action::Send { frame: Frame::Data(_), .. }]
    ));
    conn.send_to_outside(&packet(101), false).unwrap();
    let frags = slices(&mut conn);
    let shape: Vec<(u16, usize, usize, bool)> = frags
        .iter()
        .map(|f| (f.id, f.offset, f.data.len(), f.more_fragments))
        .collect();
    assert_eq!(
        shape,
        [
            (1, 0, 30, true),
            (1, 30, 30, true),
            (1, 60, 30, true),
            (1, 90, 11, false)
        ]
    );
    let whole: Vec<u8> = frags.iter().flat_map(|f| f.data.to_vec()).collect();
    assert_eq!(whole, packet(101).to_vec());
    // a whole number of slices
    conn.send_to_outside(&packet(120), false).unwrap();
    let frags = slices(&mut conn);
    assert_eq!(frags.len(), 4);
    assert!(!frags[3].more_fragments);
    assert_eq!(frags[3].id, 2);
    // encoded packets in encoded slices
    conn.send_to_outside(&packet(101), true).unwrap();
    assert!(conn
        .take_actions()
        .iter()
        .all(|a| matches!(a, Action::Send { frame: Frame::EncodedDataFrag(_), .. })));
    // identifiers start over
    conn.core.fragment_counter = u16::MAX;
    conn.send_to_outside(&packet(101), false).unwrap();
    assert_eq!(slices(&mut conn)[0].id, 0);
    assert!(matches!(
        conn.send_to_outside(&packet(65536), false),
        Err(ConnectionError::InvalidInsidePacket(
            InvalidPacketError::InvalidPacketSize
        ))
    ));
}

#[test]
fn superpackets_are_planned() {
    let invalid = |r: Result<Option<GsoPlan>, ConnectionError>| {
        assert!(matches!(
            r,
            Err(ConnectionError::InvalidInsidePacket(
                InvalidPacketError::InvalidGsoPacket
            ))
        ));
    };
    let mut conn = online();
    conn.inside_data_received_gso(&packet(9000), false).unwrap();
    invalid(conn.send_to_outside_gso(9000, None, 1200, 1350));
    invalid(conn.send_to_outside_gso(9000, Some(40), 0, 1350));
    invalid(conn.send_to_outside_gso(9000, Some(151), 1200, 1350));
    assert_eq!(conn.send_to_outside_gso(40, Some(40), 1200, 1350).unwrap(), None);
    assert_eq!(
        conn.send_to_outside_gso(9000, Some(150), 1200, 1350).unwrap(),
        Some(GsoPlan { segments: 8, batched: true, expresslane: false })
    );
    assert_eq!(
        conn.send_to_outside_gso(65535, Some(40), 536, 1350).unwrap(),
        Some(GsoPlan { segments: 123, batched: false, expresslane: false })
    );
}

#[test]
fn segments_are_sent_until_one_fails() {
    let batch = GsoPlan { segments: 2, batched: true, expresslane: false };
    let single = GsoPlan { segments: 99, batched: false, expresslane: false };
    let mut conn = online();
    conn.core.pmtud = Some(SMALL_PATH);
    // a batch carries segments whole, even where the path would slice them
    conn.send_gso_segment(batch, Some(&packet(110))).unwrap();
    assert!(matches!(
        conn.take_actions()[..],
        [Action::Send { frame: Frame::Data(_), .. }]
    ));
    conn.send_gso_segment(single, Some(&packet(110))).unwrap();
    assert_eq!(slices(&mut conn).len(), 4);
    assert!(matches!(
        conn.send_gso_segment(batch, None),
        Err(ConnectionError::InvalidInsidePacket(
            InvalidPacketError::InvalidGsoPacket
        ))
    ));
    assert_eq!(
        Connection::<()>::gso_done(batch, false),
        GsoEnd { flush: false, reset: true }
    );
    assert_eq!(
        Connection::<()>::gso_done(batch, true),
        GsoEnd { flush: true, reset: true }
    );
    assert_eq!(conn.activity().last_data_traffic_from_peer, NOW);
    assert_eq!(
        Connection::<()>::gso_done(single, true),
        GsoEnd { flush: false, reset: false }
    );
}

#[test]
fn batches_leave_in_order() {
    let batch = GsoPlan { segments: 3, batched: true, expresslane: false };
    let mut conn = online();
    for len in [60, 60, 44] {
        conn.send_gso_segment(batch, Some(&packet(len))).unwrap();
    }
    let sent: Vec<usize> = conn
        .take_actions()
        .iter()
        .map(|action| match action {
            Action::Send { frame: Frame::Data(data), required: true } => data.len(),
            other => panic!("{other:?}"),
        })
        .collect();
    assert_eq!(sent, [60, 60, 44]);
}

#[test]
fn encoders_see_superpackets_whole() {
    type Conn = Connection<()>;
    assert!(!Conn::encoder_done_gso(Ok(CodecStatus::PacketAccepted)).unwrap());
    assert!(Conn::encoder_done_gso(Ok(CodecStatus::SkipPacket)).unwrap());
    assert!(matches!(
        Conn::encoder_done_gso(Err("full".to_string())),
        Err(ConnectionError::PacketCodecError(text)) if text == "full"
    ));
}

#[test]
fn full_sockets_are_no_error() {
    type Conn = Connection<()>;
    Conn::expresslane_data_sent(IOCallbackResult::Sent(3)).unwrap();
    Conn::expresslane_data_sent(IOCallbackResult::WouldBlock).unwrap();
    let e = OsError { raw_os_error: Some(5), permission_denied: false };
    assert!(matches!(
        Conn::expresslane_data_sent(IOCallbackResult::Failed(e)),
        Err(ConnectionError::OutsideIoWriteError(x)) if x == e
    ));
}

#[test]
fn failed_encryption_is_reported() {
    type Conn = Connection<()>;
    assert!(matches!(
        Conn::expresslane_data_encrypted(Err(ExpresslaneError::NoKey)),
        Err(ConnectionError::ExpresslaneError(ExpresslaneError::NoKey))
    ));
    Conn::expresslane_data_encrypted(Ok(())).unwrap();
}

#[test]
fn initialisation_vectors_differ() {
    let mut conn = online();
    assert_ne!(conn.next_expresslane_iv(), conn.next_expresslane_iv());
    assert_ne!(conn.next_expresslane_key(), conn.next_expresslane_key());
}

#[test]
fn outside_data_go_inside() {
    let mut conn = online();
    conn.handle_frame(Frame::Data(packet(60).freeze()), READING, false)
        .unwrap();
    match &conn.take_actions()[..] {
        [Action::DeliverInside(pkt)] => assert_eq!(&pkt[..], &packet(60)[..]),
        other => panic!("{other:?}"),
    }
    assert!(conn.egress_done(PluginResult::Accept, LATER).unwrap());
    assert_eq!(conn.activity().last_data_delivered_to_inside, LATER);
    assert_eq!(conn.activity().last_data_traffic_from_peer, LATER);
    assert!(!conn.egress_done(PluginResult::Drop, LATER).unwrap());
    assert!(matches!(
        conn.egress_done(PluginResult::Error("bad".to_string()), LATER),
        Err(ConnectionError::PluginError(text)) if text == "bad"
    ));
    assert!(matches!(
        conn.egress_done(PluginResult::DropWithReply(BytesMut::new()), LATER),
        Err(ConnectionError::PluginDropWithReply(_))
    ));
}

#[test]
fn only_ipv4_goes_inside() {
    let mut conn = online();
    assert!(matches!(
        conn.send_to_inside(BytesMut::from(&[0x60][..])),
        Err(ConnectionError::InvalidInsidePacket(
            InvalidPacketError::UnsupportedIpv6Packet
        ))
    ));
    conn.core.has_inside_io = false;
    assert!(matches!(
        conn.send_to_inside(packet(60)),
        Err(ConnectionError::InvalidInsideIo)
    ));
    assert!(conn.actions.is_empty());
    conn.core.state = State::LinkUp;
    assert!(matches!(
        conn.send_to_inside(packet(60)),
        Err(ConnectionError::InvalidState)
    ));
    assert!(matches!(
        conn.handle_outside_data_packet(packet(60).freeze(), true),
        Err(ConnectionError::InvalidState)
    ));
}

#[test]
fn encoded_data_need_a_decoder() {
    let mut conn = online();
    assert!(matches!(
        conn.handle_frame(Frame::EncodedData(packet(60).freeze()), READING, false),
        Err(ConnectionError::PacketCodecDoesNotExist)
    ));
    let mut conn = connection(ConnectionType::Datagram, ConnectionMode::Client, true);
    conn.handle_frame(Frame::EncodedData(packet(60).freeze()), READING, false)
        .unwrap();
    assert!(matches!(conn.take_actions()[..], [Action::DecodePacket(_)]));
    conn.packet_decoded(packet(60).freeze(), Ok(CodecStatus::PacketAccepted))
        .unwrap();
    assert!(conn.actions.is_empty());
    conn.packet_decoded(packet(60).freeze(), Ok(CodecStatus::SkipPacket))
        .unwrap();
    assert!(matches!(conn.take_actions()[..], [Action::DeliverInside(_)]));
    assert!(matches!(
        conn.packet_decoded(Bytes::new(), Err("broken".to_string())),
        Err(ConnectionError::PacketCodecError(text)) if text == "broken"
    ));
}

#[test]
fn slices_are_put_together() {
    let frag = |id| DataFrag {
        id,
        offset: 0,
        data: Bytes::from_static(b"x"),
        more_fragments: true,
    };
    let mut conn = online();
    conn.handle_frame(Frame::DataFrag(frag(4)), READING, false).unwrap();
    conn.handle_frame(Frame::EncodedDataFrag(frag(5)), READING, false).unwrap();
    assert!(matches!(
        conn.take_actions()[..],
        [
            Action::AddFragment { frag: DataFrag { id: 4, .. }, is_encoded: false },
            Action::AddFragment { frag: DataFrag { id: 5, .. }, is_encoded: true }
        ]
    ));
    conn.fragment_added(FragmentMapResult::Incomplete, false).unwrap();
    assert!(conn.actions.is_empty());
    conn.fragment_added(FragmentMapResult::Complete(packet(60)), false).unwrap();
    assert!(matches!(conn.take_actions()[..], [Action::DeliverInside(_)]));
    assert!(matches!(
        conn.fragment_added(FragmentMapResult::Failed("overlap".to_string()), false),
        Err(ConnectionError::DataFragmentError(text)) if text == "overlap"
    ));
    conn.core.state = State::LinkUp;
    assert!(matches!(
        conn.handle_outside_data_fragment(frag(6), false),
        Err(ConnectionError::InvalidState)
    ));
}

#[test]
fn expresslane_packets_are_delivered() {
    let mut conn = online();
    conn.expresslane_decrypted(Ok((packet(60), false))).unwrap();
    assert!(matches!(conn.take_actions()[..], [Action::DeliverInside(_)]));
    assert!(matches!(
        conn.expresslane_decrypted(Err(ExpresslaneError::Replayed)),
        Err(ConnectionError::WireError(FromWireError::ReplayedExpressData))
    ));
}

fn codec_client() -> Connection<()> {
    connection(ConnectionType::Datagram, ConnectionMode::Client, true)
}

fn codec_server() -> Connection<()> {
    let mut conn = connection(ConnectionType::Datagram, SERVER, true);
    conn.core.can_use_inside_pkt_encoding = true;
    conn
}

#[test]
fn encoding_is_agreed_on() {
    let mut client = codec_client();
    client.set_encoding(true).unwrap();
    let request = match &client.take_actions()[..] {
        [Action::ScheduleTick {
            delay: TickDelay::CodecRetransmit(0),
            tick: TickType::PktCodecTick(1),
        }, Action::Send {
            frame: Frame::EncodingRequest(request),
            required: true,
        }] => *request,
        other => panic!("{other:?}"),
    };
    assert_eq!(request, EncodingRequest { id: 1, enable: true });
    let mut server = codec_server();
    server
        .handle_frame(Frame::EncodingRequest(request), READING, false)
        .unwrap();
    let response = match &server.take_actions()[..] {
        [Action::SetEncodingState(true), Action::Event(Event::EncodingStateChanged { enabled: true }), Action::Send {
            frame: Frame::EncodingResponse(response),
            required: true,
        }] => *response,
        other => panic!("{other:?}"),
    };
    client
        .handle_frame(Frame::EncodingResponse(response), READING, false)
        .unwrap();
    assert!(matches!(
        client.take_actions()[..],
        [
            Action::SetEncodingState(true),
            Action::Event(Event::EncodingStateChanged { enabled: true })
        ]
    ));
    // answered once
    client.process_encoding_response_pkt(response).unwrap();
    assert!(client.actions.is_empty());
    // older requests are passed over, repeated ones are not
    server.core.encoding_request_states.id_counter = 2;
    server.process_encoding_request_pkt(request).unwrap();
    assert!(server.actions.is_empty());
    server.core.encoding_request_states.id_counter = 1;
    server.process_encoding_request_pkt(request).unwrap();
    assert_eq!(server.actions.len(), 3);
}

#[test]
fn encoding_requests_have_their_place() {
    let request = EncodingRequest { id: 9, enable: true };
    let mut plain = connection(ConnectionType::Datagram, SERVER, false);
    plain.process_encoding_request_pkt(request).unwrap();
    assert!(plain.actions.is_empty());
    let mut barred = codec_server();
    barred.core.can_use_inside_pkt_encoding = false;
    barred.process_encoding_request_pkt(request).unwrap();
    assert!(matches!(
        barred.actions[..],
        [Action::Send {
            frame: Frame::EncodingResponse(EncodingResponse { id: 9, enable: false }),
            required: true
        }]
    ));
    let mut early = codec_server();
    early.core.state = State::LinkUp;
    assert!(matches!(
        early.process_encoding_request_pkt(request),
        Err(ConnectionError::InvalidState)
    ));
    let mut stream = codec_server();
    stream.core.connection_type = ConnectionType::Stream;
    assert!(matches!(
        stream.process_encoding_request_pkt(request),
        Err(ConnectionError::InvalidConnectionType)
    ));
    let mut client = codec_client();
    client.core.can_use_inside_pkt_encoding = true;
    assert!(matches!(
        client.process_encoding_request_pkt(request),
        Err(ConnectionError::InvalidMode)
    ));
}

#[test]
fn encoding_responses_have_their_place() {
    let response = EncodingResponse { id: 1, enable: true };
    let mut plain = online();
    assert!(matches!(
        plain.process_encoding_response_pkt(response),
        Err(ConnectionError::PacketCodecDoesNotExist)
    ));
    assert!(matches!(
        plain.set_encoding(true),
        Err(ConnectionError::PacketCodecDoesNotExist)
    ));
    assert!(matches!(
        plain.codec_tick(1),
        Err(ConnectionError::PacketCodecDoesNotExist)
    ));
    let mut early = codec_client();
    early.core.state = State::Authenticating;
    assert!(matches!(
        early.process_encoding_response_pkt(response),
        Err(ConnectionError::InvalidState)
    ));
    assert!(matches!(early.set_encoding(true), Err(ConnectionError::InvalidState)));
    assert!(matches!(early.codec_tick(1), Err(ConnectionError::InvalidState)));
    let mut stream = connection(ConnectionType::Stream, ConnectionMode::Client, true);
    assert!(matches!(
        stream.process_encoding_response_pkt(response),
        Err(ConnectionError::InvalidConnectionType)
    ));
    assert!(matches!(
        stream.set_encoding(true),
        Err(ConnectionError::InvalidConnectionType)
    ));
    assert!(matches!(
        stream.codec_tick(1),
        Err(ConnectionError::InvalidConnectionType)
    ));
    let mut server = codec_server();
    assert!(matches!(
        server.process_encoding_response_pkt(response),
        Err(ConnectionError::InvalidMode)
    ));
    assert!(matches!(server.codec_tick(1), Err(ConnectionError::InvalidMode)));
    assert!(matches!(server.set_encoding(true), Err(ConnectionError::InvalidMode)));
    // an answer to an older request
    let mut client = codec_client();
    client.set_encoding(true).unwrap();
    client.set_encoding(false).unwrap();
    client.take_actions();
    client.process_encoding_response_pkt(response).unwrap();
    assert!(client.actions.is_empty());
    assert!(client.core.encoding_request_states.pending_request_pkt.is_some());
}

#[test]
fn unanswered_requests_are_given_up() {
    let mut client = codec_client();
    client.set_encoding(true).unwrap();
    client.take_actions();
    client.codec_tick(7).unwrap();
    assert!(client.actions.is_empty());
    for count in 1..=5u8 {
        client.tick(TickType::PktCodecTick(1)).unwrap();
        match &client.take_actions()[..] {
            [Action::ScheduleTick { delay: TickDelay::CodecRetransmit(n), .. }, Action::Send {
                frame: Frame::EncodingRequest(EncodingRequest { id: 1, enable: true }),
                required: true,
            }] => assert_eq!(*n, count),
            other => panic!("{other:?}"),
        }
    }
    client.codec_tick(1).unwrap();
    assert!(client.actions.is_empty());
    assert!(client.core.encoding_request_states.pending_request_pkt.is_none());
    client.codec_tick(1).unwrap();
    assert!(client.actions.is_empty());
}

#[test]
fn stalled_codecs_are_turned_off_once() {
    let second = Duration::from_millis(1_000);
    let mut client = codec_client();
    // switched off, not in use, or not stalled yet
    assert!(!client
        .downgrade_inside_pkt_codec_if_stalled(Duration::from_millis(0), true, LATER)
        .unwrap());
    assert!(!client
        .downgrade_inside_pkt_codec_if_stalled(second, false, LATER)
        .unwrap());
    assert!(!client
        .downgrade_inside_pkt_codec_if_stalled(Duration { nanos: LATER.nanos - NOW.nanos }, true, LATER)
        .unwrap());
    assert!(!client
        .downgrade_inside_pkt_codec_if_stalled(second, true, Instant { nanos: 0 })
        .unwrap());
    assert!(client
        .downgrade_inside_pkt_codec_if_stalled(second, true, LATER)
        .unwrap());
    assert!(matches!(
        client.take_actions()[..],
        [
            Action::ScheduleTick { .. },
            Action::Send {
                frame: Frame::EncodingRequest(EncodingRequest { id: 1, enable: false }),
                required: true
            }
        ]
    ));
    assert!(!client
        .downgrade_inside_pkt_codec_if_stalled(second, true, Instant { nanos: u128::MAX })
        .unwrap());
    let mut stream = connection(ConnectionType::Stream, ConnectionMode::Client, true);
    assert!(matches!(
        stream.downgrade_inside_pkt_codec_if_stalled(second, true, LATER),
        Err(ConnectionError::InvalidConnectionType)
    ));
}
