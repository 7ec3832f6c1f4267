use bytes::Bytes;
use lightway::connection::{Connection, ConnectionMode, ConnectionType, State};
use lightway::lifecycle::NewConnectionArgs;
use lightway::metrics::{
    decrypt_error_metric, encrypt_error_metric, first_negotiation_metric, fragment_map_metric,
    gso_plan_metric, gso_segment_metric, gso_send_metric, inside_send_metric, poll_metric,
    polled_metric, Metric,
};
use lightway::net::OsError;
use lightway::outbound::IOCallbackResult;
use lightway::time::Instant;
use lightway::tls;
use lightway::wire::{
    EncodingRequest, EncodingResponse, ExpresslaneError, ExpresslaneVersion, Frame, Header,
    SessionId, Version, WireFrame, EMPTY_SESSION_ID,
};
use rand::rngs::StdRng;
use rand::SeedableRng;

const SESSION: SessionId = SessionId { id: 1 };
const V1_2: Version = Version { major: 1, minor: 2 };
const REQUEST: WireFrame = Frame::EncodingRequest(EncodingRequest { id: 1, enable: true });
const RESPONSE: WireFrame = Frame::EncodingResponse(EncodingResponse { id: 1, enable: true });

fn server() -> Connection<()> {
    let args = NewConnectionArgs {
        app_state: (),
        connection_type: ConnectionType::Datagram,
        protocol_version: V1_2,
        session_id: SESSION,
        mode: ConnectionMode::Server {
            has_auth_handle: true,
            key_update_pending: false,
            pending_session_id: None,
        },
        auth_method: Bytes::new(),
        outside_mtu: 1500,
        max_data_size: 1400,
        has_inside_io: true,
        pmtud: None,
        has_inside_pkt_codec: true,
        expresslane: false,
        publishes_expresslane_keys: false,
        expresslane_max_version: ExpresslaneVersion::Unknown,
    };
    let now = Instant { nanos: 0 };
    let rng = StdRng::seed_from_u64(1);
    let mut conn = Connection::new(args, Ok(tls::Poll::PendingRead), now, rng).unwrap();
    conn.core.state = State::Online;
    conn.core.can_use_inside_pkt_encoding = true;
    conn
}

#[test]
fn missing_keys_are_counted() {
    let others = [
        ExpresslaneError::NewCipherFailed,
        ExpresslaneError::SetKeyFailed,
        ExpresslaneError::EncryptFailed,
        ExpresslaneError::AuthFailed,
        ExpresslaneError::PayloadTooLarge,
        ExpresslaneError::BufferTooSmall,
    ];
    let no_key = ExpresslaneError::NoKey;
    assert_eq!(
        encrypt_error_metric(&no_key),
        Some(Metric::ExpresslaneEncryptNoKey)
    );
    assert_eq!(
        decrypt_error_metric(&no_key),
        Some(Metric::ExpresslaneDecryptNoKey)
    );
    for err in others {
        assert_eq!(encrypt_error_metric(&err), None);
        assert_eq!(
            decrypt_error_metric(&err),
            Some(Metric::ExpresslaneDecryptFailed(err))
        );
    }
    for err in [ExpresslaneError::Replayed, ExpresslaneError::InsufficientData] {
        assert_eq!(encrypt_error_metric(&err), None);
        assert_eq!(decrypt_error_metric(&err), None);
    }
}

#[test]
fn stray_application_data_are_counted() {
    let version = tls::ProtocolVersion::DtlsV1_3;
    let data = || Ok(tls::Poll::AppData(Bytes::from_static(b"x")));
    assert_eq!(
        polled_metric(&data(), version),
        Some(Metric::TlsAppdata(version))
    );
    assert_eq!(
        first_negotiation_metric(&data()),
        Some(Metric::TlsAppdata(tls::ProtocolVersion::Unknown))
    );
    assert_eq!(polled_metric(&Ok(tls::Poll::Ready(())), version), None);
    assert_eq!(polled_metric(&Err(tls::Error::Transient(1)), version), None);
    assert_eq!(first_negotiation_metric(&Ok(tls::Poll::PendingRead)), None);
    assert_eq!(poll_metric(&tls::Poll::Ready(true), version), None);
    assert_eq!(
        poll_metric(&tls::Poll::<bool>::AppData(Bytes::new()), version),
        Some(Metric::TlsAppdata(version))
    );
}

#[test]
fn superpackets_are_counted() {
    assert_eq!(
        gso_plan_metric(4000, None, 1300, 1350),
        Some(Metric::GsoDroppedInvalidHdrLen)
    );
    assert_eq!(
        gso_plan_metric(4000, Some(40), 0, 1350),
        Some(Metric::GsoDroppedZeroGsoSize)
    );
    assert_eq!(gso_plan_metric(40, Some(40), 1300, 1350), None);
    assert_eq!(
        gso_plan_metric(4000, Some(40), 1311, 1350),
        Some(Metric::GsoDroppedOversizedSegment)
    );
    assert_eq!(gso_plan_metric(4000, Some(40), 1310, 1350), None);
    assert_eq!(
        gso_plan_metric(65535, Some(40), 536, 1350),
        Some(Metric::GsoBatchSkipped)
    );
    assert_eq!(gso_segment_metric(true), None);
    assert_eq!(gso_segment_metric(false), Some(Metric::GsoBuildSegmentFailed));
}

#[test]
fn failed_sockets_are_counted() {
    let e = OsError { raw_os_error: Some(5), permission_denied: false };
    let failed = IOCallbackResult::Failed(e);
    assert_eq!(gso_send_metric(failed), Some(Metric::GsoSendFailed));
    assert_eq!(inside_send_metric(failed), Some(Metric::InsideIoSendFailed(e)));
    for fine in [IOCallbackResult::Sent(1), IOCallbackResult::WouldBlock] {
        assert_eq!(gso_send_metric(fine), None);
        assert_eq!(inside_send_metric(fine), None);
    }
    assert_eq!(fragment_map_metric(false), Some(Metric::ConnectionAllocFragMap));
    assert_eq!(fragment_map_metric(true), None);
}

#[test]
fn unexpected_sessions_are_counted() {
    let header = |id| {
        Some(Header {
            version: V1_2,
            expresslane_data: false,
            session: SessionId { id },
        })
    };
    let mut conn = server();
    assert_eq!(conn.datagram_metric(header(1), 1), None);
    assert_eq!(conn.datagram_metric(header(EMPTY_SESSION_ID), 1), None);
    assert_eq!(conn.datagram_metric(header(9), 0), None);
    assert_eq!(conn.datagram_metric(None, 1), None);
    assert_eq!(
        conn.datagram_metric(header(9), 1),
        Some(Metric::SessionIdMismatch)
    );
    conn.begin_session_rotation(SessionId { id: 9 });
    assert_eq!(conn.datagram_metric(header(9), 1), None);
    assert_eq!(
        conn.session_id_metric(Some(SessionId { id: 8 })),
        Some(Metric::SessionIdMismatch)
    );
    assert_eq!(conn.session_id_metric(None), None);
    conn.core.mode = ConnectionMode::Client;
    assert_eq!(conn.session_id_metric(Some(SessionId { id: 8 })), None);
}

#[test]
fn refused_encoding_is_counted() {
    let mut conn = server();
    assert_eq!(conn.frame_metric(&REQUEST), None);
    assert_eq!(conn.frame_metric(&Frame::NoOp), None);
    assert_eq!(
        conn.frame_metric(&RESPONSE),
        Some(Metric::ReceivedEncodingResAsServer)
    );
    conn.core.connection_type = ConnectionType::Stream;
    assert_eq!(
        conn.frame_metric(&REQUEST),
        Some(Metric::ReceivedEncodingReqWithTcp)
    );
    assert_eq!(conn.frame_metric(&RESPONSE), None);
    conn.core.state = State::LinkUp;
    assert_eq!(
        conn.frame_metric(&REQUEST),
        Some(Metric::ReceivedEncodingReqNonOnline)
    );
    conn.core.can_use_inside_pkt_encoding = false;
    assert_eq!(
        conn.frame_metric(&REQUEST),
        Some(Metric::ReceivedEncodingReqNoAuthorization)
    );
    conn.core.has_encoder = false;
    assert_eq!(conn.frame_metric(&REQUEST), None);
}
