use lightway::action::{notify, Event, EventCallback, EventLog, ExpresslaneTickData};
use lightway::connection::{Connection, ConnectionType, State};
use lightway::error::{
    expresslane_decrypt_error, expresslane_encrypt_error, ConnectionError, InvalidPacketError,
};
use lightway::expresslane::EXPRESSLANE_DEGRADE_STRIKES;
use lightway::gso::{calc_gso_segs, gso_fits_one_batch, MAX_GSO_SEGS};
use lightway::tls;
use lightway::wire::{ExpresslaneError, Frame, FromWireError};

type Conn = Connection<()>;

const BAD: (u64, u64) = (100, 0);
const GOOD: (u64, u64) = (100, 100);
const BELOW_MIN: (u64, u64) = (9, 0);

fn expected(err: &ExpresslaneError) -> FromWireError {
    match err {
        ExpresslaneError::Replayed => FromWireError::ReplayedExpressData,
        ExpresslaneError::InsufficientData => FromWireError::InsufficientData,
        ExpresslaneError::NoKey
        | ExpresslaneError::AuthFailed
        | ExpresslaneError::EncryptFailed
        | ExpresslaneError::PayloadTooLarge
        | ExpresslaneError::NewCipherFailed
        | ExpresslaneError::SetKeyFailed
        | ExpresslaneError::BufferTooSmall => FromWireError::InvalidExpressData,
    }
}

fn all() -> Vec<ExpresslaneError> {
    vec![
        ExpresslaneError::NewCipherFailed,
        ExpresslaneError::SetKeyFailed,
        ExpresslaneError::NoKey,
        ExpresslaneError::EncryptFailed,
        ExpresslaneError::AuthFailed,
        ExpresslaneError::Replayed,
        ExpresslaneError::InsufficientData,
        ExpresslaneError::PayloadTooLarge,
        ExpresslaneError::BufferTooSmall,
    ]
}

#[test]
fn decrypt_error_mapping_is_pinned() {
    assert!(matches!(
        expresslane_decrypt_error(ExpresslaneError::NoKey),
        FromWireError::InvalidExpressData
    ));
    assert!(matches!(
        expresslane_decrypt_error(ExpresslaneError::Replayed),
        FromWireError::ReplayedExpressData
    ));
    assert!(matches!(
        expresslane_decrypt_error(ExpresslaneError::InsufficientData),
        FromWireError::InsufficientData
    ));
    assert!(matches!(
        expresslane_decrypt_error(ExpresslaneError::AuthFailed),
        FromWireError::InvalidExpressData
    ));
}

/// A bad packet must never kill a datagram connection, so every decrypt
/// failure has to land on a wire error `is_fatal` treats as transient.
#[test]
fn every_decrypt_error_is_classified_and_transient() {
    for err in all() {
        let want = expected(&err);
        let got = expresslane_decrypt_error(err);
        assert_eq!(
            std::mem::discriminant(&got),
            std::mem::discriminant(&want),
            "misclassified: got {got:?}, want {want:?}"
        );
        let err = ConnectionError::WireError(got);
        assert!(
            !err.is_fatal(ConnectionType::Datagram),
            "{err:?} would tear down the connection"
        );
    }
}

#[test]
fn every_encrypt_error_is_transient() {
    for err in all() {
        let err = expresslane_encrypt_error(err);
        assert!(
            matches!(err, ConnectionError::ExpresslaneError(_)),
            "unexpected variant: {err:?}"
        );
        assert!(
            !err.is_fatal(ConnectionType::Datagram),
            "{err:?} would tear down the connection"
        );
    }
}

/// An aggregate up to the segment cap is batched; one past it is not.
#[test]
fn batches_up_to_the_cap_inclusive() {
    assert!(gso_fits_one_batch(1));
    assert!(gso_fits_one_batch(MAX_GSO_SEGS));
    assert!(!gso_fits_one_batch(MAX_GSO_SEGS + 1));
    // 65535 / 536 -- the small-MSS peer case.
    assert!(!gso_fits_one_batch(122));
}

#[test]
fn single_bad_window_does_not_degrade() {
    assert_eq!(Conn::advance_strikes(0, BAD.0, BAD.1), (1, false));
}

#[test]
fn consecutive_bad_windows_degrade() {
    let threshold = EXPRESSLANE_DEGRADE_STRIKES;
    let mut strikes = 0;
    for window in 1..threshold {
        let degrade;
        (strikes, degrade) = Conn::advance_strikes(strikes, BAD.0, BAD.1);
        assert_eq!((strikes, degrade), (window, false));
    }
    assert_eq!(
        Conn::advance_strikes(strikes, BAD.0, BAD.1),
        (threshold, true)
    );
}

#[test]
fn good_window_drains_one_strike() {
    let (strikes, _) = Conn::advance_strikes(0, BAD.0, BAD.1);
    let (strikes, _) = Conn::advance_strikes(strikes, BAD.0, BAD.1);
    assert_eq!(strikes, 2);
    assert_eq!(
        Conn::advance_strikes(strikes, GOOD.0, GOOD.1),
        (1, false),
        "a clean window drains one strike, it does not clear the bucket"
    );
}

#[test]
fn drain_floors_at_zero() {
    assert_eq!(Conn::advance_strikes(0, GOOD.0, GOOD.1), (0, false));
}

/// An attacker alternating (threshold - 1) bad windows with one clean
/// window would evade a reset-on-good counter forever. Draining makes
/// the bucket climb anyway.
#[test]
fn pulsed_drops_still_degrade() {
    let threshold = EXPRESSLANE_DEGRADE_STRIKES;
    let mut strikes = 0;
    for _ in 0..10 {
        for _ in 0..threshold - 1 {
            let degrade;
            (strikes, degrade) = Conn::advance_strikes(strikes, BAD.0, BAD.1);
            if degrade {
                return;
            }
        }
        (strikes, _) = Conn::advance_strikes(strikes, GOOD.0, GOOD.1);
    }
    panic!("pulsed drop pattern never degraded, bucket stuck at {strikes}");
}

#[test]
fn idle_window_is_not_a_strike() {
    assert_eq!(
        Conn::advance_strikes(1, BELOW_MIN.0, BELOW_MIN.1),
        (0, false)
    );
}

#[test]
fn strikes_saturate_instead_of_wrapping() {
    assert_eq!(
        Conn::advance_strikes(u8::MAX, BAD.0, BAD.1),
        (u8::MAX, true)
    );
}

fn assert_traits<T: std::fmt::Debug + Clone>() {}

/// A host must be able to name and inspect the tick payload; without it,
/// dropping the tick silently loses retransmission and its timeout.
#[test]
fn tick_data_is_nameable_and_debuggable() {
    assert_traits::<ExpresslaneTickData>();
}

#[test]
fn loss_threshold_is_strictly_above_one_half() {
    assert!(!Conn::has_packet_drops(10, 5));
    assert!(Conn::has_packet_drops(10, 4));
    assert!(!Conn::has_packet_drops(11, 6));
    assert!(Conn::has_packet_drops(11, 5));
    assert!(!Conn::has_packet_drops(9, 0));
    assert!(!Conn::has_packet_drops(100, 200));
}

fn drops_in_floating_point(sent: u64, received: u64) -> bool {
    if sent < 10 {
        return false;
    }
    sent.saturating_sub(received) as f64 / sent as f64 > 0.50
}

#[test]
fn loss_check_agrees_with_double_precision() {
    let mut x: u64 = 0x9e37_79b9_7f4a_7c15;
    for i in 0..200_000u64 {
        x ^= x << 13;
        x ^= x >> 7;
        x ^= x << 17;
        let sent = x >> (i % 64);
        // close to one half, where rounding matters
        let half = sent / 2;
        for received in [
            0,
            half,
            half.wrapping_sub(1),
            half.wrapping_add(1),
            half.wrapping_sub(i % 5000),
            half.wrapping_add(i % 5000),
            x.rotate_left(31),
        ] {
            assert_eq!(
                Conn::has_packet_drops(sent, received),
                drops_in_floating_point(sent, received),
                "sent {sent}, received {received}"
            );
        }
    }
    for sent in [u64::MAX, u64::MAX - 1, 1 << 63, (1 << 53) + 1, (1 << 53) - 1, 1 << 53] {
        for received in [0, 1, sent / 2, sent / 2 + 1, sent / 2 - 1, sent / 2 - 1025, sent] {
            assert_eq!(
                Conn::has_packet_drops(sent, received),
                drops_in_floating_point(sent, received),
                "sent {sent}, received {received}"
            );
        }
    }
}

#[test]
fn fatal_errors_of_a_datagram_connection() {
    let fatal = [
        ConnectionError::TimedOut,
        ConnectionError::Unauthorized,
        ConnectionError::InvalidMode,
        ConnectionError::InvalidConnectionType,
        ConnectionError::NoAvailableClientIp,
        ConnectionError::InvalidInsideIpConfig,
        ConnectionError::AccessDenied,
        ConnectionError::Goodbye,
        ConnectionError::PacketCodecDoesNotExist,
        ConnectionError::PacketCodecError("codec".to_string()),
        ConnectionError::Disconnected,
        ConnectionError::PathMtuDiscoveryRequired {
            inside_mtu: 1350,
            required_outside_mtu: 1431,
        },
        ConnectionError::Tls(tls::Error::Fatal(tls::ErrorKind::DomainNameMismatch)),
        ConnectionError::Tls(tls::Error::Fatal(tls::ErrorKind::DuplicateMessage)),
        ConnectionError::Tls(tls::Error::Fatal(tls::ErrorKind::PeerClosed)),
        ConnectionError::Tls(tls::Error::Fatal(tls::ErrorKind::CaCertNotAvailable)),
        ConnectionError::Tls(tls::Error::Fatal(tls::ErrorKind::PeerFatalAlert)),
        ConnectionError::WireError(FromWireError::InvalidField),
    ];
    for error in fatal {
        assert!(error.is_fatal(ConnectionType::Datagram), "{error:?}");
        assert!(error.is_fatal(ConnectionType::Stream), "{error:?}");
    }
}

#[test]
fn transient_errors_are_fatal_over_a_stream_alone() {
    let transient = [
        ConnectionError::InvalidProtocolVersion,
        ConnectionError::InvalidState,
        ConnectionError::InvalidInsideIo,
        ConnectionError::UnknownSessionID,
        ConnectionError::InvalidInsidePacket(InvalidPacketError::InvalidPacketSize),
        ConnectionError::RejectedSessionID,
        ConnectionError::PluginError("plugin".to_string()),
        ConnectionError::PacketError("packet".to_string()),
        ConnectionError::DataFragmentError("slice".to_string()),
        ConnectionError::ExpresslaneVersionMismatch,
        ConnectionError::ExpreslaneDegraded,
        ConnectionError::Tls(tls::Error::Fatal(tls::ErrorKind::Other(-1))),
        ConnectionError::Tls(tls::Error::Transient(-2)),
        ConnectionError::WireError(FromWireError::UnknownFrameType),
        ConnectionError::WireError(FromWireError::InsufficientData),
        ConnectionError::WireError(FromWireError::InvalidExpressData),
        ConnectionError::WireError(FromWireError::ReplayedExpressData),
        ConnectionError::WireError(FromWireError::InvalidProtocolVersion(2, 0)),
    ];
    for error in transient {
        assert!(!error.is_fatal(ConnectionType::Datagram), "{error:?}");
        assert!(error.is_fatal(ConnectionType::Stream), "{error:?}");
    }
}

#[test]
fn ipv6_is_told_from_garbage() {
    assert_eq!(
        InvalidPacketError::for_non_ipv4(&[0x60, 0, 0, 0]),
        InvalidPacketError::UnsupportedIpv6Packet
    );
    assert_eq!(
        InvalidPacketError::for_non_ipv4(&[0x00]),
        InvalidPacketError::InvalidIpv4Packet
    );
    assert_eq!(
        InvalidPacketError::for_non_ipv4(&[]),
        InvalidPacketError::InvalidIpv4Packet
    );
}

#[test]
fn segments_are_counted_rounding_up() {
    assert_eq!(calc_gso_segs(40, 40, 1200), 0);
    assert_eq!(calc_gso_segs(20, 40, 1200), 0);
    assert_eq!(calc_gso_segs(41, 40, 1200), 1);
    assert_eq!(calc_gso_segs(1240, 40, 1200), 1);
    assert_eq!(calc_gso_segs(1241, 40, 1200), 2);
    assert_eq!(calc_gso_segs(65535, 0, 536), 123);
    assert_eq!(calc_gso_segs(7, 0, 1), 7);
}

#[test]
fn states_have_codes() {
    let codes: Vec<u8> = [
        State::Connecting,
        State::LinkUp,
        State::Authenticating,
        State::Online,
        State::Disconnecting,
        State::Disconnected,
    ]
    .iter()
    .map(|state| state.code())
    .collect();
    assert_eq!(codes, [2, 6, 5, 7, 4, 1]);
}

#[test]
fn callbacks_hear_of_every_event_in_order() {
    let mut cb = Some(EventLog::new());
    notify(&mut cb, Event::StateChanged(State::LinkUp));
    notify(&mut cb, Event::KeepaliveReply);
    let mut log = cb.unwrap();
    log.event(Event::FirstPacketReceived);
    assert_eq!(
        log.events,
        [
            Event::StateChanged(State::LinkUp),
            Event::KeepaliveReply,
            Event::FirstPacketReceived
        ]
    );
    let mut nobody: Option<EventLog> = None;
    notify(&mut nobody, Event::KeepaliveReply);
    assert!(nobody.is_none());
}

#[test]
fn mtu_formulas() {
    assert_eq!(lightway::dtls_required_outside_mtu(1350), 1431);
    assert_eq!(lightway::max_dtls_outside_mtu(1500), 1456);
    assert_eq!(lightway::max_dtls_mtu(1500), 1419);
    assert_eq!(
        lightway::dtls_required_outside_mtu(lightway::max_dtls_mtu(lightway::MAX_OUTSIDE_MTU)),
        lightway::MAX_OUTSIDE_MTU
    );
}

#[test]
fn tls_library_requests() {
    assert!(matches!(
        lightway::enable_tls_debug::<()>(),
        tls::LibraryRequest::EnableDebugging(true)
    ));
    assert!(matches!(
        lightway::set_logging_callback(7u8),
        tls::LibraryRequest::InstallLoggingCallback(7)
    ));
}

#[test]
fn fuzzing_goes_on_until_data_run_out() {
    assert_eq!(
        lightway::fuzz_frame_parse(&Ok(Frame::NoOp)),
        lightway::FuzzStep::Reserialize
    );
    assert_eq!(
        lightway::fuzz_frame_parse(&Err(FromWireError::UnknownFrameType)),
        lightway::FuzzStep::Skip
    );
    assert_eq!(
        lightway::fuzz_frame_parse(&Err(FromWireError::InsufficientData)),
        lightway::FuzzStep::Stop
    );
}
