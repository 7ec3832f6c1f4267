//! What a host counts: when each metric is due. A function here is asked next
//! to the step that it speaks of, before the step is taken, and the host
//! raises what it returns.

use crate::connection::{Connection, ConnectionMode, ConnectionType, ConnectionView, Core, State};
use crate::control::key_update_started;
use crate::error::{decrypt_error, ConnectionError};
use crate::gso::{calc_gso_segs, gso_fits_one_batch, segment_count, MAX_GSO_SEGS};
use crate::net::OsError;
use crate::outbound::IOCallbackResult;
use crate::tls;
use crate::wire::{
    EncodingRequest, EncodingResponse, ExpresslaneError, Frame, FrameView, Header, SessionId,
    WireFrame,
};
use vstd::prelude::*;

verus! {

/// Something to count.
#[derive(Clone, Copy, Debug, PartialEq, Eq, Structural)]
pub enum Metric {
    /// A packet could not be encrypted for want of a key
    ExpresslaneEncryptNoKey,
    /// A packet could not be decrypted for want of a key
    ExpresslaneDecryptNoKey,
    /// A packet could not be decrypted for this reason
    ExpresslaneDecryptFailed(ExpresslaneError),
    /// The map of slices was set up
    ConnectionAllocFragMap,
    /// The session delivered data while it was doing something else
    TlsAppdata(tls::ProtocolVersion),
    /// A superpacket was dropped because its headers could not be read. The
    /// host knows the reason.
    GsoDroppedInvalidHdrLen,
    /// A superpacket was dropped because it declares empty segments
    GsoDroppedZeroGsoSize,
    /// A superpacket was dropped because its segments exceed the inside MTU
    GsoDroppedOversizedSegment,
    /// A superpacket has too many segments for one batch
    GsoBatchSkipped,
    /// A segment could not be built. The host knows the reason.
    GsoBuildSegmentFailed,
    /// A batch could not be sent
    GsoSendFailed,
    /// A client used a session identifier that its server does not expect
    SessionIdMismatch,
    /// The inside path failed to take a packet
    InsideIoSendFailed(OsError),
    /// A client without authorization asked for encoding
    ReceivedEncodingReqNoAuthorization,
    /// Encoding was asked for before the connection was online
    ReceivedEncodingReqNonOnline,
    /// Encoding was asked for over a stream
    ReceivedEncodingReqWithTcp,
    /// A server got an answer to an encoding request
    ReceivedEncodingResAsServer,
}

/// What is counted of a failed encryption.
pub open spec fn encrypt_metric(err: ExpresslaneError) -> Option<Metric> {
    if err is NoKey {
        Some(Metric::ExpresslaneEncryptNoKey)
    } else {
        None
    }
}

/// What is counted of a failed encryption
/// ([`crate::error::expresslane_encrypt_error`]): a missing key, and nothing
/// else.
pub fn encrypt_error_metric(err: &ExpresslaneError) -> (metric: Option<Metric>)
    ensures
        metric == encrypt_metric(*err),
{
    match err {
        ExpresslaneError::NoKey => Some(Metric::ExpresslaneEncryptNoKey),
        _ => None,
    }
}

/// What is counted of a failed decryption: a missing key by itself, and
/// anything else by its reason, but for a repeated or truncated packet.
pub open spec fn decrypt_metric(err: ExpresslaneError) -> Option<Metric> {
    if err is NoKey {
        Some(Metric::ExpresslaneDecryptNoKey)
    } else if err is Replayed || err is InsufficientData {
        None
    } else {
        Some(Metric::ExpresslaneDecryptFailed(err))
    }
}

/// What is counted of a failed decryption
/// ([`crate::error::expresslane_decrypt_error`]).
pub fn decrypt_error_metric(err: &ExpresslaneError) -> (metric: Option<Metric>)
    ensures
        metric == decrypt_metric(*err),
{
    match err {
        ExpresslaneError::NoKey => Some(Metric::ExpresslaneDecryptNoKey),
        ExpresslaneError::Replayed | ExpresslaneError::InsufficientData => None,
        _ => Some(Metric::ExpresslaneDecryptFailed(*err)),
    }
}

/// What is counted of a call on the session: that it delivered data instead.
pub open spec fn appdata_metric<T>(poll: tls::Poll<T>, version: tls::ProtocolVersion) -> Option<
    Metric,
> {
    if poll is AppData {
        Some(Metric::TlsAppdata(version))
    } else {
        None
    }
}

/// What is counted of a call on a session of the given version
/// ([`Connection::dtls_timeout_polled`]).
pub fn poll_metric<T>(poll: &tls::Poll<T>, version: tls::ProtocolVersion) -> (metric: Option<
    Metric,
>)
    ensures
        metric == appdata_metric(*poll, version),
{
    match poll {
        tls::Poll::AppData(_) => Some(Metric::TlsAppdata(version)),
        _ => None,
    }
}

/// What is counted of a call that can fail, on a session of the given version:
/// nothing more if it failed ([`Connection::negotiated`],
/// [`Connection::tls_read`], [`Connection::write_completed`],
/// [`Connection::tls_key_update_triggered`]).
pub fn polled_metric(
    polled: &Result<tls::Poll<()>, tls::Error>,
    version: tls::ProtocolVersion,
) -> (metric: Option<Metric>)
    ensures
        metric == (match *polled {
            Ok(poll) => appdata_metric(poll, version),
            Err(_) => None,
        }),
{
    match polled {
        Ok(poll) => poll_metric(poll, version),
        Err(_) => None,
    }
}

/// What is counted of the first attempt to negotiate a session, before its
/// version can be known ([`Connection::new`]).
pub fn first_negotiation_metric(negotiation: &Result<tls::Poll<()>, tls::Error>) -> (metric: Option<
    Metric,
>)
    ensures
        metric == (match *negotiation {
            Ok(poll) => appdata_metric(poll, tls::ProtocolVersion::Unknown),
            Err(_) => None,
        }),
{
    polled_metric(negotiation, tls::ProtocolVersion::Unknown)
}

/// What is counted when a slice of a packet comes: that there was no map of
/// slices yet, so that one is set up ([`Connection::fragment_added`]).
pub fn fragment_map_metric(has_map: bool) -> (metric: Option<Metric>)
    ensures
        metric == (if has_map {
            None
        } else {
            Some(Metric::ConnectionAllocFragMap)
        }),
{
    if has_map {
        None
    } else {
        Some(Metric::ConnectionAllocFragMap)
    }
}

/// What is counted once the inside path was handed a packet
/// ([`Connection::egress_done`]): that it failed. That it cannot take the
/// packet at the moment does not count.
pub fn inside_send_metric(sent: IOCallbackResult) -> (metric: Option<Metric>)
    ensures
        metric == (match sent {
            IOCallbackResult::Failed(error) => Some(Metric::InsideIoSendFailed(error)),
            _ => None,
        }),
{
    match sent {
        IOCallbackResult::Failed(error) => Some(Metric::InsideIoSendFailed(error)),
        _ => None,
    }
}

/// What is counted of a superpacket: why it is dropped, or that it does not
/// fit one batch.
pub open spec fn superpacket_metric(
    len: usize,
    hdr_len: Option<usize>,
    gso_size: u16,
    mtu: usize,
) -> Option<Metric> {
    match hdr_len {
        None => Some(Metric::GsoDroppedInvalidHdrLen),
        Some(hdr_len) => {
            let segments = segment_count(len, hdr_len, gso_size);
            if gso_size == 0 {
                Some(Metric::GsoDroppedZeroGsoSize)
            } else if segments == 0 {
                None
            } else if hdr_len + gso_size > mtu {
                Some(Metric::GsoDroppedOversizedSegment)
            } else if segments > MAX_GSO_SEGS {
                Some(Metric::GsoBatchSkipped)
            } else {
                None
            }
        },
    }
}

/// What is counted of a superpacket when its sending is planned
/// ([`Connection::send_to_outside_gso`]).
pub fn gso_plan_metric(len: usize, hdr_len: Option<usize>, gso_size: u16, mtu: usize) -> (metric:
    Option<Metric>)
    ensures
        metric == superpacket_metric(len, hdr_len, gso_size, mtu),
{
    let hdr_len: usize = match hdr_len {
        Some(hdr_len) => hdr_len,
        None => return Some(Metric::GsoDroppedInvalidHdrLen),
    };
    if gso_size == 0 {
        return Some(Metric::GsoDroppedZeroGsoSize);
    }
    let segments = calc_gso_segs(len, hdr_len, gso_size);
    if segments == 0 {
        return None;
    }
    if hdr_len > mtu || gso_size as usize > mtu - hdr_len {
        return Some(Metric::GsoDroppedOversizedSegment);
    }
    if gso_fits_one_batch(segments) {
        None
    } else {
        Some(Metric::GsoBatchSkipped)
    }
}

/// What is counted of a segment of a superpacket
/// ([`Connection::send_gso_segment`]): that it could not be built.
pub fn gso_segment_metric(built: bool) -> (metric: Option<Metric>)
    ensures
        metric == (if built {
            None
        } else {
            Some(Metric::GsoBuildSegmentFailed)
        }),
{
    if built {
        None
    } else {
        Some(Metric::GsoBuildSegmentFailed)
    }
}

/// What is counted once a batch was handed to the socket
/// ([`Connection::gso_done`]): that this failed. That the socket cannot take
/// it at the moment does not count.
pub fn gso_send_metric(sent: IOCallbackResult) -> (metric: Option<Metric>)
    ensures
        metric == (if sent is Failed {
            Some(Metric::GsoSendFailed)
        } else {
            None
        }),
{
    match sent {
        IOCallbackResult::Failed(_) => Some(Metric::GsoSendFailed),
        _ => None,
    }
}

impl Core {
    /// What is counted of a session identifier that came with valid traffic: a
    /// server expects its own and the one it is moving to.
    pub open spec fn session_metric(self, session: Option<SessionId>) -> Option<Metric> {
        match (session, self.mode) {
            (Some(session), ConnectionMode::Server { pending_session_id, .. }) => if
            !session.spec_is_empty() && session != self.session_id && pending_session_id != Some(
                session,
            ) {
                Some(Metric::SessionIdMismatch)
            } else {
                None
            },
            _ => None,
        }
    }

    /// What is counted of a request for encoding.
    pub open spec fn encoding_request_metric(self) -> Option<Metric> {
        if !self.has_encoder {
            None
        } else if !self.can_use_inside_pkt_encoding {
            Some(Metric::ReceivedEncodingReqNoAuthorization)
        } else if self.state !is Online {
            Some(Metric::ReceivedEncodingReqNonOnline)
        } else if self.connection_type !is Datagram {
            Some(Metric::ReceivedEncodingReqWithTcp)
        } else {
            None
        }
    }

    /// What is counted of an answer to a request for encoding.
    pub open spec fn encoding_response_metric(self) -> Option<Metric> {
        if self.has_encoder && self.state is Online && self.connection_type is Datagram
            && self.mode !is Client {
            Some(Metric::ReceivedEncodingResAsServer)
        } else {
            None
        }
    }

    /// What is counted of a frame of the peer.
    pub open spec fn frame_metric(self, frame: FrameView) -> Option<Metric> {
        match frame {
            Frame::EncodingRequest(_) => self.encoding_request_metric(),
            Frame::EncodingResponse(_) => self.encoding_response_metric(),
            _ => None,
        }
    }
}

impl<AppState> Connection<AppState> {
    /// What is counted of a session identifier that came with valid traffic
    /// ([`Connection::update_session_id`]).
    pub fn session_id_metric(&self, session_id: Option<SessionId>) -> (metric: Option<Metric>)
        ensures
            metric == self.core.session_metric(session_id),
    {
        let session_id = match session_id {
            Some(session_id) => session_id,
            None => return None,
        };
        if session_id.is_empty() || session_id == self.core.session_id {
            return None;
        }
        match self.core.mode {
            ConnectionMode::Client => None,
            ConnectionMode::Server { pending_session_id, .. } => match pending_session_id {
                Some(pending) => if pending == session_id {
                    None
                } else {
                    Some(Metric::SessionIdMismatch)
                },
                None => Some(Metric::SessionIdMismatch),
            },
        }
    }

    /// What is counted of a datagram that was processed without error
    /// ([`Connection::outside_data_processed`]).
    pub fn datagram_metric(&self, hdr: Option<Header>, frames_read: usize) -> (metric: Option<
        Metric,
    >)
        ensures
            metric == (match hdr {
                Some(hdr) => if frames_read > 0 {
                    self.core.session_metric(Some(hdr.session))
                } else {
                    None
                },
                None => None,
            }),
    {
        match hdr {
            Some(hdr) => if frames_read > 0 {
                self.session_id_metric(Some(hdr.session))
            } else {
                None
            },
            None => None,
        }
    }

    /// What is counted of a frame of the peer ([`Connection::handle_frame`]):
    /// requests for encoding that are refused, and answers to none.
    pub fn frame_metric(&self, frame: &WireFrame) -> (metric: Option<Metric>)
        ensures
            metric == self.core.frame_metric(frame@),
    {
        match frame {
            Frame::EncodingRequest(_) => if !self.core.has_encoder {
                None
            } else if !self.core.can_use_inside_pkt_encoding {
                Some(Metric::ReceivedEncodingReqNoAuthorization)
            } else if !matches!(self.core.state, State::Online) {
                Some(Metric::ReceivedEncodingReqNonOnline)
            } else if !matches!(self.core.connection_type, ConnectionType::Datagram) {
                Some(Metric::ReceivedEncodingReqWithTcp)
            } else {
                None
            },
            Frame::EncodingResponse(_) => if self.core.has_encoder && matches!(
                self.core.state,
                State::Online
            ) && matches!(self.core.connection_type, ConnectionType::Datagram) && !matches!(
                self.core.mode,
                ConnectionMode::Client
            ) {
                Some(Metric::ReceivedEncodingResAsServer)
            } else {
                None
            },
            _ => None,
        }
    }
}

/// Every packet that counts as invalid expresslane data is counted, and no
/// other: a repeated or truncated one is not.
pub proof fn invalid_packets_are_counted(err: ExpresslaneError)
    ensures
        (decrypt_metric(err) is Some) == (decrypt_error(err) is InvalidExpressData),
{
}

/// Every superpacket that is dropped is counted, and so is every one that
/// leaves without a batch; nothing is counted of the others.
pub proof fn dropped_superpackets_are_counted(
    core: Core,
    len: usize,
    hdr_len: Option<usize>,
    gso_size: u16,
    mtu: usize,
)
    ensures
        ({
            let metric = superpacket_metric(len, hdr_len, gso_size, mtu);
            match core.gso_plan(len, hdr_len, gso_size, mtu) {
                Err(_) => metric is Some && metric != Some(Metric::GsoBatchSkipped),
                Ok(Some(plan)) => (metric == Some(Metric::GsoBatchSkipped)) == !plan.batched && (
                metric is None) == plan.batched,
                Ok(None) => metric is None,
            }
        }),
{
}

/// A session identifier that is counted as a mismatch changes nothing.
pub proof fn mismatches_change_nothing<AppState>(
    c: ConnectionView<AppState>,
    session: Option<SessionId>,
)
    requires
        c.core.session_metric(session) is Some,
    ensures
        c.session_seen(session) == c,
{
}

/// A request for encoding that a server with an encoder refuses is counted by
/// the reason, and an answer that comes to a server is counted where it is
/// refused for that.
pub proof fn refused_encoding_is_counted<AppState>(
    c: ConnectionView<AppState>,
    er: EncodingRequest,
    response: EncodingResponse,
)
    requires
        c.core.mode is Server,
    ensures
        c.core.encoding_request_metric() == Some(Metric::ReceivedEncodingReqNonOnline) <==> (
        c.encoding_requested(er).1 == Err::<(), _>(ConnectionError::InvalidState)),
        c.core.encoding_request_metric() == Some(Metric::ReceivedEncodingReqWithTcp) <==> (
        c.encoding_requested(er).1 == Err::<(), _>(ConnectionError::InvalidConnectionType)),
        c.core.encoding_request_metric() == Some(Metric::ReceivedEncodingReqNoAuthorization) ==> (
        c.encoding_requested(er) == (
            c.sends(Frame::EncodingResponse(EncodingResponse { id: er.id, enable: false })),
            Ok::<(), ConnectionError>(()),
        )),
        c.core.encoding_response_metric() is Some <==> c.encoding_answered(response).1 == Err::<
            (),
            _,
        >(ConnectionError::InvalidMode),
{
}

/// An update of the TLS keys that is counted as interrupted has not started.
pub proof fn interrupted_updates_have_not_started(
    poll: tls::Poll<()>,
    version: tls::ProtocolVersion,
)
    ensures
        (appdata_metric(poll, version) is Some) == !key_update_started(poll),
{
}

/// Every metric names its cause: a failed encryption is counted for want of a
/// key and for nothing else, a failed decryption by what was wrong unless the
/// packet was repeated or cut short, and a session that delivered data instead
/// by its version.
pub proof fn failures_are_counted_by_cause(
    err: ExpresslaneError,
    poll: tls::Poll<()>,
    version: tls::ProtocolVersion,
)
    ensures
        encrypt_metric(err) is Some <==> err is NoKey,
        encrypt_metric(err) is Some ==> encrypt_metric(err) == Some(
            Metric::ExpresslaneEncryptNoKey,
        ),
        decrypt_metric(err) is None <==> err is Replayed || err is InsufficientData,
        decrypt_metric(err) == Some(Metric::ExpresslaneDecryptNoKey) <==> err is NoKey,
        decrypt_metric(err) is Some && err !is NoKey ==> decrypt_metric(err) == Some(
            Metric::ExpresslaneDecryptFailed(err),
        ),
        appdata_metric(poll, version) is Some <==> poll is AppData,
        poll is AppData ==> appdata_metric(poll, version) == Some(Metric::TlsAppdata(version)),
{
}

/// A superpacket that is dropped is counted by what was wrong with it, the
/// headers first, and one that leaves without a batch for its 65 segments or
/// more.
pub proof fn superpackets_are_counted_by_cause(
    len: usize,
    hdr_len: usize,
    gso_size: u16,
    mtu: usize,
)
    ensures
        superpacket_metric(len, None, gso_size, mtu) == Some(Metric::GsoDroppedInvalidHdrLen),
        ({
            let metric = superpacket_metric(len, Some(hdr_len), gso_size, mtu);
            &&& gso_size == 0 ==> metric == Some(Metric::GsoDroppedZeroGsoSize)
            &&& gso_size > 0 && len <= hdr_len ==> metric is None
            &&& gso_size > 0 && len > hdr_len && hdr_len + gso_size > mtu ==> metric == Some(
                Metric::GsoDroppedOversizedSegment,
            )
            &&& gso_size > 0 && len > hdr_len && hdr_len + gso_size <= mtu ==> metric == (if len
                - hdr_len > 64 * gso_size {
                Some(Metric::GsoBatchSkipped)
            } else {
                None
            })
        }),
{
    if gso_size > 0 && len > hdr_len {
        crate::gso::segments_cover_the_payload(len, hdr_len, gso_size);
        let n = segment_count(len, hdr_len, gso_size);
        let s = gso_size as int;
        let p = len - hdr_len;
        assert((n > 64) == (p > 64 * s) && n > 0) by (nonlinear_arith)
            requires
                (n - 1) * s < p <= n * s,
                s > 0,
                p > 0,
        ;
    }
}

/// A server counts a session identifier that is neither empty, nor its own,
/// nor the one it is moving to; a client counts none.
pub proof fn strange_sessions_are_counted(core: Core, session: SessionId)
    ensures
        core.session_metric(None) is None,
        core.mode is Client ==> core.session_metric(Some(session)) is None,
        core.mode matches ConnectionMode::Server { pending_session_id, .. } ==> (
        core.session_metric(Some(session)) == Some(Metric::SessionIdMismatch) <==> session.id != 0
            && session != core.session_id && pending_session_id != Some(session)),
{
}

} // verus!
