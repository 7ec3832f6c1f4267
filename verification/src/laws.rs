//! What every step of a connection keeps.

use crate::action::{Action, ActionView, Event, StatsUse, TickType};
use crate::auth::{received_config, ServerAuthResult};
use crate::buffers::be_value;
use crate::codec::ENCODING_REQUEST_PKT_MAX_RETRANSMISSION_ATTEMPTS;
use crate::connection::{ConnectionActivity, ConnectionMode, ConnectionView, Core, State};
use crate::control::counters_payload;
use crate::error::ConnectionError;
use crate::expresslane::{Expresslane, ExpresslaneState, MAX_RETRANSMISSION_ATTEMPTS};
use crate::gso::GsoPlan;
use crate::health::{counter_delta, one_more, strikes_after};
use crate::inbound::VersionReading;
use crate::inside_ip::InsideIpConfig;
use crate::lifecycle::NewConnectionArgs;
use crate::outbound::{CodecStatus, PluginResult};
use crate::pmtud::{PmtudAction, PmtudReport, PmtudStep};
use crate::queue::{WriteOutcome, MAX_TLS_PENDING_QUEUE_PACKETS};
use crate::time::Instant;
use crate::tls;
use crate::wire::{
    AuthSuccessWithConfigV4, EncodingRequest, EncodingResponse, ExpresslaneConfig,
    ExpresslaneError, ExpresslaneKey, ExpresslaneVersion, Frame, FrameView, Header, SessionId,
    Version, KEEPALIVE_ID,
};
use vstd::prelude::*;

verus! {

/// A step of the application's making.
pub enum HostMove {
    /// Inside path configured
    InsideIo,
    /// Outside path replaced
    OutsideIo(Instant),
    /// Address of the peer changed
    PeerAddrChanged,
    /// Protocol version asked for
    SetVersion(Version),
    /// Offloaded traffic seen
    Offload(bool, bool, Instant, bool),
    /// Encoding asked for
    SetEncoding(bool),
    /// Sign of life asked for
    Keepalive,
    /// Connection ended
    Disconnect,
}

/// A step that time brings about.
pub enum TimerMove {
    /// Timers of the session read
    Timers(tls::DtlsTimers),
    /// Tick
    Tick(TickType),
    /// Session asked whether it timed out
    TimeoutPolled(bool),
    /// Timer of path MTU discovery expired
    PmtudTick,
    /// Path MTU discovery took a step
    PmtudStepped(PmtudReport, PmtudAction),
}

/// A step on the way from the inside to the outside.
pub enum OutboundMove {
    /// Packet sent
    SendOutside(Seq<u8>, bool),
    /// Segment of a superpacket sent
    SendSegment(GsoPlan, Option<Seq<u8>>),
    /// Encoder offered a packet
    EncoderOffered(Seq<u8>, Result<CodecStatus, String>),
    /// Frame put into the queue, if it may wait
    Enqueue(FrameView, Seq<u8>),
    /// Buffer taken off the queue, offered to the session and put back as far
    /// as it was not written
    Write(Seq<u8>, WriteOutcome),
}

/// A step on the way from the outside to the inside.
pub enum InboundMove {
    /// Datagram arrived
    Arrived,
    /// Payload of a datagram looked at
    OutsideDataAt(Instant),
    /// Session negotiated
    Negotiated(Result<tls::Poll<()>, tls::Error>),
    /// Session read
    Read(Result<tls::Poll<()>, tls::Error>),
    /// Frame received
    Received(FrameView, VersionReading, bool),
    /// Frames of a datagram handled
    DatagramDone(Option<Header>, usize),
}

/// A step with a packet of the peer.
pub enum PacketMove {
    /// Packet decrypted
    Decrypted(Result<(Seq<u8>, bool), ExpresslaneError>),
    /// Packet put together from slices
    Reassembled(Seq<u8>, bool),
    /// Decoder offered a packet
    DecoderOffered(Seq<u8>, Result<CodecStatus, String>),
    /// Plugins saw a packet on its way inside
    Egress(PluginResult, Instant),
}

/// A step that concerns keys, counters or the session identifier.
pub enum KeyMove {
    /// Expresslane key rotation nudged
    RotateKey(bool),
    /// Expresslane key made up and installed
    KeyInstalled(ExpresslaneKey, bool, Instant),
    /// Expresslane key taken into use
    KeyPromoted(ExpresslaneKey, bool),
    /// Expresslane key of the peer installed
    PeerKeyInstalled(ExpresslaneConfig, Result<bool, ExpresslaneError>, bool),
    /// Packet counters read
    StatsRead(StatsUse, Option<(u64, u64)>),
    /// Rotation of the session identifier begun
    RotateSession(SessionId),
    /// Session asked to update its keys
    UpdateTriggered(Result<tls::Poll<()>, tls::Error>),
    /// Update of the keys looked at
    UpdateSettled(bool),
    /// Update of the keys known to be under way, or not
    UpdateMarked(bool),
}

/// A step that lets a client in.
pub enum AuthMove {
    /// Address for the client allocated
    IpAllocated(Seq<u8>, Option<InsideIpConfig>),
    /// Credentials judged
    Decided(InsideIpConfig, usize, ServerAuthResult),
    /// Client told that it is let in
    Finished(Option<Version>, bool),
}

/// A step that a connection can be made to take, with what the step is told.
pub enum Move {
    /// Of the application's making
    Host(HostMove),
    /// Brought about by time
    Timer(TimerMove),
    /// From the inside to the outside
    Outbound(OutboundMove),
    /// From the outside to the inside
    Inbound(InboundMove),
    /// With a packet of the peer
    Packet(PacketMove),
    /// Concerns keys, counters or the session identifier
    Key(KeyMove),
    /// Lets a client in
    Auth(AuthMove),
}

impl<AppState> ConnectionView<AppState> {
    /// The connection after a step of the application's making.
    #[verifier::opaque]
    pub open spec fn after_host(self, m: HostMove) -> Self {
        match m {
            HostMove::InsideIo => self.inside_configured(),
            HostMove::OutsideIo(now) => self.outside_replaced(now),
            HostMove::PeerAddrChanged => self.publishing_keys(),
            HostMove::SetVersion(v) => self.versioned(v).0,
            HostMove::Offload(rx, tx, now, due) => self.offloading(rx, tx, now, due),
            HostMove::SetEncoding(enable) => self.requesting_encoding(enable).0,
            HostMove::Keepalive => self.keeping_alive(true),
            HostMove::Disconnect => self.disconnecting().0,
        }
    }

    /// The connection after a step that time brings about.
    #[verifier::opaque]
    pub open spec fn after_timer(self, m: TimerMove) -> Self {
        match m {
            TimerMove::Timers(timers) => self.ticking(timers),
            TimerMove::Tick(tick_type) => self.ticked(tick_type).0,
            TimerMove::TimeoutPolled(timed_out) => self.timeout_polled(timed_out).0,
            TimerMove::PmtudTick => self.discovery_ticked(),
            TimerMove::PmtudStepped(report, action) => self.discovery_stepped(report, action),
        }
    }

    /// The connection after a step on the way from the inside to the outside.
    #[verifier::opaque]
    pub open spec fn after_outbound(self, m: OutboundMove) -> Self {
        match m {
            OutboundMove::SendOutside(pkt, is_encoded) => self.sending_outside(pkt, is_encoded).0,
            OutboundMove::SendSegment(plan, segment) => self.sending_segment(plan, segment).0,
            OutboundMove::EncoderOffered(pkt, stored) => self.encoder_offered(pkt, stored).0,
            OutboundMove::Enqueue(frame, encoded) => if self.admits(frame) {
                self.queued(encoded)
            } else {
                self
            },
            OutboundMove::Write(rest, outcome) => if self.queue.len() > 0 {
                self.dequeued().written(rest, outcome).0
            } else {
                self
            },
        }
    }

    /// The connection after a step on the way from the outside to the inside.
    #[verifier::opaque]
    pub open spec fn after_inbound(self, m: InboundMove) -> Self {
        match m {
            InboundMove::Arrived => self.arriving().0,
            InboundMove::OutsideDataAt(now) => self.with_outside_data_at(now),
            InboundMove::Negotiated(polled) => self.negotiating(polled).0,
            InboundMove::Read(polled) => self.reading(polled).0,
            InboundMove::Received(frame, reading, due) => self.receiving(frame, reading, due).0,
            InboundMove::DatagramDone(hdr, frames_read) => self.datagram_done(hdr, frames_read),
        }
    }

    /// The connection after a step with a packet of the peer.
    #[verifier::opaque]
    pub open spec fn after_packet(self, m: PacketMove) -> Self {
        match m {
            PacketMove::Decrypted(data) => self.decrypted(data).0,
            PacketMove::Reassembled(data, is_encoded) => self.taking_data(data, is_encoded).0,
            PacketMove::DecoderOffered(pkt, stored) => self.decoder_offered(pkt, stored).0,
            PacketMove::Egress(verdict, now) => self.egressing(verdict, now).0,
        }
    }

    /// The connection after a step that concerns keys, counters or the session
    /// identifier.
    #[verifier::opaque]
    pub open spec fn after_key(self, m: KeyMove) -> Self {
        match m {
            KeyMove::RotateKey(due) => self.rotating_key(due).0,
            KeyMove::KeyInstalled(key, enabled, now) => self.sharing(
                self.next_config(enabled, key),
                Some(now),
            ),
            KeyMove::KeyPromoted(key, valid) => self.key_promoted(key, valid),
            KeyMove::PeerKeyInstalled(config, installed, due) => self.peer_key_installed(
                config,
                installed,
                due,
            ).0,
            KeyMove::StatsRead(purpose, stats) => self.counters_read(purpose, stats),
            KeyMove::RotateSession(new) => self.rotating_session(new),
            KeyMove::UpdateTriggered(polled) => self.key_update_triggered(polled).0,
            KeyMove::UpdateSettled(completed) => self.key_update_settled(completed),
            KeyMove::UpdateMarked(pending) => self.key_update_marked(pending),
        }
    }

    /// The connection after a step that lets a client in.
    #[verifier::opaque]
    pub open spec fn after_auth(self, m: AuthMove) -> Self {
        match m {
            AuthMove::IpAllocated(auth_method, ip_config) => self.ip_allocated(
                auth_method,
                ip_config,
            ).0,
            AuthMove::Decided(ip_config, mtu, decision) => self.decided(
                ip_config,
                mtu,
                decision,
            ).0,
            AuthMove::Finished(version, due) => self.authentication_finished(version, due).0,
        }
    }

    /// The connection after a step.
    pub open spec fn after(self, m: Move) -> Self {
        match m {
            Move::Host(m) => self.after_host(m),
            Move::Timer(m) => self.after_timer(m),
            Move::Outbound(m) => self.after_outbound(m),
            Move::Inbound(m) => self.after_inbound(m),
            Move::Packet(m) => self.after_packet(m),
            Move::Key(m) => self.after_key(m),
            Move::Auth(m) => self.after_auth(m),
        }
    }

    /// The session identifier that a server is moving to, if it is.
    pub open spec fn pending_session(self) -> Option<SessionId> {
        match self.core.mode {
            ConnectionMode::Client => None,
            ConnectionMode::Server { pending_session_id, .. } => pending_session_id,
        }
    }

    /// The connection with the activity statistics and the session identifiers
    /// of another.
    pub open spec fn marked(self, other: Self) -> Self {
        self.with_core(
            Core {
                activity: other.core.activity,
                session_id: other.core.session_id,
                mode: match self.core.mode {
                    ConnectionMode::Client => ConnectionMode::Client,
                    ConnectionMode::Server { has_auth_handle, key_update_pending, .. } =>
                        ConnectionMode::Server {
                        has_auth_handle,
                        key_update_pending,
                        pending_session_id: other.pending_session(),
                    },
                },
                ..self.core
            },
        )
    }

    /// What holds of a connection at any time: nothing is repeated more often
    /// than it may be, no more buffers wait than may, and path MTU discovery
    /// reports sizes that make sense.
    pub open spec fn bounded(self) -> bool {
        &&& self.core.expresslane.retransmit_count <= MAX_RETRANSMISSION_ATTEMPTS
        &&& self.core.encoding_request_states.retransmissions_counter
            <= ENCODING_REQUEST_PKT_MAX_RETRANSMISSION_ATTEMPTS
        &&& self.queue.len() <= MAX_TLS_PENDING_QUEUE_PACKETS
        &&& self.core.path_wf()
    }
}

/// What every step keeps, apart from the activity statistics and the session
/// identifiers that some steps are for: the setup of the connection, its bounds
/// once they hold, and that a degraded expresslane stays so.
#[verifier::opaque]
pub open spec fn kept<AppState>(
    before: ConnectionView<AppState>,
    after: ConnectionView<AppState>,
) -> bool {
    &&& after.core.connection_type == before.core.connection_type
    &&& (after.core.mode is Client) == (before.core.mode is Client)
    &&& after.core.outside_mtu == before.core.outside_mtu
    &&& after.core.max_data_size == before.core.max_data_size
    &&& after.core.has_encoder == before.core.has_encoder
    &&& after.core.has_decoder == before.core.has_decoder
    &&& after.auth_method == before.auth_method
    &&& after.app_state == before.app_state
    &&& after.core.activity == before.core.activity
    &&& after.core.session_id == before.core.session_id
    &&& after.pending_session() == before.pending_session()
    &&& before.bounded() ==> after.bounded()
    &&& before.core.expresslane.state is Degraded ==> after.core.expresslane.state is Degraded
}

proof fn nothing_keeps<A>(c: ConnectionView<A>)
    ensures
        kept(c, c),
{
    reveal(kept);
}

proof fn keeping_composes<A>(a: ConnectionView<A>, b: ConnectionView<A>, c: ConnectionView<A>)
    requires
        kept(a, b),
        kept(b, c),
    ensures
        kept(a, c),
{
    reveal(kept);
}

proof fn nothing_is_marked<A>(c: ConnectionView<A>, after: ConnectionView<A>)
    requires
        kept(c, after),
    ensures
        kept(c.marked(after), after),
{
    assert(c.marked(after) == c) by {
        reveal(kept);
    }
}

proof fn emitting_keeps<A>(c: ConnectionView<A>, action: ActionView)
    ensures
        kept(c, c.emit(action)),
{
    reveal(kept);
}

proof fn moving_keeps<A>(c: ConnectionView<A>, state: State)
    ensures
        kept(c, c.moved_to(state)),
{
    reveal(kept);
}

proof fn sharing_keeps<A>(c: ConnectionView<A>, config: ExpresslaneConfig, rotated: Option<Instant>)
    ensures
        kept(c, c.sharing(config, rotated)),
{
    reveal(kept);
}

proof fn degrading_keeps<A>(c: ConnectionView<A>)
    ensures
        kept(c, c.degraded()),
        c.degraded().core.expresslane.state is Degraded,
{
    let given_up = c.expresslane_moved_to(ExpresslaneState::Degraded);
    let emptied = given_up.emit(Action::InvalidateNextSelfKey);
    assert(kept(c, given_up)) by {
        reveal(kept);
    }
    emitting_keeps(given_up, Action::InvalidateNextSelfKey);
    let config = emptied.next_config(false, ExpresslaneKey::spec_invalid());
    sharing_keeps(emptied, config, emptied.core.expresslane.last_key_rotation);
    keeping_composes(c, given_up, emptied);
    keeping_composes(c, emptied, c.degraded());
}

proof fn rotating_keeps<A>(c: ConnectionView<A>, due: bool)
    ensures
        kept(c, c.rotating_key(due).0),
{
    nothing_keeps(c);
    emitting_keeps(c, Action::ShareExpresslaneKey);
}

proof fn publishing_keeps<A>(c: ConnectionView<A>)
    ensures
        kept(c, c.publishing_keys()),
{
    nothing_keeps(c);
    emitting_keeps(
        c,
        Action::PublishExpresslaneKey {
            session_id: c.core.session_id,
            self_key: c.core.expresslane.self_key,
            peer_key: c.core.expresslane.peer_key,
            version: c.core.expresslane.version,
        },
    );
}

proof fn driving_keeps<A>(c: ConnectionView<A>, step: PmtudStep<Seq<u8>>)
    ensures
        kept(c, c.driving_pmtud(step)),
{
    nothing_keeps(c);
    emitting_keeps(c, Action::DrivePmtud(step));
}

proof fn authenticating_keeps<A>(c: ConnectionView<A>)
    ensures
        kept(c, c.authenticating()),
{
    let moved = c.moved_to(State::Authenticating);
    moving_keeps(c, State::Authenticating);
    emitting_keeps(moved, Action::Send { frame: Frame::AuthRequest(c.auth_method), required: true });
    keeping_composes(c, moved, c.authenticating());
}

proof fn entering_keeps<A>(c: ConnectionView<A>, state: State, due: bool)
    ensures
        kept(c, c.entering(state, due).0),
{
    let moved = c.moved_to(state);
    let calm = moved.emit(Action::SetAggressiveSend(false));
    let keyed = calm.rotating_key(due).0;
    nothing_keeps(c);
    moving_keeps(c, state);
    emitting_keeps(moved, Action::SetAggressiveSend(false));
    rotating_keeps(calm, due);
    driving_keeps(keyed, PmtudStep::Online);
    authenticating_keeps(moved);
    keeping_composes(c, moved, calm);
    keeping_composes(c, calm, keyed);
    keeping_composes(c, keyed, keyed.driving_pmtud(PmtudStep::Online));
    keeping_composes(c, moved, moved.authenticating());
}

proof fn disconnecting_keeps<A>(c: ConnectionView<A>)
    ensures
        kept(c, c.disconnecting().0),
{
    let leaving = c.moved_to(State::Disconnecting);
    let freed = if c.core.mode is Server {
        leaving.emit(Action::FreeClientIp)
    } else {
        leaving
    };
    let told = freed.emit(Action::Send { frame: Frame::Goodbye, required: false });
    let shut = told.emit(Action::Shutdown);
    nothing_keeps(c);
    moving_keeps(c, State::Disconnecting);
    emitting_keeps(leaving, Action::FreeClientIp);
    nothing_keeps(leaving);
    emitting_keeps(freed, Action::Send { frame: Frame::Goodbye, required: false });
    emitting_keeps(told, Action::Shutdown);
    moving_keeps(shut, State::Disconnected);
    keeping_composes(c, leaving, freed);
    keeping_composes(c, freed, told);
    keeping_composes(c, told, shut);
    keeping_composes(c, shut, shut.moved_to(State::Disconnected));
}

proof fn refusing_keeps<A>(c: ConnectionView<A>)
    ensures
        kept(c, c.refusing()),
{
    let told = c.emit(Action::Send { frame: Frame::AuthFailure, required: false });
    emitting_keeps(c, Action::Send { frame: Frame::AuthFailure, required: false });
    disconnecting_keeps(told);
    keeping_composes(c, told, c.refusing());
}

proof fn acknowledging_keeps<A>(c: ConnectionView<A>, config: ExpresslaneConfig, due: bool)
    ensures
        kept(c, c.acknowledging(config, due)),
{
    let frame = Frame::ExpresslaneConfig(
        ExpresslaneConfig { ack: true, version: c.core.expresslane.version, ..config },
    );
    let told = c.emit(Action::Send { frame, required: false });
    emitting_keeps(c, Action::Send { frame, required: false });
    rotating_keeps(told, due);
    keeping_composes(c, told, c.acknowledging(config, due));
}

proof fn lane_moving_keeps<A>(c: ConnectionView<A>, state: ExpresslaneState)
    requires
        c.core.expresslane.state !is Degraded,
    ensures
        kept(c, c.expresslane_moved_to(state)),
{
    reveal(kept);
}

proof fn offered_keeps<A>(c: ConnectionView<A>, config: ExpresslaneConfig, due: bool)
    ensures
        kept(c, c.offered(config, due)),
{
    nothing_keeps(c);
    if c.core.expresslane.state !is Degraded {
        let awake = if c.core.expresslane.state is WaitingForClient {
            c.expresslane_moved_to(ExpresslaneState::Inactive)
        } else {
            c
        };
        lane_moving_keeps(c, ExpresslaneState::Inactive);
        if config.enabled {
            emitting_keeps(awake, Action::InstallPeerKey(config));
        } else {
            let inactive = awake.expresslane_moved_to(ExpresslaneState::Inactive);
            lane_moving_keeps(awake, ExpresslaneState::Inactive);
            acknowledging_keeps(inactive, config, due);
            keeping_composes(awake, inactive, c.offered(config, due));
        }
        keeping_composes(c, awake, c.offered(config, due));
    }
}

proof fn config_keeps<A>(
    c: ConnectionView<A>,
    config: ExpresslaneConfig,
    reading: VersionReading,
    due: bool,
)
    ensures
        kept(c, c.receiving_config(config, reading.negotiated, reading.accepted, due).0),
{
    let versed = c.with_negotiated(reading.negotiated, reading.accepted);
    nothing_keeps(c);
    assert(kept(c, versed)) by {
        reveal(kept);
    }
    nothing_keeps(versed);
    emitting_keeps(versed, Action::PromoteSelfKey);
    offered_keeps(versed, config, due);
    keeping_composes(c, versed, versed.acknowledged(config.counter));
    keeping_composes(c, versed, versed.offered(config, due));
}

proof fn promoting_keeps<A>(c: ConnectionView<A>, key: ExpresslaneKey, valid: bool)
    ensures
        kept(c, c.key_promoted(key, valid)),
{
    let keyed = c.with_expresslane(
        Expresslane {
            self_key: key,
            has_valid_keys: valid,
            retransmit_count: 0,
            ..c.core.expresslane
        },
    );
    let published = keyed.publishing_keys();
    assert(kept(c, keyed)) by {
        reveal(kept);
    }
    publishing_keeps(keyed);
    keeping_composes(c, keyed, published);
    if published.core.expresslane.state !is Degraded {
        lane_moving_keeps(published, ExpresslaneState::Active);
        keeping_composes(c, published, published.expresslane_moved_to(ExpresslaneState::Active));
    }
}

proof fn peer_key_keeps<A>(
    c: ConnectionView<A>,
    config: ExpresslaneConfig,
    installed: Result<bool, ExpresslaneError>,
    due: bool,
)
    ensures
        kept(c, c.peer_key_installed(config, installed, due).0),
{
    nothing_keeps(c);
    if installed is Ok && c.core.expresslane.state !is Degraded {
        let has_valid_keys = installed->Ok_0;
        let keyed = c.with_expresslane(
            Expresslane { peer_key: config.key, has_valid_keys, ..c.core.expresslane },
        );
        let published = keyed.publishing_keys();
        assert(kept(c, keyed)) by {
            reveal(kept);
        }
        publishing_keeps(keyed);
        keeping_composes(c, keyed, published);
        let settled = if has_valid_keys {
            published.expresslane_moved_to(ExpresslaneState::Active)
        } else {
            published
        };
        nothing_keeps(published);
        lane_moving_keeps(published, ExpresslaneState::Active);
        keeping_composes(c, published, settled);
        acknowledging_keeps(settled, config, due);
        keeping_composes(c, settled, settled.acknowledging(config, due));
    }
}

proof fn repeating_keeps<A>(c: ConnectionView<A>, config: ExpresslaneConfig)
    ensures
        kept(c, c.repeating_config(config).0),
{
    reveal(kept);
}

proof fn health_keeps<A>(c: ConnectionView<A>, payload: Seq<u8>)
    ensures
        kept(c, c.checking_health(payload)),
{
    let expresslane = c.core.expresslane;
    let missing = one_more(expresslane.missing_peer_reports);
    let counted = c.with_expresslane(
        Expresslane { missing_peer_reports: missing, ..expresslane },
    );
    let reset = c.with_expresslane(Expresslane { missing_peer_reports: 0, ..expresslane });
    assert(kept(c, counted) && kept(c, reset)) by {
        reveal(kept);
    }
    nothing_keeps(c);
    degrading_keeps(counted);
    keeping_composes(c, counted, counted.degraded());
    let read = Action::ReadStats {
        session_id: c.core.session_id,
        purpose: StatsUse::Health {
            peer_sent: be_value(payload.subrange(0, 8)),
            peer_recv: be_value(payload.subrange(8, 16)),
        },
    };
    emitting_keeps(reset, read);
    keeping_composes(c, reset, reset.emit(read));
}

proof fn comparing_keeps<A>(
    c: ConnectionView<A>,
    peer_sent: u64,
    peer_recv: u64,
    stats: Option<(u64, u64)>,
)
    ensures
        kept(c, c.health_checked(peer_sent, peer_recv, stats)),
{
    let expresslane = c.core.expresslane;
    match stats {
        None => {
            let missing = one_more(expresslane.missing_local_readings);
            let counted = c.with_expresslane(
                Expresslane { missing_local_readings: missing, ..expresslane },
            );
            assert(kept(c, counted)) by {
                reveal(kept);
            }
            degrading_keeps(counted);
            keeping_composes(c, counted, counted.degraded());
        },
        Some((sent, recv)) => {
            let (inbound, inbound_bad) = strikes_after(
                expresslane.inbound_strikes,
                counter_delta(peer_sent, expresslane.prev_peer_sent),
                counter_delta(recv, expresslane.last_snapshot_recv),
            );
            let (outbound, outbound_bad) = strikes_after(
                expresslane.outbound_strikes,
                counter_delta(sent, expresslane.last_snapshot_sent),
                counter_delta(peer_recv, expresslane.prev_peer_recv),
            );
            let compared = c.with_expresslane(
                Expresslane {
                    missing_local_readings: 0,
                    prev_peer_sent: peer_sent,
                    prev_peer_recv: peer_recv,
                    last_snapshot_sent: sent,
                    last_snapshot_recv: recv,
                    inbound_strikes: inbound,
                    outbound_strikes: if inbound_bad {
                        expresslane.outbound_strikes
                    } else {
                        outbound
                    },
                    ..expresslane
                },
            );
            assert(kept(c, compared)) by {
                reveal(kept);
            }
            degrading_keeps(compared);
            keeping_composes(c, compared, compared.degraded());
        },
    }
}

proof fn counters_keep<A>(c: ConnectionView<A>, purpose: StatsUse, stats: Option<(u64, u64)>)
    ensures
        kept(c, c.counters_read(purpose, stats)),
{
    match purpose {
        StatsUse::Ping { required } => emitting_keeps(
            c,
            Action::Send {
                frame: Frame::Ping { id: KEEPALIVE_ID, payload: counters_payload(stats) },
                required,
            },
        ),
        StatsUse::Pong { id } => emitting_keeps(
            c,
            Action::Send {
                frame: Frame::Pong { id, payload: counters_payload(stats) },
                required: true,
            },
        ),
        StatsUse::Health { peer_sent, peer_recv } => comparing_keeps(
            c,
            peer_sent,
            peer_recv,
            stats,
        ),
    }
}

proof fn pong_keeps<A>(c: ConnectionView<A>, id: u16, payload: Seq<u8>)
    ensures
        kept(c, c.pong_received(id, payload).0),
{
    let told = c.emit(Action::Event(Event::KeepaliveReply));
    let checked = if id == KEEPALIVE_ID {
        told.checking_health(payload)
    } else {
        c
    };
    nothing_keeps(c);
    emitting_keeps(c, Action::Event(Event::KeepaliveReply));
    health_keeps(told, payload);
    keeping_composes(c, told, told.checking_health(payload));
    driving_keeps(checked, PmtudStep::PongReceived { id, payload });
    keeping_composes(c, checked, checked.driving_pmtud(PmtudStep::PongReceived { id, payload }));
}

proof fn success_keeps<A>(
    c: ConnectionView<A>,
    cfg: AuthSuccessWithConfigV4<Seq<char>>,
    due: bool,
)
    ensures
        kept(c, c.auth_succeeded(cfg, due).0),
{
    nothing_keeps(c);
    if let Some(ip_config) = received_config(cfg) {
        let applied = c.emit(Action::ApplyIpConfig(ip_config));
        emitting_keeps(c, Action::ApplyIpConfig(ip_config));
        entering_keeps(applied, State::Online, due);
        keeping_composes(c, applied, applied.entering(State::Online, due).0);
    }
}

proof fn finishing_keeps<A>(c: ConnectionView<A>, version: Option<Version>, due: bool)
    ensures
        kept(c, c.authentication_finished(version, due).0),
{
    let versed = match version {
        Some(v) => c.versioned(v).0,
        None => c,
    };
    assert(kept(c, versed)) by {
        reveal(kept);
    }
    entering_keeps(versed, State::Online, due);
    keeping_composes(c, versed, versed.entering(State::Online, due).0);
}

proof fn keepalive_keeps<A>(c: ConnectionView<A>, required: bool)
    ensures
        kept(c, c.keeping_alive(required)),
{
    reveal(kept);
}

proof fn session_keeps<A>(c: ConnectionView<A>, session: Option<SessionId>)
    ensures
        kept(c.marked(c.session_seen(session)), c.session_seen(session)),
{
    reveal(kept);
}

proof fn datagram_keeps<A>(c: ConnectionView<A>, hdr: Option<Header>, frames_read: usize)
    ensures
        kept(c.marked(c.datagram_done(hdr, frames_read)), c.datagram_done(hdr, frames_read)),
{
    nothing_keeps(c);
    nothing_is_marked(c, c);
    session_keeps(
        c,
        match hdr {
            Some(hdr) => Some(hdr.session),
            None => None,
        },
    );
}

proof fn session_rotation_keeps<A>(c: ConnectionView<A>, new: SessionId)
    ensures
        kept(c.marked(c.rotating_session(new)), c.rotating_session(new)),
{
    let marked = c.marked(c.rotating_session(new));
    nothing_keeps(c);
    if let ConnectionMode::Server { has_auth_handle, key_update_pending, .. } = c.core.mode {
        let stamped = c.emit(Action::SetSessionId(new)).with_mode(
            ConnectionMode::Server {
                has_auth_handle,
                key_update_pending,
                pending_session_id: Some(new),
            },
        );
        let started = stamped.event(
            Event::SessionIdRotationStarted { old: c.core.session_id, new },
        );
        assert(kept(marked, stamped) && kept(stamped, started)) by {
            reveal(kept);
        }
        keepalive_keeps(started, false);
        keeping_composes(marked, stamped, started);
        keeping_composes(marked, started, c.rotating_session(new));
    }
}

proof fn data_keeps<A>(c: ConnectionView<A>, data: Seq<u8>, is_encoded: bool)
    ensures
        kept(c, c.taking_data(data, is_encoded).0),
        kept(c, c.delivering(data).0),
{
    nothing_keeps(c);
    emitting_keeps(c, Action::DeliverInside(data));
    emitting_keeps(c, Action::DecodePacket(data));
}

proof fn sending_keeps<A>(c: ConnectionView<A>, data: Seq<u8>, is_encoded: bool)
    ensures
        kept(c, c.sending_outside(data, is_encoded).0),
        kept(c, c.sending_data(data, is_encoded).0),
{
    reveal(kept);
}

proof fn encoding_keeps<A>(c: ConnectionView<A>, er: EncodingRequest, response: EncodingResponse)
    ensures
        kept(c, c.encoding_requested(er).0),
        kept(c, c.encoding_answered(response).0),
{
    reveal(kept);
}

proof fn codec_tick_keeps<A>(c: ConnectionView<A>, request_id: u64, enable: bool)
    ensures
        kept(c, c.codec_ticked(request_id).0),
        kept(c, c.requesting_encoding(enable).0),
{
    reveal(kept);
}

proof fn receiving_keeps<A>(
    c: ConnectionView<A>,
    frame: FrameView,
    reading: VersionReading,
    due: bool,
)
    ensures
        kept(c, c.receiving(frame, reading, due).0),
{
    nothing_keeps(c);
    match frame {
        Frame::Ping { id, .. } => {
            assert(kept(c, c.answering_ping(id).0)) by {
                reveal(kept);
            }
        },
        Frame::Pong { id, payload } => pong_keeps(c, id, payload),
        Frame::AuthRequest(auth_method) => emitting_keeps(
            c,
            Action::AllocateClientIp { auth_method },
        ),
        Frame::Data(data) => data_keeps(c, data, false),
        Frame::EncodedData(data) => data_keeps(c, data, true),
        Frame::DataFrag(frag) => emitting_keeps(
            c,
            Action::AddFragment { frag, is_encoded: false },
        ),
        Frame::EncodedDataFrag(frag) => emitting_keeps(
            c,
            Action::AddFragment { frag, is_encoded: true },
        ),
        Frame::AuthSuccessWithConfigV4(cfg) => success_keeps(c, cfg, due),
        Frame::EncodingRequest(er) => encoding_keeps(
            c,
            er,
            EncodingResponse { id: er.id, enable: er.enable },
        ),
        Frame::EncodingResponse(er) => encoding_keeps(
            c,
            EncodingRequest { id: er.id, enable: er.enable },
            er,
        ),
        Frame::ExpresslaneConfig(config) => config_keeps(c, config, reading, due),
        Frame::NoOp => {},
        Frame::AuthFailure => {},
        Frame::Goodbye => {},
        Frame::ServerConfig => {},
    }
}

proof fn ticking_keeps<A>(c: ConnectionView<A>, tick_type: TickType)
    ensures
        kept(c, c.ticked(tick_type).0),
{
    match tick_type {
        TickType::ConnectionTick => {
            let idle = c.with_core(Core { is_tick_timer_running: false, ..c.core });
            assert(kept(c, idle)) by {
                reveal(kept);
            }
            authenticating_keeps(idle);
            emitting_keeps(idle.authenticating(), Action::UpdateTickInterval);
            emitting_keeps(idle, Action::UpdateTickInterval);
            emitting_keeps(idle, Action::CheckDtlsTimeout);
            keeping_composes(c, idle, idle.authenticating());
            keeping_composes(
                c,
                idle.authenticating(),
                idle.authenticating().emit(Action::UpdateTickInterval),
            );
            keeping_composes(c, idle, idle.emit(Action::UpdateTickInterval));
            keeping_composes(c, idle, idle.emit(Action::CheckDtlsTimeout));
        },
        TickType::PktCodecTick(request_id) => codec_tick_keeps(c, request_id, false),
        TickType::ExpresslaneKeyShareTick(config) => repeating_keeps(c, config.0),
    }
}

proof fn decision_keeps<A>(
    c: ConnectionView<A>,
    ip_config: InsideIpConfig,
    mtu: usize,
    decision: ServerAuthResult,
)
    ensures
        kept(c, c.decided(ip_config, mtu, decision).0),
{
    refusing_keeps(c);
    if decision is Granted {
        reveal(kept);
    }
}

proof fn host_keeps<A>(c: ConnectionView<A>, m: HostMove)
    ensures
        kept(c.marked(c.after_host(m)), c.after_host(m)),
{
    reveal(ConnectionView::after_host);
    let after = c.after_host(m);
    match m {
        HostMove::Offload(_, _, _, due) => rotating_keeps(c.marked(after), due),
        HostMove::OutsideIo(_) => nothing_keeps(after),
        HostMove::PeerAddrChanged => {
            publishing_keeps(c);
            nothing_is_marked(c, after);
        },
        HostMove::SetEncoding(enable) => {
            codec_tick_keeps(c, 0, enable);
            nothing_is_marked(c, after);
        },
        HostMove::Keepalive => {
            keepalive_keeps(c, true);
            nothing_is_marked(c, after);
        },
        HostMove::Disconnect => {
            disconnecting_keeps(c);
            nothing_is_marked(c, after);
        },
        HostMove::SetVersion(v) => {
            assert(kept(c, c.versioned(v).0)) by {
                reveal(kept);
            }
            nothing_is_marked(c, after);
        },
        HostMove::InsideIo => {
            assert(kept(c, after)) by {
                reveal(kept);
            }
            nothing_is_marked(c, after);
        },
    }
}

proof fn timer_keeps<A>(c: ConnectionView<A>, m: TimerMove)
    requires
        m matches TimerMove::PmtudStepped(report, _) ==> report.wf(),
    ensures
        kept(c, c.after_timer(m)),
{
    reveal(ConnectionView::after_timer);
    nothing_keeps(c);
    match m {
        TimerMove::Timers(timers) => {
            assert(kept(c, c.ticking(timers))) by {
                reveal(kept);
            }
        },
        TimerMove::Tick(tick_type) => ticking_keeps(c, tick_type),
        TimerMove::TimeoutPolled(_) => {
            disconnecting_keeps(c);
            emitting_keeps(c, Action::UpdateTickInterval);
        },
        TimerMove::PmtudTick => driving_keeps(c, PmtudStep::Tick),
        TimerMove::PmtudStepped(report, action) => discovery_keeps(c, report, action),
    }
}

proof fn discovery_keeps<A>(c: ConnectionView<A>, report: PmtudReport, action: PmtudAction)
    requires
        report.wf(),
    ensures
        kept(c, c.discovery_stepped(report, action)),
{
    reveal(kept);
}

proof fn outbound_keeps<A>(c: ConnectionView<A>, m: OutboundMove)
    ensures
        kept(c, c.after_outbound(m)),
{
    reveal(ConnectionView::after_outbound);
    nothing_keeps(c);
    match m {
        OutboundMove::SendOutside(pkt, is_encoded) => sending_keeps(c, pkt, is_encoded),
        OutboundMove::SendSegment(_, segment) => if let Some(segment) = segment {
            sending_keeps(c, segment, false);
        },
        OutboundMove::EncoderOffered(pkt, _) => sending_keeps(c, pkt, false),
        OutboundMove::Enqueue(_, _) => {
            reveal(kept);
        },
        OutboundMove::Write(_, _) => {
            reveal(kept);
        },
    }
}

proof fn inbound_keeps<A>(c: ConnectionView<A>, m: InboundMove)
    requires
        m !is OutsideDataAt,
        m matches InboundMove::DatagramDone(_, frames_read) ==> frames_read == 0,
    ensures
        kept(c, c.after_inbound(m)),
{
    reveal(ConnectionView::after_inbound);
    nothing_keeps(c);
    match m {
        InboundMove::Arrived => {
            assert(kept(c, c.arriving().0)) by {
                reveal(kept);
            }
        },
        InboundMove::OutsideDataAt(_) => {},
        InboundMove::Negotiated(_) => {
            emitting_keeps(c, Action::UpdateTickInterval);
            entering_keeps(c, State::LinkUp, false);
        },
        InboundMove::Read(polled) => {
            assert(kept(c, c.reading(polled).0)) by {
                reveal(kept);
            }
        },
        InboundMove::Received(frame, reading, due) => receiving_keeps(c, frame, reading, due),
        InboundMove::DatagramDone(_, _) => {},
    }
}

proof fn packet_keeps<A>(c: ConnectionView<A>, m: PacketMove)
    requires
        m !is Egress,
    ensures
        kept(c, c.after_packet(m)),
{
    reveal(ConnectionView::after_packet);
    nothing_keeps(c);
    match m {
        PacketMove::Decrypted(data) => if let Ok((data, is_encoded)) = data {
            data_keeps(c, data, is_encoded);
        },
        PacketMove::Reassembled(data, is_encoded) => data_keeps(c, data, is_encoded),
        PacketMove::DecoderOffered(pkt, _) => data_keeps(c, pkt, false),
        PacketMove::Egress(_, _) => {},
    }
}

proof fn key_keeps<A>(c: ConnectionView<A>, m: KeyMove)
    requires
        m !is RotateSession,
    ensures
        kept(c, c.after_key(m)),
{
    reveal(ConnectionView::after_key);
    nothing_keeps(c);
    match m {
        KeyMove::RotateKey(due) => rotating_keeps(c, due),
        KeyMove::KeyInstalled(key, enabled, now) => sharing_keeps(
            c,
            c.next_config(enabled, key),
            Some(now),
        ),
        KeyMove::KeyPromoted(key, valid) => promoting_keeps(c, key, valid),
        KeyMove::PeerKeyInstalled(config, installed, due) => peer_key_keeps(
            c,
            config,
            installed,
            due,
        ),
        KeyMove::StatsRead(purpose, stats) => counters_keep(c, purpose, stats),
        KeyMove::RotateSession(_) => {},
        KeyMove::UpdateTriggered(polled) => {
            assert(kept(c, c.key_update_triggered(polled).0)) by {
                reveal(kept);
            }
        },
        KeyMove::UpdateSettled(completed) => {
            assert(kept(c, c.key_update_settled(completed))) by {
                reveal(kept);
            }
        },
        KeyMove::UpdateMarked(pending) => {
            assert(kept(c, c.key_update_marked(pending))) by {
                reveal(kept);
            }
        },
    }
}

proof fn auth_keeps<A>(c: ConnectionView<A>, m: AuthMove)
    ensures
        kept(c, c.after_auth(m)),
{
    reveal(ConnectionView::after_auth);
    nothing_keeps(c);
    match m {
        AuthMove::IpAllocated(auth_method, ip_config) => {
            refusing_keeps(c);
            if let Some(ip_config) = ip_config {
                emitting_keeps(c, Action::Authorize { auth_method, ip_config });
            }
        },
        AuthMove::Decided(ip_config, mtu, decision) => decision_keeps(c, ip_config, mtu, decision),
        AuthMove::Finished(version, due) => finishing_keeps(c, version, due),
    }
}

proof fn outside_data_step<A>(c: ConnectionView<A>, now: Instant)
    ensures
        c.after_inbound(InboundMove::OutsideDataAt(now)) == c.with_outside_data_at(now),
{
    reveal(ConnectionView::after_inbound);
}

proof fn datagram_step<A>(c: ConnectionView<A>, hdr: Option<Header>, frames_read: usize)
    ensures
        c.after_inbound(InboundMove::DatagramDone(hdr, frames_read)) == c.datagram_done(
            hdr,
            frames_read,
        ),
{
    reveal(ConnectionView::after_inbound);
}

proof fn egress_step<A>(c: ConnectionView<A>, verdict: PluginResult, now: Instant)
    ensures
        c.after_packet(PacketMove::Egress(verdict, now)) == c.egressing(verdict, now).0,
{
    reveal(ConnectionView::after_packet);
}

proof fn session_rotation_step<A>(c: ConnectionView<A>, new: SessionId)
    ensures
        c.after_key(KeyMove::RotateSession(new)) == c.rotating_session(new),
{
    reveal(ConnectionView::after_key);
}

/// Every step keeps what [`kept`] says, if path MTU discovery keeps to sizes
/// that make sense.
pub proof fn every_step_keeps<AppState>(c: ConnectionView<AppState>, m: Move)
    requires
        m matches Move::Timer(TimerMove::PmtudStepped(report, _)) ==> report.wf(),
    ensures
        kept(c.marked(c.after(m)), c.after(m)),
{
    let after = c.after(m);
    match m {
        Move::Host(m) => host_keeps(c, m),
        Move::Timer(m) => {
            timer_keeps(c, m);
            nothing_is_marked(c, after);
        },
        Move::Outbound(m) => {
            outbound_keeps(c, m);
            nothing_is_marked(c, after);
        },
        Move::Inbound(InboundMove::OutsideDataAt(now)) => {
            outside_data_step(c, now);
            nothing_keeps(after);
        },
        Move::Inbound(InboundMove::DatagramDone(hdr, frames_read)) => {
            datagram_step(c, hdr, frames_read);
            datagram_keeps(c, hdr, frames_read);
        },
        Move::Inbound(m) => {
            inbound_keeps(c, m);
            nothing_is_marked(c, after);
        },
        Move::Packet(PacketMove::Egress(verdict, now)) => {
            egress_step(c, verdict, now);
            nothing_keeps(after);
        },
        Move::Packet(m) => {
            packet_keeps(c, m);
            nothing_is_marked(c, after);
        },
        Move::Key(KeyMove::RotateSession(new)) => {
            session_rotation_step(c, new);
            session_rotation_keeps(c, new);
        },
        Move::Key(m) => {
            key_keeps(c, m);
            nothing_is_marked(c, after);
        },
        Move::Auth(m) => {
            auth_keeps(c, m);
            nothing_is_marked(c, after);
        },
    }
}

/// What a step does to the activity statistics.
pub open spec fn activity_after(activity: ConnectionActivity, m: Move) -> ConnectionActivity {
    match m {
        Move::Host(HostMove::OutsideIo(now)) => ConnectionActivity {
            last_data_delivered_to_inside: now,
            ..activity
        },
        Move::Host(HostMove::Offload(rx, tx, now, _)) => ConnectionActivity {
            last_data_traffic_from_peer: if rx {
                now
            } else {
                activity.last_data_traffic_from_peer
            },
            last_outside_data_received: if rx || tx {
                now
            } else {
                activity.last_outside_data_received
            },
            ..activity
        },
        Move::Inbound(InboundMove::OutsideDataAt(now)) => ConnectionActivity {
            last_outside_data_received: now,
            ..activity
        },
        Move::Packet(PacketMove::Egress(PluginResult::Accept, now)) => ConnectionActivity {
            last_data_traffic_from_peer: now,
            last_data_delivered_to_inside: now,
            ..activity
        },
        _ => activity,
    }
}

/// The activity statistics tell what they say: control frames never count as
/// delivered data, what is sent never counts as data of the peer, and nothing
/// but a datagram that came, a packet that went inside, offloaded traffic or
/// another outside path touches them at all.
pub proof fn activity_tells_what_happened<AppState>(c: ConnectionView<AppState>, m: Move)
    ensures
        c.after(m).core.activity == activity_after(c.core.activity, m),
{
    match m {
        Move::Host(_) => {
            reveal(ConnectionView::after_host);
        },
        Move::Timer(TimerMove::PmtudStepped(_, _)) => {
            reveal(ConnectionView::after_timer);
        },
        Move::Timer(m) => {
            timer_keeps(c, m);
            reveal(kept);
        },
        Move::Outbound(m) => {
            outbound_keeps(c, m);
            reveal(kept);
        },
        Move::Inbound(InboundMove::OutsideDataAt(_)) => {
            reveal(ConnectionView::after_inbound);
        },
        Move::Inbound(InboundMove::DatagramDone(_, _)) => {
            reveal(ConnectionView::after_inbound);
        },
        Move::Inbound(m) => {
            inbound_keeps(c, m);
            reveal(kept);
        },
        Move::Packet(PacketMove::Egress(_, _)) => {
            reveal(ConnectionView::after_packet);
        },
        Move::Packet(m) => {
            packet_keeps(c, m);
            reveal(kept);
        },
        Move::Key(KeyMove::RotateSession(_)) => {
            reveal(ConnectionView::after_key);
        },
        Move::Key(m) => {
            key_keeps(c, m);
            reveal(kept);
        },
        Move::Auth(m) => {
            auth_keeps(c, m);
            reveal(kept);
        },
    }
}

impl<AppState> ConnectionView<AppState> {
    /// The session identifiers, current and pending, once valid traffic came
    /// with one.
    pub open spec fn sessions_seeing(self, session: SessionId) -> (SessionId, Option<SessionId>) {
        if !session.spec_is_empty() && (self.core.mode is Client || self.pending_session() == Some(
            session,
        )) {
            (session, if session == self.core.session_id {
                self.pending_session()
            } else {
                None
            })
        } else {
            (self.core.session_id, self.pending_session())
        }
    }

    /// The session identifiers, current and pending, after a step.
    pub open spec fn sessions_after(self, m: Move) -> (SessionId, Option<SessionId>) {
        match m {
            Move::Inbound(InboundMove::DatagramDone(Some(hdr), frames_read)) => if frames_read > 0 {
                self.sessions_seeing(hdr.session)
            } else {
                (self.core.session_id, self.pending_session())
            },
            Move::Key(KeyMove::RotateSession(new)) => if self.core.mode is Server {
                (self.core.session_id, Some(new))
            } else {
                (self.core.session_id, self.pending_session())
            },
            _ => (self.core.session_id, self.pending_session()),
        }
    }

    /// The connection after several steps.
    pub open spec fn after_all(self, moves: Seq<Move>) -> Self
        decreases moves.len(),
    {
        if moves.len() == 0 {
            self
        } else {
            self.after_all(moves.drop_last()).after(moves.last())
        }
    }
}

/// Whether a step can change the session identifiers: the end of a datagram
/// with valid frames in it can, and the beginning of a rotation.
pub open spec fn concerns_session(m: Move) -> bool {
    match m {
        Move::Inbound(InboundMove::DatagramDone(_, frames_read)) => frames_read > 0,
        Move::Key(KeyMove::RotateSession(_)) => true,
        _ => false,
    }
}

proof fn keeping_leaves_sessions<A>(c: ConnectionView<A>, after: ConnectionView<A>)
    requires
        kept(c, after),
    ensures
        after.core.session_id == c.core.session_id,
        after.pending_session() == c.pending_session(),
{
    reveal(kept);
}

proof fn host_leaves_sessions<A>(c: ConnectionView<A>, m: HostMove)
    ensures
        c.after_host(m).core.session_id == c.core.session_id,
        c.after_host(m).pending_session() == c.pending_session(),
{
    reveal(ConnectionView::after_host);
}

/// A session identifier counts only after its datagram has proved valid, and
/// a new one is pending only once its rotation has begun: no other step
/// touches either, whatever frames it handles.
pub proof fn sessions_change_with_valid_frames_alone<AppState>(
    c: ConnectionView<AppState>,
    m: Move,
)
    ensures
        (c.after(m).core.session_id, c.after(m).pending_session()) == c.sessions_after(m),
{
    match m {
        Move::Timer(TimerMove::PmtudStepped(report, action)) => {
            assert(c.after_timer(TimerMove::PmtudStepped(report, action)) == c.discovery_stepped(
                report,
                action,
            )) by {
                reveal(ConnectionView::after_timer);
            }
        },
        Move::Host(m) => host_leaves_sessions(c, m),
        Move::Timer(m) => {
            timer_keeps(c, m);
            keeping_leaves_sessions(c, c.after_timer(m));
        },
        Move::Outbound(m) => {
            outbound_keeps(c, m);
            keeping_leaves_sessions(c, c.after_outbound(m));
        },
        Move::Inbound(InboundMove::OutsideDataAt(now)) => outside_data_step(c, now),
        Move::Inbound(InboundMove::DatagramDone(hdr, frames_read)) => datagram_step(
            c,
            hdr,
            frames_read,
        ),
        Move::Inbound(m) => {
            inbound_keeps(c, m);
            keeping_leaves_sessions(c, c.after_inbound(m));
        },
        Move::Packet(PacketMove::Egress(verdict, now)) => egress_step(c, verdict, now),
        Move::Packet(m) => {
            packet_keeps(c, m);
            keeping_leaves_sessions(c, c.after_packet(m));
        },
        Move::Key(KeyMove::RotateSession(new)) => session_rotation_step(c, new),
        Move::Key(m) => {
            key_keeps(c, m);
            keeping_leaves_sessions(c, c.after_key(m));
        },
        Move::Auth(m) => {
            auth_keeps(c, m);
            keeping_leaves_sessions(c, c.after_auth(m));
        },
    }
}

/// However many frames are handled and whatever else happens, the session
/// identifiers stay as they are until a datagram with valid frames is through
/// or a rotation begins.
pub proof fn sessions_wait_for_valid_frames<AppState>(
    c: ConnectionView<AppState>,
    moves: Seq<Move>,
)
    requires
        forall|i: int| 0 <= i < moves.len() ==> !concerns_session(#[trigger] moves[i]),
    ensures
        c.after_all(moves).core.session_id == c.core.session_id,
        c.after_all(moves).pending_session() == c.pending_session(),
    decreases moves.len(),
{
    if moves.len() > 0 {
        let earlier = moves.drop_last();
        assert forall|i: int| 0 <= i < earlier.len() implies !concerns_session(
            #[trigger] earlier[i],
        ) by {
            assert(earlier[i] == moves[i]);
        }
        sessions_wait_for_valid_frames(c, earlier);
        assert(!concerns_session(moves[moves.len() - 1]));
        sessions_change_with_valid_frames_alone(c.after_all(earlier), moves.last());
    }
}

/// A new connection is within its bounds, if path MTU discovery begins with
/// sizes that make sense.
pub proof fn new_connections_are_bounded<AppState>(
    args: NewConnectionArgs<AppState>,
    now: Instant,
    linked: bool,
)
    requires
        args.pmtud matches Some(report) ==> report.wf(),
    ensures
        ConnectionView::fresh(args, now).begun(linked).bounded(),
{
    let fresh = ConnectionView::fresh(args, now);
    let linked_up = fresh.entering(State::LinkUp, false).0;
    entering_keeps(fresh, State::LinkUp, false);
    emitting_keeps(linked_up, Action::UpdateTickInterval);
    emitting_keeps(fresh, Action::UpdateTickInterval);
    reveal(kept);
}

/// A connection within its bounds can send a packet of any length: it finds
/// room for TCP segments, and for bytes in a slice.
pub proof fn bounded_connections_can_send<AppState>(c: ConnectionView<AppState>, len: nat)
    requires
        c.bounded(),
    ensures
        c.core.can_clamp(),
        c.core.can_slice(len),
{
}

/// Once a connection has been ended, nothing more comes of it: it cannot be
/// ended again, takes no datagram and no packet, and sends and delivers none.
pub proof fn ended_connections_are_dead<AppState>(
    c: ConnectionView<AppState>,
    pkt: Seq<u8>,
    limit: Option<usize>,
    is_encoded: bool,
)
    requires
        c.disconnecting().1 is Ok,
    ensures
        ({
            let ended = c.disconnecting().0;
            &&& ended.core.state is Disconnected
            &&& ended.disconnecting() == (ended, Err::<(), _>(ConnectionError::InvalidState))
            &&& ended.arriving() == (ended, Err::<(), _>(ConnectionError::Disconnected))
            &&& ended.inside_refusal(pkt, limit) == Some(ConnectionError::Disconnected)
            &&& ended.connection_ticked().1 == Err::<(), _>(ConnectionError::Disconnected)
            &&& ended.sending_outside(pkt, is_encoded) == (
                ended,
                Err::<(), _>(ConnectionError::InvalidState),
            )
            &&& ended.delivering(pkt) == (ended, Err::<(), _>(ConnectionError::InvalidState))
            &&& ended.keeping_alive(true) == ended
        }),
{
}

/// Degraded is terminal: whatever happens, an expresslane that was given up
/// stays given up for the rest of the session.
pub proof fn degraded_is_terminal<AppState>(c: ConnectionView<AppState>, m: Move)
    requires
        c.core.expresslane.state is Degraded,
    ensures
        c.after(m).core.expresslane.state is Degraded,
        !c.after(m).core.spec_expresslane_ready(),
{
    match m {
        Move::Timer(TimerMove::PmtudStepped(report, action)) => {
            assert(c.after_timer(TimerMove::PmtudStepped(report, action)) == c.discovery_stepped(
                report,
                action,
            )) by {
                reveal(ConnectionView::after_timer);
            }
        },
        _ => {
            every_step_keeps(c, m);
            reveal(kept);
        },
    }
}

/// No step turns a client into a server or a stream into datagrams, touches
/// the outside MTU, the credentials or the application's state, or changes
/// whether there is a codec.
pub proof fn every_step_keeps_the_setup<AppState>(c: ConnectionView<AppState>, m: Move)
    ensures
        ({
            let after = c.after(m);
            &&& after.core.connection_type == c.core.connection_type
            &&& (after.core.mode is Client) == (c.core.mode is Client)
            &&& after.core.outside_mtu == c.core.outside_mtu
            &&& after.core.max_data_size == c.core.max_data_size
            &&& after.core.has_encoder == c.core.has_encoder
            &&& after.core.has_decoder == c.core.has_decoder
            &&& after.auth_method == c.auth_method
            &&& after.app_state == c.app_state
        }),
{
    match m {
        Move::Timer(TimerMove::PmtudStepped(report, action)) => {
            assert(c.after_timer(TimerMove::PmtudStepped(report, action)) == c.discovery_stepped(
                report,
                action,
            )) by {
                reveal(ConnectionView::after_timer);
            }
        },
        _ => {
            every_step_keeps(c, m);
            reveal(kept);
        },
    }
}

/// A degraded expresslane does not ask for a key of the peer to be installed,
/// and shares no key of its own.
pub proof fn degraded_exchanges_no_keys<AppState>(
    c: ConnectionView<AppState>,
    config: ExpresslaneConfig,
    negotiated: ExpresslaneVersion,
    accepted: bool,
    due: bool,
)
    requires
        c.core.expresslane.state is Degraded,
        !config.ack,
    ensures
        c.receiving_config(config, negotiated, accepted, due).0.actions == c.actions,
        c.rotating_key(due).0 == c,
{
}

} // verus!
