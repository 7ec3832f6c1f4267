//! The life of a connection: how it begins, moves from state to state, ticks
//! and ends.

use crate::action::{Action, ActionView, Event, TickDelay, TickType};
use crate::connection::{
    Connection, ConnectionActivity, ConnectionMode, ConnectionType, ConnectionView, Core,
    EncodingRequestStates, State, Step,
};
use crate::buffers::shared_bytes;
use crate::error::{ConnectionError, ConnectionResult};
use crate::expresslane::{Expresslane, ExpresslaneState};
use crate::net::SocketAddr;
use crate::pmtud::{PmtudReport, PmtudStatus, PmtudStep};
use crate::time::{Duration, Instant};
use crate::tls;
use crate::wire::{ExpresslaneVersion, Frame, SessionId, Version};
use bytes::{Bytes, BytesMut};
use rand::rngs::StdRng;
use std::collections::VecDeque;
use vstd::prelude::*;

verus! {

/// The TLS library counts its timeouts in seconds, which is too coarse for
/// connection times below one second. Its timers are used all the same, but
/// read in units of a tenth of a second: a timeout of one second means 100
/// milliseconds.
pub const TLS_TICK_INTERVAL_DIVISOR: u32 = 10;

/// How much shorter the timeout is when DTLS 1.3 asks for a quick one
pub const TLS_TICK_DTLS13_QUICK_TIMEOUT_DIVISOR: u32 = 4;

/// Information about a new connection. What talks to the outside stays with
/// the host; the flags tell what the host has.
pub struct NewConnectionArgs<AppState> {
    /// App specific state.
    pub app_state: AppState,
    /// Type of connection
    pub connection_type: ConnectionType,
    /// Protocol version to use
    pub protocol_version: Version,
    /// Session ID
    pub session_id: SessionId,
    /// Client vs Server state.
    pub mode: ConnectionMode,
    /// Credentials of a client in their encoded form, nothing for a server
    pub auth_method: Bytes,
    /// The MTU for the outside path
    pub outside_mtu: usize,
    /// Largest inside packet that one frame can carry on the outside path
    pub max_data_size: usize,
    /// Whether the inside path is configured
    pub has_inside_io: bool,
    /// First reading of PMTU discovery, if there is a timer for it
    pub pmtud: Option<PmtudReport>,
    /// Whether there is an encoder and a decoder for inside packets
    pub has_inside_pkt_codec: bool,
    /// Whether the expresslane may be used
    pub expresslane: bool,
    /// Whether the application wants to know the expresslane keys
    pub publishes_expresslane_keys: bool,
    /// Latest expresslane version spoken here
    pub expresslane_max_version: ExpresslaneVersion,
}

/// The state in which an expresslane begins: a client is the first to offer a
/// key, a server waits for that.
pub open spec fn first_expresslane_state(mode: ConnectionMode, enabled: bool) -> ExpresslaneState {
    if !enabled {
        ExpresslaneState::Disabled
    } else if mode is Client {
        ExpresslaneState::Inactive
    } else {
        ExpresslaneState::WaitingForClient
    }
}

/// The timeout of a session as the time until the next tick.
pub open spec fn tick_interval_of(timers: tls::DtlsTimers) -> Duration {
    let scaled = timers.current_timeout.nanos as int / TLS_TICK_INTERVAL_DIVISOR as int;
    if timers.version is DtlsV1_3 && timers.quick_timeout {
        Duration { nanos: (scaled / TLS_TICK_DTLS13_QUICK_TIMEOUT_DIVISOR as int) as u128 }
    } else {
        Duration { nanos: scaled as u128 }
    }
}

/// The plain values of a connection that begins at `now`. Path MTU discovery
/// takes place over datagrams alone.
pub open spec fn first_core<AppState>(args: NewConnectionArgs<AppState>, now: Instant) -> Core {
    Core {
        connection_type: args.connection_type,
        tunnel_protocol_version: args.protocol_version,
        state: State::Connecting,
        mode: args.mode,
        outside_mtu: args.outside_mtu,
        max_data_size: args.max_data_size,
        session_id: args.session_id,
        has_inside_io: args.has_inside_io,
        is_tick_timer_running: false,
        activity: ConnectionActivity {
            last_outside_data_received: now,
            last_data_traffic_from_peer: now,
            last_data_delivered_to_inside: now,
        },
        tls_tick_interval: None,
        pmtud: if args.connection_type is Datagram {
            args.pmtud
        } else {
            None
        },
        fragment_counter: 0,
        is_first_packet_received: false,
        has_encoder: args.has_inside_pkt_codec,
        has_decoder: args.has_inside_pkt_codec,
        can_use_inside_pkt_encoding: false,
        encoding_request_states: EncodingRequestStates {
            id_counter: 0,
            pending_request_pkt: None,
            retransmissions_counter: 0,
        },
        expresslane: Expresslane::spec_new(
            first_expresslane_state(args.mode, args.expresslane),
            args.publishes_expresslane_keys,
            args.expresslane_max_version,
        ),
    }
}

impl Core {
    /// Whether the authentication of the client has expired. `expired` is what
    /// the handle on it says, if there is one.
    pub open spec fn expiry(self, expired: bool) -> ConnectionResult<bool> {
        match self.mode {
            ConnectionMode::Client => Err(ConnectionError::InvalidMode),
            ConnectionMode::Server { has_auth_handle, .. } => Ok(has_auth_handle && expired),
        }
    }
}

impl<AppState> ConnectionView<AppState> {
    /// The connection once its inside path is configured.
    pub open spec fn inside_configured(self) -> Self {
        self.with_core(Core { has_inside_io: true, ..self.core })
    }

    /// The connection once its session writes to another outside path.
    pub open spec fn outside_replaced(self, now: Instant) -> Self {
        self.with_core(
            Core {
                activity: ConnectionActivity {
                    last_data_delivered_to_inside: now,
                    ..self.core.activity
                },
                ..self.core
            },
        )
    }

    /// The connection once the address of its peer is another, or the same.
    pub open spec fn peer_moved(self, addr: SocketAddr, previous: SocketAddr) -> Self {
        if previous != addr {
            self.publishing_keys()
        } else {
            self
        }
    }

    /// A connection that begins at `now`, before its session has been tried.
    pub open spec fn fresh(args: NewConnectionArgs<AppState>, now: Instant) -> Self {
        ConnectionView {
            core: first_core(args, now),
            queue: Seq::empty(),
            received: Seq::empty(),
            actions: Seq::empty(),
            auth_method: shared_bytes(args.auth_method),
            app_state: args.app_state,
        }
    }

    /// The connection once it has asked to be let in.
    pub open spec fn authenticating(self) -> Self {
        self.moved_to(State::Authenticating).sends(Frame::AuthRequest(self.auth_method))
    }

    /// The connection once path MTU discovery, where it takes place, is told
    /// something.
    pub open spec fn driving_pmtud(self, step: PmtudStep<Seq<u8>>) -> Self {
        if self.core.pmtud is Some {
            self.emit(Action::DrivePmtud(step))
        } else {
            self
        }
    }

    /// The connection once it has moved to another state and done what that
    /// state brings with it. Online, the first expresslane key is shared and
    /// path MTU discovery starts; with the link up, a client authenticates.
    pub open spec fn entering(self, state: State, due: bool) -> Step<AppState> {
        let moved = self.moved_to(state);
        if self.core.state == state {
            (self, Ok(()))
        } else if state is Online {
            let (keyed, r) = moved.emit(Action::SetAggressiveSend(false)).rotating_key(due);
            if r is Ok {
                (keyed.driving_pmtud(PmtudStep::Online), Ok(()))
            } else {
                (keyed, r)
            }
        } else if state is LinkUp && self.core.mode is Client {
            (moved.authenticating(), Ok(()))
        } else {
            (moved, Ok(()))
        }
    }

    /// The connection once its session has been tried for the first time.
    pub open spec fn begun(self, linked: bool) -> Self {
        let tried = if linked {
            self.entering(State::LinkUp, false).0
        } else {
            self
        };
        tried.emit(Action::UpdateTickInterval)
    }

    /// The connection once it has ended: the address of the client is given
    /// back, and the peer is told as a courtesy.
    pub open spec fn disconnecting(self) -> Step<AppState> {
        if self.core.state is Disconnecting || self.core.state is Connecting
            || self.core.state is Disconnected {
            (self, Err(ConnectionError::InvalidState))
        } else {
            let leaving = self.moved_to(State::Disconnecting);
            let freed = if self.core.mode is Server {
                leaving.emit(Action::FreeClientIp)
            } else {
                leaving
            };
            (
                freed.tries_to_send(Frame::Goodbye).emit(Action::Shutdown).moved_to(
                    State::Disconnected,
                ),
                Ok(()),
            )
        }
    }

    /// The connection once it has refused its peer and ended.
    pub open spec fn refusing(self) -> Self {
        self.tries_to_send(Frame::AuthFailure).disconnecting().0
    }

    /// The connection once it knows the timers of its session. Only datagram
    /// sessions need ticks, and once online only while keys are updated.
    pub open spec fn ticking(self, timers: tls::DtlsTimers) -> Self {
        let key_update_pending = self.core.mode matches ConnectionMode::Server {
            key_update_pending: true,
            ..
        };
        if self.core.connection_type is Stream {
            self
        } else if self.core.state is Online && !key_update_pending {
            self.with_core(Core { tls_tick_interval: None, ..self.core })
        } else {
            let interval = tick_interval_of(timers);
            let timed = self.with_core(
                Core {
                    tls_tick_interval: Some(interval),
                    is_tick_timer_running: true,
                    ..self.core
                },
            );
            if self.core.is_tick_timer_running {
                timed
            } else {
                timed.emit(
                    Action::ScheduleTick {
                        delay: TickDelay::After(interval),
                        tick: TickType::ConnectionTick,
                    },
                )
            }
        }
    }

    /// The connection once a tick for its session has come: a client that is
    /// not let in yet asks again, anything else that still lives looks at its
    /// session.
    pub open spec fn connection_ticked(self) -> Step<AppState> {
        let idle = self.with_core(Core { is_tick_timer_running: false, ..self.core });
        if self.core.state is Authenticating {
            if self.core.mode is Client {
                (idle.authenticating().emit(Action::UpdateTickInterval), Ok(()))
            } else {
                (idle, Err(ConnectionError::InvalidMode))
            }
        } else if self.core.state is Disconnecting || self.core.state is Disconnected {
            (idle, Err(ConnectionError::Disconnected))
        } else if self.core.connection_type is Datagram {
            (idle.emit(Action::CheckDtlsTimeout), Ok(()))
        } else {
            (idle.emit(Action::UpdateTickInterval), Ok(()))
        }
    }

    /// The connection once it knows whether its session has timed out.
    pub open spec fn timeout_polled(self, timed_out: bool) -> Step<AppState> {
        if timed_out {
            (self.disconnecting().0, Err(ConnectionError::TimedOut))
        } else {
            (self.emit(Action::UpdateTickInterval), Ok(()))
        }
    }

    /// The connection once its server knows whether an update of the TLS keys
    /// is under way.
    pub open spec fn key_update_marked(self, pending: bool) -> Self {
        match self.core.mode {
            ConnectionMode::Client => self,
            ConnectionMode::Server { has_auth_handle, pending_session_id, .. } => self.with_mode(
                ConnectionMode::Server {
                    has_auth_handle,
                    key_update_pending: pending,
                    pending_session_id,
                },
            ),
        }
    }

    /// The connection once a protocol version was asked for.
    pub open spec fn versioned(self, v: Version) -> Step<AppState> {
        if self.core.mode is Client {
            (self, Err(ConnectionError::InvalidMode))
        } else if self.core.state is Online && self.core.tunnel_protocol_version == v {
            (self, Ok(()))
        } else if self.core.state is Connecting || self.core.state is LinkUp
            || self.core.state is Authenticating {
            (self.with_core(Core { tunnel_protocol_version: v, ..self.core }), Ok(()))
        } else {
            (self, Err(ConnectionError::InvalidState))
        }
    }

    /// The connection once traffic that bypasses it was seen at `now`.
    pub open spec fn offloading(self, rx: bool, tx: bool, now: Instant, due: bool) -> Self {
        let activity = self.core.activity;
        self.with_core(
            Core {
                activity: ConnectionActivity {
                    last_data_traffic_from_peer: if rx {
                        now
                    } else {
                        activity.last_data_traffic_from_peer
                    },
                    last_outside_data_received: if rx || tx {
                        now
                    } else {
                        activity.last_outside_data_received
                    },
                    ..activity
                },
                ..self.core
            },
        ).rotating_key(due).0
    }
}

/// Whether a poll completed with the answer yes.
pub open spec fn answered_yes(poll: tls::Poll<bool>) -> bool {
    poll matches tls::Poll::Ready(true)
}

impl<AppState> Connection<AppState> {
    /// Construct a new connection. `negotiation` is what the first attempt to
    /// negotiate the session came to. It will very likely need more data than
    /// is available.
    pub fn new(
        args: NewConnectionArgs<AppState>,
        negotiation: Result<tls::Poll<()>, tls::Error>,
        now: Instant,
        rng: StdRng,
    ) -> (r: ConnectionResult<Self>)
        ensures
            match negotiation {
                Err(error) => r matches Err(e) && e == ConnectionError::Tls(error),
                Ok(poll) => r matches Ok(conn) && conn@ == ConnectionView::fresh(args, now).begun(
                    poll is Ready,
                ),
            },
    {
        let expresslane_state = match (args.mode, args.expresslane) {
            (ConnectionMode::Client, true) => ExpresslaneState::Inactive,
            (ConnectionMode::Server { .. }, true) => ExpresslaneState::WaitingForClient,
            (_, false) => ExpresslaneState::Disabled,
        };
        let core = Core {
            connection_type: args.connection_type,
            tunnel_protocol_version: args.protocol_version,
            state: State::Connecting,
            mode: args.mode,
            outside_mtu: args.outside_mtu,
            max_data_size: args.max_data_size,
            session_id: args.session_id,
            has_inside_io: args.has_inside_io,
            is_tick_timer_running: false,
            activity: ConnectionActivity {
                last_data_traffic_from_peer: now,
                last_outside_data_received: now,
                last_data_delivered_to_inside: now,
            },
            tls_tick_interval: None,
            pmtud: match args.connection_type {
                ConnectionType::Stream => None,
                ConnectionType::Datagram => args.pmtud,
            },
            fragment_counter: 0,
            is_first_packet_received: false,
            has_encoder: args.has_inside_pkt_codec,
            has_decoder: args.has_inside_pkt_codec,
            can_use_inside_pkt_encoding: false,
            encoding_request_states: EncodingRequestStates {
                id_counter: 0,
                pending_request_pkt: None,
                retransmissions_counter: 0,
            },
            expresslane: Expresslane::new(
                expresslane_state,
                args.publishes_expresslane_keys,
                args.expresslane_max_version,
            ),
        };
        let ghost start = ConnectionView::fresh(args, now);
        let mut conn = Connection {
            core,
            tls_pending_queue: VecDeque::new(),
            receive_buf: BytesMut::new(),
            actions: Vec::new(),
            auth_method: args.auth_method,
            rng,
            app_state: args.app_state,
        };
        assert(conn@.queue =~= start.queue);
        assert(conn@.actions =~= start.actions);
        match negotiation {
            Err(error) => return Err(ConnectionError::Tls(error)),
            Ok(tls::Poll::Ready(_)) => {
                let _ = conn.set_state(State::LinkUp, false);
            },
            Ok(_) => {},
        }
        conn.emit(Action::UpdateTickInterval);
        Ok(conn)
    }

    /// Gets the application state for this connection.
    pub fn app_state(&self) -> (state: &AppState)
        ensures
            *state == self.app_state,
    {
        &self.app_state
    }

    /// Gets mutable application state for this connection.
    pub fn app_state_mut(&mut self) -> (state: &mut AppState)
        ensures
            *state == old(self).app_state,
            final(self)@ == (ConnectionView { app_state: *final(state), ..old(self)@ }),
    {
        &mut self.app_state
    }

    /// The inside path is configured. Its MTU can change at any time, so the
    /// steps that go by it are told what it is.
    pub fn inside_io(&mut self)
        ensures
            final(self)@ == old(self)@.inside_configured(),
    {
        self.core.has_inside_io = true;
    }

    /// Get the [`ConnectionType`] of this connection
    pub fn connection_type(&self) -> (connection_type: ConnectionType)
        ensures
            connection_type == self.core.connection_type,
    {
        self.core.connection_type
    }

    /// Get the current session ID.
    pub fn session_id(&self) -> (session_id: SessionId)
        ensures
            session_id == self.core.session_id,
    {
        self.core.session_id
    }

    /// Get the current state.
    pub fn state(&self) -> (state: State)
        ensures
            state == self.core.state,
    {
        self.core.state
    }

    /// Get the current connection activity statistics.
    pub fn activity(&self) -> (activity: ConnectionActivity)
        ensures
            activity == self.core.activity,
    {
        self.core.activity
    }

    /// Query the lightway protocol version of this connection.
    ///
    /// Note: For a server connection this may change during
    /// connection establishment up until [`State::Online`] and in
    /// particular during authentication.
    pub fn tunnel_protocol_version(&self) -> (version: Version)
        ensures
            version == self.core.tunnel_protocol_version,
    {
        self.core.tunnel_protocol_version
    }

    /// Returns the time the application should wait before calling
    /// [`Connection::tick`].
    pub fn tick_interval(&self) -> (interval: Option<Duration>)
        ensures
            interval == self.core.tls_tick_interval,
    {
        self.core.tls_tick_interval
    }

    /// Current path MTU discovery status, or `None` when it does not take
    /// place on this connection.
    pub fn pmtud_status(&self) -> (status: Option<PmtudStatus>)
        ensures
            status == (match self.core.pmtud {
                Some(report) => Some(report.status),
                None => None,
            }),
    {
        match self.core.pmtud {
            Some(report) => Some(report.status),
            None => None,
        }
    }

    /// Change the state, notify the application of it and do what the state
    /// brings with it.
    pub(crate) fn set_state(&mut self, new_state: State, due: bool) -> (r: ConnectionResult<()>)
        ensures
            (final(self)@, r) == old(self)@.entering(new_state, due),
    {
        if self.core.state == new_state {
            return Ok(());
        }
        self.move_to(new_state);
        if matches!(new_state, State::Online) {
            self.emit(Action::SetAggressiveSend(false));
            // Set initial expresslane keys
            match self.rotate_expresslane_key(due) {
                Ok(_) => {},
                Err(error) => return Err(error),
            }
            // Start PMTU discovery
            self.drive_pmtud(PmtudStep::Online);
        }
        if matches!(new_state, State::LinkUp) && matches!(self.core.mode, ConnectionMode::Client) {
            self.authenticate();
        }
        Ok(())
    }

    /// Ask to be let in.
    fn authenticate(&mut self)
        requires
            old(self).core.state is LinkUp || old(self).core.state is Authenticating,
        ensures
            final(self)@ == old(self)@.authenticating(),
    {
        self.move_to(State::Authenticating);
        let auth_method = self.auth_method.clone();
        self.send(Frame::AuthRequest(auth_method));
    }

    /// Tell path MTU discovery something, where it takes place.
    pub(crate) fn drive_pmtud(&mut self, step: PmtudStep<Bytes>)
        ensures
            final(self)@ == old(self)@.driving_pmtud(step@),
    {
        match self.core.pmtud {
            Some(_) => {
                self.emit(Action::DrivePmtud(step));
            },
            None => {},
        }
    }

    /// Refresh activity timestamps from offloaded traffic that never reaches
    /// this data path. `rx` (peer -> us) bumps both the peer-data and
    /// outside-data timestamps; `tx` (us -> peer) refreshes only the
    /// outside-data timestamp so a download keeps the connection out of
    /// idle-eviction without marking the peer as actively sending. Also nudges
    /// the expresslane key rotation, since an offloaded data plane never
    /// drives it from the inside path.
    pub fn mark_offload_activity(&mut self, rx: bool, tx: bool, now: Instant, due: bool)
        ensures
            final(self)@ == old(self)@.offloading(rx, tx, now, due),
    {
        if rx {
            self.core.activity.last_data_traffic_from_peer = now;
            self.core.activity.last_outside_data_received = now;
        }
        if tx {
            self.core.activity.last_outside_data_received = now;
        }
        let _ = self.rotate_expresslane_key(due);
    }

    /// Set the lightway protocol version of this connection.
    ///
    /// This may only be called on a server and only prior to reaching
    /// [`State::Online`].
    ///
    /// If called while in [`State::Online`] then `v` must be the same
    /// as the current version.
    pub fn set_tunnel_protocol_version(&mut self, v: Version) -> (r: ConnectionResult<()>)
        ensures
            (final(self)@, r) == old(self)@.versioned(v),
    {
        if matches!(self.core.mode, ConnectionMode::Client) {
            return Err(ConnectionError::InvalidMode);
        }
        if matches!(self.core.state, State::Online) && self.core.tunnel_protocol_version == v {
            return Ok(());
        }
        if !matches!(
            self.core.state,
            State::Connecting | State::LinkUp | State::Authenticating
        ) {
            return Err(ConnectionError::InvalidState);
        }
        self.core.tunnel_protocol_version = v;
        Ok(())
    }

    /// The address of this connection's peer is set to `addr`, where it was
    /// `previous`. Returns the previous one.
    pub fn set_peer_addr(&mut self, addr: SocketAddr, previous: SocketAddr) -> (r: SocketAddr)
        ensures
            r == previous,
            final(self)@ == old(self)@.peer_moved(addr, previous),
    {
        if previous != addr {
            self.publish_expresslane_key();
        }
        previous
    }

    /// Return true if this server connection's authentication has expired.
    /// `expired` is what the handle on the authentication says, if there is
    /// one.
    ///
    /// Valid for server connections only.
    pub fn authentication_expired(&self, expired: bool) -> (r: ConnectionResult<bool>)
        ensures
            r == self.core.expiry(expired),
    {
        match self.core.mode {
            ConnectionMode::Client => Err(ConnectionError::InvalidMode),
            ConnectionMode::Server { has_auth_handle, .. } => {
                // Not yet authenticated, so not eligible to have expired
                Ok(has_auth_handle && expired)
            },
        }
    }

    /// The session writes to another outside path from `now` on.
    pub fn set_outside_io(&mut self, now: Instant)
        ensures
            final(self)@ == old(self)@.outside_replaced(now),
    {
        self.core.activity.last_data_delivered_to_inside = now;
    }

    /// Whether an update of the TLS keys is under way has changed, or is
    /// known for the first time. It concerns a server alone.
    pub fn set_key_update_pending(&mut self, pending: bool)
        ensures
            final(self)@ == old(self)@.key_update_marked(pending),
    {
        match self.core.mode {
            ConnectionMode::Client => {},
            ConnectionMode::Server { has_auth_handle, pending_session_id, .. } => {
                self.core.mode = ConnectionMode::Server {
                    has_auth_handle,
                    key_update_pending: pending,
                    pending_session_id,
                };
            },
        }
    }

    /// The timers of the session are read.
    pub fn update_tick_interval(&mut self, timers: tls::DtlsTimers)
        ensures
            final(self)@ == old(self)@.ticking(timers),
    {
        // Only Datagram (DTLS) connections need ticks
        if !self.core.connection_type.is_datagram() {
            return;
        }
        let key_update_pending = match self.core.mode {
            ConnectionMode::Client => false,
            ConnectionMode::Server { key_update_pending, .. } => key_update_pending,
        };
        if matches!(self.core.state, State::Online) && !key_update_pending {
            self.core.tls_tick_interval = None;
            return;
        }
        // Scale the tick interval

        let mut interval = timers.current_timeout.divided_by(TLS_TICK_INTERVAL_DIVISOR);
        if matches!(timers.version, tls::ProtocolVersion::DtlsV1_3) && timers.quick_timeout {
            interval = interval.divided_by(TLS_TICK_DTLS13_QUICK_TIMEOUT_DIVISOR);
        }
        self.core.tls_tick_interval = Some(interval);
        // Arrange for a tick if none is under way
        if !self.core.is_tick_timer_running {
            self.core.is_tick_timer_running = true;
            self.emit(
                Action::ScheduleTick {
                    delay: TickDelay::After(interval),
                    tick: TickType::ConnectionTick,
                },
            );
        }
    }

    /// Inject a tick to the connection. See
    /// [`Connection::tick_interval`] for usage.
    pub fn connection_tick(&mut self) -> (r: ConnectionResult<()>)
        ensures
            (final(self)@, r) == old(self)@.connection_ticked(),
    {
        self.core.is_tick_timer_running = false;
        match self.core.state {
            State::Authenticating => {
                if matches!(self.core.mode, ConnectionMode::Client) {
                    // Resend authentication request
                    self.authenticate();
                } else {
                    // Server should never be authenticating.
                    return Err(ConnectionError::InvalidMode);
                }
            },
            State::Disconnecting | State::Disconnected => {
                return Err(ConnectionError::Disconnected);
            },
            State::Connecting | State::LinkUp | State::Online => {
                if self.core.connection_type.is_datagram() {
                    self.emit(Action::CheckDtlsTimeout);
                    return Ok(());
                }
            },
        }
        self.emit(Action::UpdateTickInterval);
        Ok(())
    }

    /// The session has answered whether it has timed out.
    pub fn dtls_timeout_polled(&mut self, poll: tls::Poll<bool>) -> (r: ConnectionResult<()>)
        ensures
            (final(self)@, r) == old(self)@.timeout_polled(answered_yes(poll)),
    {
        match poll {
            tls::Poll::Ready(true) => {
                let _ = self.disconnect();
                return Err(ConnectionError::TimedOut);
            },
            _ => {},
        }
        self.emit(Action::UpdateTickInterval);
        Ok(())
    }

    /// Disconnect this connection
    pub fn disconnect(&mut self) -> (r: ConnectionResult<()>)
        ensures
            (final(self)@, r) == old(self)@.disconnecting(),
    {
        // Return error if in the wrong state
        if matches!(
            self.core.state,
            State::Disconnecting | State::Connecting | State::Disconnected
        ) {
            return Err(ConnectionError::InvalidState);
        }
        self.move_to(State::Disconnecting);
        // Free the allocated IP to this connection
        match self.core.mode {
            ConnectionMode::Server { .. } => {
                self.emit(Action::FreeClientIp);
            },
            ConnectionMode::Client => {},
        }
        // here, goodbye + shutdown are just a courtesy.
        self.try_send(Frame::Goodbye);
        self.emit(Action::Shutdown);
        self.move_to(State::Disconnected);
        Ok(())
    }

    /// Refuse the peer and end the connection.
    pub(crate) fn send_auth_failure(&mut self)
        ensures
            final(self)@ == old(self)@.refusing(),
    {
        self.try_send(Frame::AuthFailure);
        let _ = self.disconnect();
    }
}

/// A connection begins as it was asked for: with its type, mode, version,
/// session, sizes, credentials and application state, at rest from now on and
/// with nothing pending. Over a stream there is no path MTU discovery. A
/// client may offer an expresslane at once, a server waits for that, and
/// without leave to use one neither does.
pub proof fn connections_begin_as_asked<AppState>(
    args: NewConnectionArgs<AppState>,
    now: Instant,
)
    ensures
        ({
            let begun = ConnectionView::fresh(args, now).begun(false);
            let core = begun.core;
            &&& core.state is Connecting
            &&& core.connection_type == args.connection_type
            &&& core.mode == args.mode
            &&& core.tunnel_protocol_version == args.protocol_version
            &&& core.session_id == args.session_id
            &&& core.outside_mtu == args.outside_mtu
            &&& core.max_data_size == args.max_data_size
            &&& core.has_inside_io == args.has_inside_io
            &&& core.has_encoder == args.has_inside_pkt_codec
            &&& core.has_decoder == args.has_inside_pkt_codec
            &&& !core.can_use_inside_pkt_encoding
            &&& !core.is_first_packet_received
            &&& core.encoding_request_states.pending_request_pkt is None
            &&& core.activity.last_outside_data_received == now
            &&& core.activity.last_data_traffic_from_peer == now
            &&& core.activity.last_data_delivered_to_inside == now
            &&& core.pmtud == (if args.connection_type is Datagram {
                args.pmtud
            } else {
                None
            })
            &&& core.expresslane.state == (if !args.expresslane {
                ExpresslaneState::Disabled
            } else if args.mode is Client {
                ExpresslaneState::Inactive
            } else {
                ExpresslaneState::WaitingForClient
            })
            &&& !core.expresslane.has_valid_keys
            &&& core.expresslane.version is Unknown
            &&& core.expresslane.max_version == args.expresslane_max_version
            &&& core.expresslane.publishes_keys == args.publishes_expresslane_keys
            &&& core.expresslane.last_key_rotation is None
            &&& core.expresslane.inbound_strikes == 0 && core.expresslane.outbound_strikes == 0
            &&& core.expresslane.missing_peer_reports == 0
            &&& core.expresslane.missing_local_readings == 0
            &&& begun.auth_method == shared_bytes(args.auth_method)
            &&& begun.app_state == args.app_state
            &&& begun.queue.len() == 0 && begun.received.len() == 0
            &&& begun.actions == seq![ActionView::UpdateTickInterval]
        }),
{
    assert(ConnectionView::fresh(args, now).begun(false).actions =~= seq![
        ActionView::UpdateTickInterval,
    ]);
}

/// A connection that moves to another state tells the application so, and a
/// state that it is in already brings nothing. Online, writes become calm, a
/// key that is due is shared and path MTU discovery starts, in this order.
/// With the link up, a client asks to be let in with its credentials.
pub proof fn states_bring_their_duties<AppState>(
    conn: ConnectionView<AppState>,
    state: State,
    due: bool,
)
    ensures
        ({
            let (after, r) = conn.entering(state, due);
            let n = conn.actions.len() as int;
            let m = after.actions.len() as int;
            &&& conn.core.state == state ==> after == conn && r is Ok
            &&& conn.core.state != state ==> m > n && after.actions[n] == ActionView::Event(
                Event::StateChanged(state),
            )
            &&& conn.core.state != state && state is Online ==> {
                &&& after.core.state is Online
                &&& after.actions[n + 1] == ActionView::SetAggressiveSend(false)
                &&& r is Ok <==> !(conn.core.spec_expresslane_supported()
                    && conn.core.expresslane.state is Degraded)
                &&& r is Ok && conn.core.pmtud is Some ==> after.actions[m - 1]
                    == ActionView::DrivePmtud(PmtudStep::Online)
                &&& due && conn.core.spec_expresslane_supported() && conn.core.expresslane.state
                    !is Degraded ==> after.actions[n + 2] == ActionView::ShareExpresslaneKey
            }
            &&& conn.core.state != state && state is LinkUp && conn.core.mode is Client ==> {
                &&& after.core.state is Authenticating
                &&& after.actions[m - 1] == ActionView::Send {
                    frame: Frame::AuthRequest(conn.auth_method),
                    required: true,
                }
            }
            &&& conn.core.state != state && !(state is LinkUp && conn.core.mode is Client)
                ==> after.core.state == state
        }),
{
}

/// A connection that can be ended is: its server gives the address of the
/// client back, the peer is told as far as that is possible, the session is
/// shut down, and the application hears of both states on the way. One that
/// has not begun or has ended cannot be.
pub proof fn endings_are_complete<AppState>(conn: ConnectionView<AppState>)
    ensures
        ({
            let (after, r) = conn.disconnecting();
            let idle = conn.core.state is Connecting || conn.core.state is Disconnecting
                || conn.core.state is Disconnected;
            let farewell = seq![
                ActionView::Send { frame: Frame::Goodbye, required: false },
                ActionView::Shutdown,
                ActionView::Event(Event::StateChanged(State::Disconnected)),
            ];
            let leaving = seq![ActionView::Event(Event::StateChanged(State::Disconnecting))];
            &&& idle ==> after == conn && r == Err::<(), _>(ConnectionError::InvalidState)
            &&& !idle ==> {
                &&& r is Ok
                &&& after.core == (Core { state: State::Disconnected, ..conn.core })
                &&& conn.core.mode is Client ==> after.actions == conn.actions + leaving + farewell
                &&& conn.core.mode is Server ==> after.actions == conn.actions + leaving + seq![
                    ActionView::FreeClientIp,
                ] + farewell
            }
        }),
{
    let after = conn.disconnecting().0;
    let farewell = seq![
        ActionView::Send { frame: Frame::Goodbye, required: false },
        ActionView::Shutdown,
        ActionView::Event(Event::StateChanged(State::Disconnected)),
    ];
    let leaving = seq![ActionView::Event(Event::StateChanged(State::Disconnecting))];
    if conn.disconnecting().1 is Ok {
        if conn.core.mode is Client {
            assert(after.actions =~= conn.actions + leaving + farewell);
        } else {
            assert(after.actions =~= conn.actions + leaving + seq![ActionView::FreeClientIp]
                + farewell);
        }
    }
}

/// Ticks are for datagrams: before a connection is online, and while a server
/// updates its keys, the next one is due after a tenth of the timeout of the
/// session, or a fortieth where DTLS 1.3 asks for the shorter one. At most one
/// is under way at a time, and online none is needed.
pub proof fn ticks_follow_the_session<AppState>(
    conn: ConnectionView<AppState>,
    timers: tls::DtlsTimers,
)
    ensures
        ({
            let after = conn.ticking(timers);
            let updating = conn.core.mode matches ConnectionMode::Server {
                key_update_pending,
                ..
            } && key_update_pending;
            let parts = if timers.version is DtlsV1_3 && timers.quick_timeout {
                40int
            } else {
                10int
            };
            &&& conn.core.connection_type is Stream ==> after == conn
            &&& conn.core.connection_type is Datagram && conn.core.state is Online && !updating
                ==> after.core.tls_tick_interval is None && after.actions == conn.actions
            &&& conn.core.connection_type is Datagram && (conn.core.state !is Online || updating)
                ==> {
                &&& after.core.tls_tick_interval matches Some(interval)
                &&& interval.nanos * parts <= timers.current_timeout.nanos < (interval.nanos + 1)
                    * parts
                &&& after.core.is_tick_timer_running
                &&& after.actions == (if conn.core.is_tick_timer_running {
                    conn.actions
                } else {
                    conn.actions.push(
                        ActionView::ScheduleTick {
                            delay: TickDelay::After(interval),
                            tick: TickType::ConnectionTick,
                        },
                    )
                })
            }
        }),
{
    let n = timers.current_timeout.nanos as int;
    assert(n / 10 / 4 * 40 <= n < (n / 10 / 4 + 1) * 40);
    assert(n / 10 * 10 <= n < (n / 10 + 1) * 10);
}

/// A tick frees the way for the next one. A client that waits to be let in
/// asks again with its credentials; an ended connection says so; over
/// datagrams any other asks its session whether it timed out, and one that
/// did is ended and reported.
pub proof fn ticks_keep_a_connection_going<AppState>(
    conn: ConnectionView<AppState>,
    timed_out: bool,
)
    ensures
        ({
            let (after, r) = conn.connection_ticked();
            let n = conn.actions.len() as int;
            &&& !after.core.is_tick_timer_running
            &&& after.core == (Core { is_tick_timer_running: false, ..conn.core })
            &&& conn.core.state is Authenticating && conn.core.mode is Client ==> r is Ok
                && after.actions == conn.actions.push(
                ActionView::Send { frame: Frame::AuthRequest(conn.auth_method), required: true },
            ).push(ActionView::UpdateTickInterval)
            &&& conn.core.state is Disconnecting || conn.core.state is Disconnected ==> r
                == Err::<(), _>(ConnectionError::Disconnected) && after.actions == conn.actions
            &&& conn.core.state is Connecting || conn.core.state is LinkUp || conn.core.state
                is Online ==> r is Ok && after.actions == conn.actions.push(
                if conn.core.connection_type is Datagram {
                    ActionView::CheckDtlsTimeout
                } else {
                    ActionView::UpdateTickInterval
                },
            )
        }),
        conn.timeout_polled(true).1 == Err::<(), _>(ConnectionError::TimedOut),
        conn.core.state is LinkUp || conn.core.state is Online ==> conn.timeout_polled(
            true,
        ).0.core.state is Disconnected,
        conn.timeout_polled(false).1 is Ok,
        conn.timeout_polled(false).0.actions == conn.actions.push(ActionView::UpdateTickInterval),
        conn.timeout_polled(false).0.core == conn.core,
        answered_yes(tls::Poll::Ready(timed_out)) == timed_out,
        !answered_yes(tls::Poll::PendingRead),
        !answered_yes(tls::Poll::PendingWrite),
{
}

/// The version of the protocol is for a server to set, and only before it is
/// online; setting it to what it is online already does nothing.
pub proof fn versions_settle_before_online<AppState>(conn: ConnectionView<AppState>, v: Version)
    ensures
        ({
            let (after, r) = conn.versioned(v);
            let early = conn.core.state is Connecting || conn.core.state is LinkUp
                || conn.core.state is Authenticating;
            &&& conn.core.mode is Client ==> after == conn && r == Err::<(), _>(
                ConnectionError::InvalidMode,
            )
            &&& conn.core.mode is Server && early ==> r is Ok && after.core == (Core {
                tunnel_protocol_version: v,
                ..conn.core
            })
            &&& conn.core.mode is Server && !early ==> after == conn && (r is Ok <==>
            conn.core.state is Online && conn.core.tunnel_protocol_version == v)
            &&& conn.core.mode is Server && r is Err ==> r == Err::<(), _>(
                ConnectionError::InvalidState,
            )
        }),
{
}

/// Traffic that bypasses the connection keeps it from looking idle, and
/// counts as data of the peer only if it came from the peer. It also moves the
/// rotation of expresslane keys.
pub proof fn offloaded_traffic_counts<AppState>(
    conn: ConnectionView<AppState>,
    rx: bool,
    tx: bool,
    now: Instant,
    due: bool,
)
    ensures
        ({
            let after = conn.offloading(rx, tx, now, due);
            let activity = after.core.activity;
            let before = conn.core.activity;
            &&& rx ==> activity.last_data_traffic_from_peer == now
            &&& !rx ==> activity.last_data_traffic_from_peer == before.last_data_traffic_from_peer
            &&& rx || tx ==> activity.last_outside_data_received == now
            &&& !rx && !tx ==> activity == before
            &&& activity.last_data_delivered_to_inside == before.last_data_delivered_to_inside
            &&& after.actions == conn.rotating_key(due).0.actions
        }),
{
}

/// An application that wants to know the keys is told them again when the peer
/// has another address, since they belong to both, and only then.
pub proof fn moved_peers_are_published<AppState>(
    conn: ConnectionView<AppState>,
    addr: SocketAddr,
    previous: SocketAddr,
)
    ensures
        ({
            let after = conn.peer_moved(addr, previous);
            let lane = conn.core.expresslane;
            &&& after.core == conn.core
            &&& addr == previous || !lane.publishes_keys ==> after == conn
            &&& addr != previous && lane.publishes_keys ==> after.actions == conn.actions.push(
                ActionView::PublishExpresslaneKey {
                    session_id: conn.core.session_id,
                    self_key: lane.self_key,
                    peer_key: lane.peer_key,
                    version: lane.version,
                },
            )
        }),
{
}

/// The authentication of a client expires with its handle, and not before
/// there is one. It is a matter of servers.
pub proof fn authentication_expires_with_its_handle(core: Core, expired: bool)
    ensures
        core.mode is Client <==> core.expiry(expired) == Err::<bool, _>(
            ConnectionError::InvalidMode,
        ),
        core.mode matches ConnectionMode::Server { has_auth_handle, .. } ==> core.expiry(expired)
            == Ok::<bool, ConnectionError>(has_auth_handle && expired),
{
}

/// A new outside path gives the data plane a fresh start, so that the time
/// without it is not held against the codec, and an inside path once
/// configured is there.
pub proof fn paths_are_taken_into_use<AppState>(conn: ConnectionView<AppState>, now: Instant)
    ensures
        conn.outside_replaced(now).core.activity.last_data_delivered_to_inside == now,
        conn.outside_replaced(now).core.activity.last_data_traffic_from_peer
            == conn.core.activity.last_data_traffic_from_peer,
        conn.outside_replaced(now).actions == conn.actions,
        conn.inside_configured().core == (Core { has_inside_io: true, ..conn.core }),
        conn.inside_configured().actions == conn.actions,
{
}

/// A connection whose session is negotiated from the start is linked up from
/// the start.
pub proof fn linked_connections_begin_linked<AppState>(
    args: NewConnectionArgs<AppState>,
    now: Instant,
)
    ensures
        ({
            let begun = ConnectionView::fresh(args, now).begun(true);
            &&& args.mode is Server ==> begun.core.state is LinkUp
            &&& args.mode is Client ==> begun.core.state is Authenticating && begun.actions.contains(
                ActionView::Send {
                    frame: Frame::AuthRequest(shared_bytes(args.auth_method)),
                    required: true,
                },
            )
            &&& begun.actions.last() == ActionView::UpdateTickInterval
        }),
{
    let begun = ConnectionView::fresh(args, now).begun(true);
    if args.mode is Client {
        assert(begun.actions[begun.actions.len() - 2] == ActionView::Send {
            frame: Frame::AuthRequest(shared_bytes(args.auth_method)),
            required: true,
        });
    }
}

/// What is known of an update of the TLS keys is kept on a server, and nothing
/// else changes with it.
pub proof fn key_updates_are_noted<AppState>(conn: ConnectionView<AppState>, pending: bool)
    ensures
        ({
            let after = conn.key_update_marked(pending);
            &&& conn.core.mode is Client ==> after == conn
            &&& conn.core.mode matches ConnectionMode::Server {
                has_auth_handle,
                pending_session_id,
                ..
            } ==> after == (ConnectionView {
                core: Core {
                    mode: ConnectionMode::Server {
                        has_auth_handle,
                        key_update_pending: pending,
                        pending_session_id,
                    },
                    ..conn.core
                },
                ..conn
            })
        }),
{
}

} // verus!
