//! Control traffic: keepalives, path MTU discovery, session identifiers and
//! TLS keys.

use crate::action::{Action, ActionView, Event, StatsUse};
use crate::buffers::{be_bytes, be_value, be_value_reads_be_bytes, put_u64, shared_bytes, shared_slice};
use crate::connection::{Connection, ConnectionMode, ConnectionView, Core, State, Step};
use crate::error::{ConnectionError, ConnectionResult};
use crate::pmtud::{PmtudAction, PmtudReport, PmtudStep};
use crate::random::sample_session_id;
use crate::tls;
use crate::wire::{Frame, SessionId, KEEPALIVE_ID};
use bytes::{Bytes, BytesMut};
use vstd::prelude::*;

verus! {

/// The counters of this side as a peer gets them: packets sent, then packets
/// received. Nothing at all means that there is no reading, which is better
/// than zeros that would read as total loss.
pub open spec fn counters_payload(stats: Option<(u64, u64)>) -> Seq<u8> {
    match stats {
        Some((sent, recv)) => be_bytes(sent) + be_bytes(recv),
        None => Seq::empty(),
    }
}

/// What came of asking the session to update its keys.
pub open spec fn key_update_started(polled: tls::Poll<()>) -> bool {
    polled !is AppData
}

impl Core {
    /// Whether the keys of the session are to be updated now.
    pub open spec fn updates_keys(self, version: tls::ProtocolVersion, required: bool) -> bool {
        version.is_v1_3() && self.mode is Server && required
    }

    /// Whether it is time to see if an update of the keys is through.
    pub open spec fn may_settle_keys(self, session_pending: bool) -> bool {
        self.mode is Server && !session_pending
    }
}

impl<AppState> ConnectionView<AppState> {
    /// The connection once it has sent a sign of life. It carries the packet
    /// counters where the expresslane is in use.
    pub open spec fn keeping_alive(self, required: bool) -> Self {
        if self.core.state !is Online {
            self
        } else if self.core.spec_expresslane_ready() {
            self.emit(
                Action::ReadStats {
                    session_id: self.core.session_id,
                    purpose: StatsUse::Ping { required },
                },
            )
        } else {
            self.emit(
                Action::Send {
                    frame: Frame::Ping { id: KEEPALIVE_ID, payload: Seq::empty() },
                    required,
                },
            )
        }
    }

    /// The connection once it has answered a ping. The answer to a sign of
    /// life carries the packet counters where the expresslane is in use.
    pub open spec fn answering_ping(self, id: u16) -> Step<AppState> {
        if self.core.state !is Online {
            (self, Err(ConnectionError::InvalidState))
        } else if id == KEEPALIVE_ID && self.core.spec_expresslane_ready() {
            (
                self.emit(
                    Action::ReadStats {
                        session_id: self.core.session_id,
                        purpose: StatsUse::Pong { id },
                    },
                ),
                Ok(()),
            )
        } else {
            (self.sends(Frame::Pong { id, payload: Seq::empty() }), Ok(()))
        }
    }

    /// The connection once a pong has come. One that answers a sign of life
    /// is told to the application and starts a health check.
    pub open spec fn pong_received(self, id: u16, payload: Seq<u8>) -> Step<AppState> {
        if self.core.state !is Online {
            (self, Err(ConnectionError::InvalidState))
        } else {
            let checked = if id == KEEPALIVE_ID {
                self.event(Event::KeepaliveReply).checking_health(payload)
            } else {
                self
            };
            (checked.driving_pmtud(PmtudStep::PongReceived { id, payload }), Ok(()))
        }
    }

    /// The connection once the packet counters are read for some purpose.
    pub open spec fn counters_read(self, purpose: StatsUse, stats: Option<(u64, u64)>) -> Self {
        match purpose {
            StatsUse::Ping { required } => self.emit(
                Action::Send {
                    frame: Frame::Ping { id: KEEPALIVE_ID, payload: counters_payload(stats) },
                    required,
                },
            ),
            StatsUse::Pong { id } => self.sends(
                Frame::Pong { id, payload: counters_payload(stats) },
            ),
            StatsUse::Health { peer_sent, peer_recv } => self.health_checked(
                peer_sent,
                peer_recv,
                stats,
            ),
        }
    }

    /// The connection once path MTU discovery has taken a step. The
    /// application hears of a new status before a probe is sent.
    pub open spec fn discovery_stepped(self, report: PmtudReport, action: PmtudAction) -> Self {
        match self.core.pmtud {
            None => self,
            Some(before) => {
                let stepped = self.with_core(Core { pmtud: Some(report), ..self.core });
                let told = if before.status != report.status {
                    stepped.event(Event::PmtudStateChanged(report.status))
                } else {
                    stepped
                };
                match action {
                    PmtudAction::Wait => told,
                    PmtudAction::SendProbe { id, size } => told.emit(
                        Action::SendProbe {
                            frame: Frame::Ping {
                                id,
                                payload: Seq::new(size as nat, |i: int| 0u8),
                            },
                        },
                    ),
                }
            },
        }
    }

    /// The connection once the timer of path MTU discovery has expired.
    pub open spec fn discovery_ticked(self) -> Self {
        if self.core.state is Online {
            self.driving_pmtud(PmtudStep::Tick)
        } else {
            self
        }
    }

    /// The connection once a server has begun to move to session `new`. The
    /// sign of life is stamped with it, so that the answer completes the move
    /// within one round trip.
    pub open spec fn rotating_session(self, new: SessionId) -> Self {
        match self.core.mode {
            ConnectionMode::Server { has_auth_handle, key_update_pending, .. } => self.emit(
                Action::SetSessionId(new),
            ).with_mode(
                ConnectionMode::Server {
                    has_auth_handle,
                    key_update_pending,
                    pending_session_id: Some(new),
                },
            ).event(
                Event::SessionIdRotationStarted { old: self.core.session_id, new },
            ).keeping_alive(false),
            ConnectionMode::Client => self,
        }
    }

    /// The connection once valid traffic came with a session identifier. A
    /// client follows its server; a server notices that its client has
    /// followed.
    pub open spec fn session_seen(self, session: Option<SessionId>) -> Self {
        match session {
            None => self,
            Some(session) => if session.spec_is_empty() || session == self.core.session_id {
                self
            } else {
                match self.core.mode {
                    ConnectionMode::Client => self.with_core(
                        Core { session_id: session, ..self.core },
                    ).emit(Action::SetSessionId(session)).publishing_keys(),
                    ConnectionMode::Server {
                        has_auth_handle,
                        key_update_pending,
                        pending_session_id,
                    } => if pending_session_id == Some(session) {
                        self.with_core(
                            Core {
                                session_id: session,
                                mode: ConnectionMode::Server {
                                    has_auth_handle,
                                    key_update_pending,
                                    pending_session_id: None,
                                },
                                ..self.core
                            },
                        ).event(
                            Event::SessionIdRotationAcknowledged {
                                old: self.core.session_id,
                                new: session,
                            },
                        )
                    } else {
                        self
                    },
                }
            },
        }
    }

    /// The connection once the session has been asked to update its keys.
    pub open spec fn key_update_triggered(self, polled: Result<tls::Poll<()>, tls::Error>) -> Step<
        AppState,
    > {
        match polled {
            Err(error) => (self, Err(ConnectionError::Tls(error))),
            Ok(poll) => if key_update_started(poll) {
                (self.event(Event::TlsKeysUpdateStart).emit(Action::UpdateTickInterval), Ok(()))
            } else {
                (self, Ok(()))
            },
        }
    }

    /// The connection once its server has looked whether an update of the
    /// keys is through.
    pub open spec fn key_update_settled(self, completed: bool) -> Self {
        if self.core.mode is Server && completed {
            self.event(Event::TlsKeysUpdateCompleted).emit(Action::UpdateTickInterval)
        } else {
            self
        }
    }
}

/// The counters of this side as a peer gets them.
fn encode_counters(stats: Option<(u64, u64)>) -> (payload: Bytes)
    ensures
        shared_bytes(payload) == counters_payload(stats),
{
    match stats {
        Some((sent, recv)) => {
            let mut buf = BytesMut::with_capacity(16);
            put_u64(&mut buf, sent);
            put_u64(&mut buf, recv);
            assert(Seq::<u8>::empty() + be_bytes(sent) + be_bytes(recv) =~= be_bytes(sent)
                + be_bytes(recv));
            buf.freeze()
        },
        None => Bytes::new(),
    }
}

impl<AppState> Connection<AppState> {
    /// Send a keepalive packet to the peer.
    pub fn keepalive(&mut self) -> (r: ConnectionResult<()>)
        ensures
            r == Ok::<(), ConnectionError>(()),
            final(self)@ == old(self)@.keeping_alive(true),
    {
        self.send_keepalive(true);
        Ok(())
    }

    /// Send a sign of life, and have a failure reported or not.
    fn send_keepalive(&mut self, required: bool)
        ensures
            final(self)@ == old(self)@.keeping_alive(required),
    {
        if !matches!(self.core.state, State::Online) {
            return;
        }
        if self.core.expresslane_ready() {
            let session_id = self.core.session_id;
            self.emit(Action::ReadStats { session_id, purpose: StatsUse::Ping { required } });
        } else {
            self.emit(
                Action::Send {
                    frame: Frame::Ping { id: KEEPALIVE_ID, payload: Bytes::new() },
                    required,
                },
            );
        }
    }

    /// The peer asks for a pong.
    pub fn handle_ping(&mut self, id: u16) -> (r: ConnectionResult<()>)
        ensures
            (final(self)@, r) == old(self)@.answering_ping(id),
    {
        if !matches!(self.core.state, State::Online) {
            return Err(ConnectionError::InvalidState);
        }
        if id == KEEPALIVE_ID && self.core.expresslane_ready() {
            let session_id = self.core.session_id;
            self.emit(Action::ReadStats { session_id, purpose: StatsUse::Pong { id } });
        } else {
            self.send(Frame::Pong { id, payload: Bytes::new() });
        }
        Ok(())
    }

    /// The peer has answered a ping.
    pub fn handle_pong(&mut self, id: u16, payload: Bytes) -> (r: ConnectionResult<()>)
        ensures
            (final(self)@, r) == old(self)@.pong_received(id, shared_bytes(payload)),
    {
        if !matches!(self.core.state, State::Online) {
            return Err(ConnectionError::InvalidState);
        }
        if id == KEEPALIVE_ID {
            self.event(Event::KeepaliveReply);
            self.check_expresslane_health(shared_slice(&payload));
        }
        self.drive_pmtud(PmtudStep::PongReceived { id, payload });
        Ok(())
    }

    /// The packet counters of the expresslane are read, `None` if that failed.
    pub fn stats_read(&mut self, purpose: StatsUse, stats: Option<(u64, u64)>)
        ensures
            final(self)@ == old(self)@.counters_read(purpose, stats),
    {
        match purpose {
            StatsUse::Ping { required } => {
                let payload = encode_counters(stats);
                self.emit(
                    Action::Send { frame: Frame::Ping { id: KEEPALIVE_ID, payload }, required },
                );
            },
            StatsUse::Pong { id } => {
                let payload = encode_counters(stats);
                self.send(Frame::Pong { id, payload });
            },
            StatsUse::Health { peer_sent, peer_recv } => {
                self.complete_health_check(peer_sent, peer_recv, stats);
            },
        }
    }

    /// Path MTU discovery has taken a step: it now reports `report` and wants
    /// `action` done.
    ///
    /// The notification precedes the send: the state machine has already
    /// moved on even if the probe cannot be sent, and the application must
    /// see the same status the connection now applies to its own traffic.
    pub fn pmtud_stepped(&mut self, report: PmtudReport, action: PmtudAction)
        ensures
            final(self)@ == old(self)@.discovery_stepped(report, action),
    {
        let before = match self.core.pmtud {
            Some(before) => before,
            None => return ,
        };
        self.core.pmtud = Some(report);
        if before.status != report.status {
            self.event(Event::PmtudStateChanged(report.status));
        }
        match action {
            PmtudAction::Wait => {},
            PmtudAction::SendProbe { id, size } => {
                let payload = BytesMut::zeroed(size as usize).freeze();
                self.emit(Action::SendProbe { frame: Frame::Ping { id, payload } });
            },
        }
    }

    /// Inject a tick to path MTU discovery, after its timer has expired.
    pub fn pmtud_tick(&mut self) -> (r: ConnectionResult<()>)
        ensures
            r == Ok::<(), ConnectionError>(()),
            final(self)@ == old(self)@.discovery_ticked(),
    {
        if !matches!(self.core.state, State::Online) {
            return Ok(());
        }
        self.drive_pmtud(PmtudStep::Tick);
        Ok(())
    }

    /// Start a session ID rotation, returning the pending session id.
    ///
    /// NOP if a rotation is already in progress, the existing pending
    /// session id is returned.
    ///
    /// This is a server side operation only. Which identifier is next is left
    /// to chance; [`Connection::begin_session_rotation`] does the rest.
    ///
    /// Once the rotation completes (i.e. traffic is observed from the
    /// client using the new session ID) then
    /// [`Event::SessionIdRotationAcknowledged`] will be fired.
    pub fn rotate_session_id(&mut self) -> (r: ConnectionResult<SessionId>)
        ensures
            match old(self)@.core.mode {
                ConnectionMode::Client => r == Err::<SessionId, _>(ConnectionError::InvalidMode)
                    && final(self)@ == old(self)@,
                ConnectionMode::Server { pending_session_id: Some(pending), .. } => r == Ok::<
                    _,
                    ConnectionError,
                >(pending) && final(self)@ == old(self)@,
                ConnectionMode::Server { pending_session_id: None, .. } => r matches Ok(new)
                    && final(self)@ == old(self)@.rotating_session(new),
            },
    {
        match self.core.mode {
            ConnectionMode::Client => Err(ConnectionError::InvalidMode),
            ConnectionMode::Server { pending_session_id: Some(pending), .. } => Ok(pending),
            ConnectionMode::Server { pending_session_id: None, .. } => {
                let new = sample_session_id(&mut self.rng);
                self.begin_session_rotation(new);
                Ok(new)
            },
        }
    }

    /// Start to move a server to session `new`.
    pub fn begin_session_rotation(&mut self, new: SessionId)
        ensures
            final(self)@ == old(self)@.rotating_session(new),
    {
        match self.core.mode {
            ConnectionMode::Client => {},
            ConnectionMode::Server { has_auth_handle, key_update_pending, .. } => {
                self.emit(Action::SetSessionId(new));
                self.core.mode = ConnectionMode::Server {
                    has_auth_handle,
                    key_update_pending,
                    pending_session_id: Some(new),
                };
                let old_id = self.core.session_id;
                self.event(Event::SessionIdRotationStarted { old: old_id, new });
                // Announce the rotation: the keepalive ping is stamped
                // with the new session id and the pong reply echoes it
                // back, completing the rotation within one round trip
                // instead of waiting for organic client traffic
                self.send_keepalive(false);
            },
        }
    }

    /// Update the session id (only the one we wanted to rotate to) after the
    /// connection is validated.
    pub fn update_session_id(&mut self, session_id: Option<SessionId>)
        ensures
            final(self)@ == old(self)@.session_seen(session_id),
    {
        let session_id = match session_id {
            Some(session_id) => session_id,
            None => return ,
        };
        if session_id.is_empty() {
            return;
        }
        // No update required

        if session_id == self.core.session_id {
            return;
        }
        match self.core.mode {
            ConnectionMode::Client => {
                self.core.session_id = session_id;
                self.emit(Action::SetSessionId(session_id));
                self.publish_expresslane_key();
            },
            ConnectionMode::Server { has_auth_handle, key_update_pending, pending_session_id } => {
                match pending_session_id {
                    Some(new) => if new == session_id {
                        let old_id = self.core.session_id;
                        self.core.session_id = new;
                        self.core.mode = ConnectionMode::Server {
                            has_auth_handle,
                            key_update_pending,
                            pending_session_id: None,
                        };
                        self.event(Event::SessionIdRotationAcknowledged { old: old_id, new });
                    },
                    // A server uses the session id only to look up a session
                    // that it does not find by address, so a mismatch here
                    // won't affect anything.
                    None => {},
                }
            },
        }
    }

    /// Whether the keys of the session are to be updated now: periodically,
    /// for servers that speak version 1.3. `required` tells whether the
    /// period is over.
    pub fn should_update_tls_keys(&self, version: tls::ProtocolVersion, required: bool) -> (r: bool)
        ensures
            r == self.core.updates_keys(version, required),
    {
        match version {
            tls::ProtocolVersion::DtlsV1_3 | tls::ProtocolVersion::TlsV1_3 => {},
            _ => return false,
        }
        match self.core.mode {
            ConnectionMode::Client => false,
            ConnectionMode::Server { .. } => required,
        }
    }

    /// The session has been asked to update its keys. That it cannot write at
    /// the moment does not matter: the update happens with a later write.
    pub fn tls_key_update_triggered(&mut self, polled: Result<tls::Poll<()>, tls::Error>) -> (r:
        ConnectionResult<()>)
        ensures
            (final(self)@, r) == old(self)@.key_update_triggered(polled),
    {
        match polled {
            Err(error) => Err(ConnectionError::Tls(error)),
            Ok(tls::Poll::AppData(_)) => Ok(()),
            Ok(_) => {
                self.event(Event::TlsKeysUpdateStart);
                self.emit(Action::UpdateTickInterval);
                Ok(())
            },
        }
    }

    /// Whether it is time to see if an update of the keys is through: on a
    /// server, once the session is done with it.
    pub fn may_complete_tls_key_update(&self, session_pending: bool) -> (r: bool)
        ensures
            r == self.core.may_settle_keys(session_pending),
    {
        match self.core.mode {
            ConnectionMode::Client => false,
            ConnectionMode::Server { .. } => !session_pending,
        }
    }

    /// A server has looked whether an update of the keys has just completed,
    /// which it does where [`Connection::may_complete_tls_key_update`] says so.
    pub fn tls_key_update_checked(&mut self, completed: bool)
        ensures
            final(self)@ == old(self)@.key_update_settled(completed),
    {
        match self.core.mode {
            ConnectionMode::Client => {},
            ConnectionMode::Server { .. } => if completed {
                self.event(Event::TlsKeysUpdateCompleted);
                self.emit(Action::UpdateTickInterval);
            },
        }
    }
}

/// The counters that a peer sends are the counters that the other side reads.
pub proof fn counters_read_back(sent: u64, recv: u64)
    ensures
        ({
            let payload = counters_payload(Some((sent, recv)));
            &&& payload.len() == crate::health::PEER_COUNTERS_SIZE
            &&& be_value(payload.subrange(0, 8)) == sent
            &&& be_value(payload.subrange(8, 16)) == recv
        }),
{
    let payload = counters_payload(Some((sent, recv)));
    be_value_reads_be_bytes(sent);
    be_value_reads_be_bytes(recv);
    assert(payload.subrange(0, 8) =~= be_bytes(sent));
    assert(payload.subrange(8, 16) =~= be_bytes(recv));
}

/// A client follows its server to another session identifier, and the traffic
/// that it then sends completes the rotation on the server.
pub proof fn rotation_completes<A, B>(
    server: ConnectionView<A>,
    client: ConnectionView<B>,
    new: SessionId,
)
    requires
        server.core.mode is Server,
        client.core.mode is Client,
        !new.spec_is_empty(),
        new != server.core.session_id,
    ensures
        ({
            let rotating = server.rotating_session(new);
            let followed = client.session_seen(Some(new));
            let completed = rotating.session_seen(Some(followed.core.session_id));
            &&& rotating.core.session_id == server.core.session_id
            &&& rotating.core.spec_outgoing_session() == new
            &&& followed.core.session_id == new
            &&& completed.core.session_id == new
            &&& completed.core.spec_outgoing_session() == new
            &&& completed.actions == rotating.actions.push(
                Action::Event(
                    Event::SessionIdRotationAcknowledged { old: server.core.session_id, new },
                ),
            )
        }),
{
}

/// Until its client has followed, no other identifier makes a server change
/// its own, and a server that is not rotating ignores every identifier.
pub proof fn strangers_do_not_rotate<AppState>(
    server: ConnectionView<AppState>,
    session: Option<SessionId>,
)
    requires
        server.core.mode matches ConnectionMode::Server { pending_session_id, .. }
            && (pending_session_id is None || pending_session_id != session),
    ensures
        server.session_seen(session) == server,
{
}

/// An online connection sends exactly one sign of life when asked to, with the
/// identifier that is set aside for it: at once, or as soon as the counters
/// that travel with it on an expresslane are read. Any other connection sends
/// none.
pub proof fn signs_of_life_are_sent_once<AppState>(
    conn: ConnectionView<AppState>,
    required: bool,
    stats: Option<(u64, u64)>,
)
    ensures
        ({
            let after = conn.keeping_alive(required);
            let ping = |payload: Seq<u8>|
                ActionView::Send { frame: Frame::Ping { id: 0, payload }, required };
            &&& conn.core.state !is Online ==> after == conn
            &&& conn.core.state is Online ==> after.core == conn.core && after.actions
                == conn.actions.push(
                if conn.core.spec_expresslane_ready() {
                    ActionView::ReadStats {
                        session_id: conn.core.session_id,
                        purpose: StatsUse::Ping { required },
                    }
                } else {
                    ping(Seq::empty())
                },
            )
            &&& conn.counters_read(StatsUse::Ping { required }, stats).actions == conn.actions.push(
                ping(counters_payload(stats)),
            )
        }),
{
}

/// An online connection answers every ping with one pong of the same
/// identifier. Only the answer to a sign of life on an expresslane in use
/// waits for the counters, which it then carries.
pub proof fn pings_are_answered<AppState>(
    conn: ConnectionView<AppState>,
    id: u16,
    stats: Option<(u64, u64)>,
)
    ensures
        ({
            let (after, r) = conn.answering_ping(id);
            let pong = |payload: Seq<u8>|
                ActionView::Send { frame: Frame::Pong { id, payload }, required: true };
            &&& conn.core.state !is Online ==> after == conn && r == Err::<(), _>(
                ConnectionError::InvalidState,
            )
            &&& conn.core.state is Online ==> r is Ok && after.core == conn.core && after.actions
                == conn.actions.push(
                if id == 0 && conn.core.spec_expresslane_ready() {
                    ActionView::ReadStats {
                        session_id: conn.core.session_id,
                        purpose: StatsUse::Pong { id },
                    }
                } else {
                    pong(Seq::empty())
                },
            )
            &&& conn.counters_read(StatsUse::Pong { id }, stats).actions == conn.actions.push(
                pong(counters_payload(stats)),
            )
        }),
{
}

/// A reading of the counters travels as sixteen bytes, the packets sent before
/// the packets received, and the lack of one as nothing at all.
pub proof fn counters_travel_whole(sent: u64, recv: u64)
    ensures
        counters_payload(Some((sent, recv))).len() == 16,
        be_value(counters_payload(Some((sent, recv))).take(8)) == sent,
        be_value(counters_payload(Some((sent, recv))).skip(8)) == recv,
        counters_payload(None).len() == 0,
{
    counters_read_back(sent, recv);
    let payload = counters_payload(Some((sent, recv)));
    assert(payload.take(8) =~= payload.subrange(0, 8));
    assert(payload.skip(8) =~= payload.subrange(8, 16));
}

/// Every pong is told to path MTU discovery, where that takes place, with its
/// identifier and its payload. The application hears of those that answer a
/// sign of life, and of no other.
pub proof fn pongs_are_told<AppState>(conn: ConnectionView<AppState>, id: u16, payload: Seq<u8>)
    ensures
        ({
            let (after, r) = conn.pong_received(id, payload);
            let n = conn.actions.len() as int;
            let reply = ActionView::Event(Event::KeepaliveReply);
            &&& conn.core.state !is Online ==> after == conn && r == Err::<(), _>(
                ConnectionError::InvalidState,
            )
            &&& conn.core.state is Online ==> {
                &&& r is Ok
                &&& conn.core.pmtud is Some ==> after.actions.last() == ActionView::DrivePmtud(
                    PmtudStep::PongReceived { id, payload },
                )
                &&& id == 0 ==> after.actions.len() > n && after.actions[n] == reply
                &&& id != 0 ==> after.core == conn.core && (conn.core.pmtud is None
                    ==> after.actions == conn.actions) && (conn.core.pmtud is Some
                    ==> after.actions.len() == n + 1)
            }
        }),
{
}

/// What path MTU discovery reports is what packets are measured by from then
/// on. The application hears of a new status, before a probe is sent, and of
/// no other; a probe is a ping of exactly the size and identifier asked for.
pub proof fn discovery_is_followed<AppState>(
    conn: ConnectionView<AppState>,
    report: PmtudReport,
    id: u16,
    size: u16,
)
    requires
        conn.core.pmtud is Some,
    ensures
        ({
            let waiting = conn.discovery_stepped(report, PmtudAction::Wait);
            let probing = conn.discovery_stepped(report, PmtudAction::SendProbe { id, size });
            let told = ActionView::Event(Event::PmtudStateChanged(report.status));
            &&& waiting.core.pmtud == Some(report) && probing.core.pmtud == Some(report)
            &&& waiting.actions == (if conn.core.pmtud->0.status == report.status {
                conn.actions
            } else {
                conn.actions.push(told)
            })
            &&& probing.actions.len() == waiting.actions.len() + 1
            &&& probing.actions.take(waiting.actions.len() as int) == waiting.actions
            &&& probing.actions.last() matches Action::SendProbe { frame }
            &&& frame matches Frame::Ping { id: bears, payload }
            &&& bears == id
            &&& payload.len() == size
            &&& forall|i: int| 0 <= i < size ==> (#[trigger] payload[i]) == 0
        }),
{
    let waiting = conn.discovery_stepped(report, PmtudAction::Wait);
    let probing = conn.discovery_stepped(report, PmtudAction::SendProbe { id, size });
    assert(probing.actions.take(waiting.actions.len() as int) =~= waiting.actions);
}

/// The timer of path MTU discovery moves it on an online connection, and on no
/// other; without discovery there is nothing to move.
pub proof fn discovery_ticks_online<AppState>(conn: ConnectionView<AppState>)
    ensures
        conn.discovery_ticked().actions == (if conn.core.state is Online && conn.core.pmtud is Some {
            conn.actions.push(Action::DrivePmtud(PmtudStep::Tick))
        } else {
            conn.actions
        }),
        conn.discovery_ticked().core == conn.core,
{
}

/// A rotation is announced: the session is told to use the new identifier
/// before anything else, the application hears of it, and on an online
/// connection a sign of life follows. A client rotates nothing.
pub proof fn rotations_are_announced<AppState>(conn: ConnectionView<AppState>, new: SessionId)
    ensures
        ({
            let after = conn.rotating_session(new);
            let n = conn.actions.len() as int;
            &&& conn.core.mode is Client ==> after == conn
            &&& conn.core.mode is Server ==> {
                &&& after.actions[n] == ActionView::SetSessionId(new)
                &&& after.actions[n + 1] == ActionView::Event(
                    Event::SessionIdRotationStarted { old: conn.core.session_id, new },
                )
                &&& after.actions.len() == n + (if conn.core.state is Online {
                    3int
                } else {
                    2int
                })
                &&& after.core.session_id == conn.core.session_id
                &&& conn.core.state is Online && conn.core.spec_expresslane_ready()
                    ==> after.actions[n + 2] == ActionView::ReadStats {
                    session_id: conn.core.session_id,
                    purpose: StatsUse::Ping { required: false },
                }
                &&& conn.core.state is Online && !conn.core.spec_expresslane_ready()
                    ==> after.actions[n + 2] == ActionView::Send {
                    frame: Frame::Ping { id: 0, payload: Seq::empty() },
                    required: false,
                }
                &&& after.core.mode matches ConnectionMode::Server { pending_session_id, .. }
                    && pending_session_id == Some(new)
            }
        }),
{
}

/// A client that follows its server stamps what it sends with the new
/// identifier, and an application that wants to know the keys hears under
/// which session they are now.
pub proof fn followed_sessions_are_stamped<AppState>(
    client: ConnectionView<AppState>,
    new: SessionId,
)
    requires
        client.core.mode is Client,
        new.id != 0,
        new != client.core.session_id,
    ensures
        ({
            let after = client.session_seen(Some(new));
            let n = client.actions.len() as int;
            let lane = client.core.expresslane;
            &&& after.core.session_id == new
            &&& after.actions.len() > n && after.actions[n] == ActionView::SetSessionId(new)
            &&& lane.publishes_keys ==> after.actions.last() == ActionView::PublishExpresslaneKey {
                session_id: new,
                self_key: lane.self_key,
                peer_key: lane.peer_key,
                version: lane.version,
            }
        }),
{
}

/// The application hears of an update of the TLS keys when it begins and when
/// it is through, and each time the timers of the session are read again. An
/// update that was interrupted or failed has not begun, and what a client
/// looks at means nothing.
pub proof fn key_updates_are_told<AppState>(
    conn: ConnectionView<AppState>,
    polled: Result<tls::Poll<()>, tls::Error>,
    completed: bool,
)
    ensures
        ({
            let (begun, r) = conn.key_update_triggered(polled);
            &&& (polled matches Ok(poll) && poll !is AppData) ==> r is Ok && begun.actions
                == conn.actions.push(Action::Event(Event::TlsKeysUpdateStart)).push(
                Action::UpdateTickInterval,
            )
            &&& (polled matches Ok(poll) && poll is AppData) ==> r is Ok && begun == conn
            &&& polled matches Err(error) ==> begun == conn && r == Err::<(), _>(
                ConnectionError::Tls(error),
            )
        }),
        conn.key_update_settled(completed).actions == (if conn.core.mode is Server && completed {
            conn.actions.push(Action::Event(Event::TlsKeysUpdateCompleted)).push(
                Action::UpdateTickInterval,
            )
        } else {
            conn.actions
        }),
{
}

/// Keys are updated by servers that speak version 1.3, of TLS or DTLS, when
/// the time has come; an update can be through once the session is done with
/// it.
pub proof fn key_updates_have_their_conditions(
    core: Core,
    version: tls::ProtocolVersion,
    required: bool,
    session_pending: bool,
)
    ensures
        core.updates_keys(version, required) <==> required && core.mode is Server && (version
            == tls::ProtocolVersion::TlsV1_3 || version == tls::ProtocolVersion::DtlsV1_3),
        core.may_settle_keys(session_pending) <==> core.mode is Server && !session_pending,
{
}

} // verus!
