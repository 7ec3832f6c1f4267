//! The agreement of two peers on inside packet encoding.

use crate::action::{Action, ActionView, Event, TickDelay, TickType};
use crate::connection::{
    Connection, ConnectionMode, ConnectionType, ConnectionView, Core, EncodingRequestStates, State,
    Step,
};
use crate::error::{ConnectionError, ConnectionResult};
use crate::expresslane::next_number;
use crate::time::{Duration, Instant};
use crate::wire::{EncodingRequest, EncodingResponse, Frame};
use vstd::prelude::*;

verus! {

/// Maximum number of retransmissions attempts for each encoding request packet.
pub const ENCODING_REQUEST_PKT_MAX_RETRANSMISSION_ATTEMPTS: u8 = 5;

impl Core {
    /// Why a client cannot take part in the exchange, if so. It takes an
    /// encoder, an online connection over datagrams, and a client.
    pub open spec fn encoding_refusal(self) -> Option<ConnectionError> {
        if !self.has_encoder {
            Some(ConnectionError::PacketCodecDoesNotExist)
        } else if self.state !is Online {
            Some(ConnectionError::InvalidState)
        } else if self.connection_type !is Datagram {
            Some(ConnectionError::InvalidConnectionType)
        } else if self.mode !is Client {
            Some(ConnectionError::InvalidMode)
        } else {
            None
        }
    }

    /// Whether the inside path has gone without data for longer than
    /// `timeout`.
    pub open spec fn stalled(self, timeout: Duration, now: Instant) -> bool {
        now.nanos - self.activity.last_data_delivered_to_inside.nanos > timeout.nanos
    }
}

impl<AppState> ConnectionView<AppState> {
    /// The connection with another state of the exchange.
    pub open spec fn with_encoding_states(self, states: EncodingRequestStates) -> Self {
        self.with_core(Core { encoding_request_states: states, ..self.core })
    }

    /// The connection once the encoder is turned on or off.
    pub open spec fn encoding_set(self, enabled: bool) -> Self {
        self.emit(Action::SetEncodingState(enabled)).event(Event::EncodingStateChanged { enabled })
    }

    /// The connection once a client has asked for encoding. A client without
    /// authorization is told no; a request older than the latest one is
    /// passed over.
    pub open spec fn encoding_requested(self, er: EncodingRequest) -> Step<AppState> {
        let states = self.core.encoding_request_states;
        if !self.core.has_encoder {
            (self, Ok(()))
        } else if !self.core.can_use_inside_pkt_encoding {
            (
                self.sends(
                    Frame::EncodingResponse(EncodingResponse { id: er.id, enable: false }),
                ),
                Ok(()),
            )
        } else if self.core.state !is Online {
            (self, Err(ConnectionError::InvalidState))
        } else if self.core.connection_type !is Datagram {
            (self, Err(ConnectionError::InvalidConnectionType))
        } else if self.core.mode !is Server {
            (self, Err(ConnectionError::InvalidMode))
        } else if er.id < states.id_counter {
            (self, Ok(()))
        } else {
            (
                self.with_encoding_states(
                    EncodingRequestStates { id_counter: er.id, ..states },
                ).encoding_set(er.enable).sends(
                    Frame::EncodingResponse(EncodingResponse { id: er.id, enable: er.enable }),
                ),
                Ok(()),
            )
        }
    }

    /// The connection once its server has answered. Only the answer to the
    /// latest request counts, and only once.
    pub open spec fn encoding_answered(self, er: EncodingResponse) -> Step<AppState> {
        let states = self.core.encoding_request_states;
        match self.core.encoding_refusal() {
            Some(error) => (self, Err(error)),
            None => if states.pending_request_pkt is None || er.id != states.id_counter {
                (self, Ok(()))
            } else {
                (
                    self.with_encoding_states(
                        EncodingRequestStates { pending_request_pkt: None, ..states },
                    ).encoding_set(er.enable),
                    Ok(()),
                )
            },
        }
    }

    /// The connection once it has asked for encoding to be on or off.
    pub open spec fn requesting_encoding(self, enable: bool) -> Step<AppState> {
        match self.core.encoding_refusal() {
            Some(error) => (self, Err(error)),
            None => {
                let id = next_number(self.core.encoding_request_states.id_counter);
                let request = EncodingRequest { id, enable };
                (
                    self.with_encoding_states(
                        EncodingRequestStates {
                            id_counter: id,
                            pending_request_pkt: Some(request),
                            retransmissions_counter: 0,
                        },
                    ).emit(
                        Action::ScheduleTick {
                            delay: TickDelay::CodecRetransmit(0),
                            tick: TickType::PktCodecTick(id),
                        },
                    ).sends(Frame::EncodingRequest(request)),
                    Ok(()),
                )
            },
        }
    }

    /// Whether encoding is taken to black-hole the data plane: it is on, no
    /// change is under way, and nothing was delivered for longer than
    /// `timeout`.
    pub open spec fn codec_stalled(self, timeout: Duration, encoder_on: bool, now: Instant) -> bool {
        &&& timeout.nanos > 0
        &&& self.core.has_encoder && encoder_on
        &&& self.core.encoding_request_states.pending_request_pkt is None
        &&& self.core.stalled(timeout, now)
    }

    /// The connection once it has looked whether encoding black-holes the data
    /// plane, and whether it has asked for encoding to be off.
    pub open spec fn codec_guarded(self, timeout: Duration, encoder_on: bool, now: Instant) -> (
        Self,
        ConnectionResult<bool>,
    ) {
        if self.codec_stalled(timeout, encoder_on, now) {
            let (asked, r) = self.requesting_encoding(false);
            match r {
                Ok(_) => (asked, Ok(true)),
                Err(error) => (asked, Err(error)),
            }
        } else {
            (self, Ok(false))
        }
    }

    /// The connection once the time to repeat a request has come.
    pub open spec fn codec_ticked(self, request_id: u64) -> Step<AppState> {
        let states = self.core.encoding_request_states;
        match self.core.encoding_refusal() {
            Some(error) => (self, Err(error)),
            None => match states.pending_request_pkt {
                None => (self, Ok(())),
                Some(request) => if request_id != states.id_counter {
                    (self, Ok(()))
                } else if states.retransmissions_counter
                    >= ENCODING_REQUEST_PKT_MAX_RETRANSMISSION_ATTEMPTS {
                    (
                        self.with_encoding_states(
                            EncodingRequestStates { pending_request_pkt: None, ..states },
                        ),
                        Ok(()),
                    )
                } else {
                    let count = (states.retransmissions_counter + 1) as u8;
                    (
                        self.with_encoding_states(
                            EncodingRequestStates { retransmissions_counter: count, ..states },
                        ).emit(
                            Action::ScheduleTick {
                                delay: TickDelay::CodecRetransmit(count),
                                tick: TickType::PktCodecTick(states.id_counter),
                            },
                        ).sends(Frame::EncodingRequest(request)),
                        Ok(()),
                    )
                },
            },
        }
    }

    /// The connection once a tick has come.
    pub open spec fn ticked(self, tick_type: TickType) -> Step<AppState> {
        match tick_type {
            TickType::ConnectionTick => self.connection_ticked(),
            TickType::PktCodecTick(request_id) => self.codec_ticked(request_id),
            TickType::ExpresslaneKeyShareTick(config) => self.repeating_config(config.0),
        }
    }
}

impl<AppState> Connection<AppState> {
    /// Inject a tick to the connection. See
    /// [`Connection::tick_interval`] for usage.
    pub fn tick(&mut self, tick_type: TickType) -> (r: ConnectionResult<()>)
        ensures
            (final(self)@, r) == old(self)@.ticked(tick_type),
    {
        match tick_type {
            TickType::ConnectionTick => self.connection_tick(),
            TickType::PktCodecTick(request_id) => self.codec_tick(request_id),
            TickType::ExpresslaneKeyShareTick(config) => self.expresslane_key_share_tick(config),
        }
    }

    /// Process an EncodingRequest packet (Server only)
    pub fn process_encoding_request_pkt(&mut self, er: EncodingRequest) -> (r: ConnectionResult<()>)
        ensures
            (final(self)@, r) == old(self)@.encoding_requested(er),
    {
        if !self.core.has_encoder {
            // No encoder. Ignoring the request.
            return Ok(());
        }
        if !self.core.can_use_inside_pkt_encoding {
            self.send(Frame::EncodingResponse(EncodingResponse { id: er.id, enable: false }));
            return Ok(());
        }
        if !matches!(self.core.state, State::Online) {
            return Err(ConnectionError::InvalidState);
        }
        if !matches!(self.core.connection_type, ConnectionType::Datagram) {
            return Err(ConnectionError::InvalidConnectionType);
        }
        if !matches!(self.core.mode, ConnectionMode::Server { .. }) {
            return Err(ConnectionError::InvalidMode);
        }
        // Stale request as it is older than the latest acknowledged encoding request.
        // Do nothing and return.

        if er.id < self.core.encoding_request_states.id_counter {
            return Ok(());
        }
        // Update the latest acknowledged packet's id

        self.core.encoding_request_states.id_counter = er.id;
        self.emit(Action::SetEncodingState(er.enable));
        self.event(Event::EncodingStateChanged { enabled: er.enable });
        // Reply to the client.
        self.send(Frame::EncodingResponse(EncodingResponse { id: er.id, enable: er.enable }));
        Ok(())
    }

    /// Process an EncodingResponse packet (Client only)
    pub fn process_encoding_response_pkt(&mut self, te: EncodingResponse) -> (r: ConnectionResult<
        (),
    >)
        ensures
            (final(self)@, r) == old(self)@.encoding_answered(te),
    {
        if !self.core.has_encoder {
            return Err(ConnectionError::PacketCodecDoesNotExist);
        }
        if !matches!(self.core.state, State::Online) {
            return Err(ConnectionError::InvalidState);
        }
        if !matches!(self.core.connection_type, ConnectionType::Datagram) {
            return Err(ConnectionError::InvalidConnectionType);
        }
        if !matches!(self.core.mode, ConnectionMode::Client) {
            return Err(ConnectionError::InvalidMode);
        }
        // Latest encoding request is already acknowledged

        if self.core.encoding_request_states.pending_request_pkt.is_none() {
            return Ok(());
        }
        if te.id != self.core.encoding_request_states.id_counter {
            return Ok(());
        }
        // Removes from pending pkt store such that it is no longer retransmitted

        self.core.encoding_request_states.pending_request_pkt = None;
        self.emit(Action::SetEncodingState(te.enable));
        self.event(Event::EncodingStateChanged { enabled: te.enable });
        Ok(())
    }

    /// Get the current encoding state from the encoder, which says that it is
    /// on or off.
    pub fn is_encoding_enabled(&self, encoder_on: bool) -> (enabled: bool)
        ensures
            enabled == (self.core.has_encoder && encoder_on),
    {
        self.core.has_encoder && encoder_on
    }

    /// Create and send an encoding request to the server. (Client only)
    pub fn set_encoding(&mut self, enable: bool) -> (r: ConnectionResult<()>)
        ensures
            (final(self)@, r) == old(self)@.requesting_encoding(enable),
    {
        if !self.core.has_encoder {
            return Err(ConnectionError::PacketCodecDoesNotExist);
        }
        if !matches!(self.core.state, State::Online) {
            return Err(ConnectionError::InvalidState);
        }
        if !matches!(self.core.connection_type, ConnectionType::Datagram) {
            return Err(ConnectionError::InvalidConnectionType);
        }
        if !matches!(self.core.mode, ConnectionMode::Client) {
            return Err(ConnectionError::InvalidMode);
        }
        let id: u64 = self.core.encoding_request_states.id_counter.wrapping_add(1);
        let request = EncodingRequest { id, enable };
        self.core.encoding_request_states = EncodingRequestStates {
            id_counter: id,
            pending_request_pkt: Some(request),
            retransmissions_counter: 0,
        };
        // Arrange for a re-transmission
        self.emit(
            Action::ScheduleTick {
                delay: TickDelay::CodecRetransmit(0),
                tick: TickType::PktCodecTick(id),
            },
        );
        self.send(Frame::EncodingRequest(request));
        Ok(())
    }

    /// Data-plane stall guard for the inside packet codec. (Client only)
    ///
    /// When the codec is active but no decoded packet has reached the inside
    /// path within `timeout`, the codec is black-holing the data plane: control
    /// frames (keepalive) bypass the codec, so the tunnel still looks alive and
    /// neither keepalive nor the tracer can observe the failure. Request
    /// disabling the codec so traffic falls back to unencoded, rather than
    /// tearing the tunnel down.
    ///
    /// Returns `true` if a disable request was sent this call. A single stall
    /// episode sends one request: calls are suppressed while a request is
    /// pending and once encoding is off. A `timeout` of zero disables the check.
    pub fn downgrade_inside_pkt_codec_if_stalled(
        &mut self,
        timeout: Duration,
        encoder_on: bool,
        now: Instant,
    ) -> (r: ConnectionResult<bool>)
        ensures
            (final(self)@, r) == old(self)@.codec_guarded(timeout, encoder_on, now),
    {
        if timeout.is_zero() || !self.is_encoding_enabled(encoder_on) {
            return Ok(false);
        }
        // A codec change is already in flight; wait for it to resolve.

        if self.core.encoding_request_states.pending_request_pkt.is_some() {
            return Ok(false);
        }
        let idle = now.saturating_duration_since(self.core.activity.last_data_delivered_to_inside);
        if idle.nanos <= timeout.nanos {
            return Ok(false);
        }
        match self.set_encoding(false) {
            Ok(_) => Ok(true),
            Err(error) => Err(error),
        }
    }

    /// Attempts to retransmit the currently pending encoding request packet. (Client only)
    pub fn codec_tick(&mut self, request_id: u64) -> (r: ConnectionResult<()>)
        ensures
            (final(self)@, r) == old(self)@.codec_ticked(request_id),
    {
        if !self.core.has_encoder {
            return Err(ConnectionError::PacketCodecDoesNotExist);
        }
        if !matches!(self.core.state, State::Online) {
            return Err(ConnectionError::InvalidState);
        }
        if !matches!(self.core.connection_type, ConnectionType::Datagram) {
            return Err(ConnectionError::InvalidConnectionType);
        }
        if !matches!(self.core.mode, ConnectionMode::Client) {
            return Err(ConnectionError::InvalidMode);
        }
        let request = match self.core.encoding_request_states.pending_request_pkt {
            Some(request) => request,
            None => {
                // Latest encoding request is already acknowledged/failed
                return Ok(());
            },
        };
        // Ignore retransmit calls for the stale requests.
        if request_id != self.core.encoding_request_states.id_counter {
            return Ok(());
        }
        if self.core.encoding_request_states.retransmissions_counter
            >= ENCODING_REQUEST_PKT_MAX_RETRANSMISSION_ATTEMPTS {
            // Remove the pending packet
            self.core.encoding_request_states.pending_request_pkt = None;
            return Ok(());
        }
        let count: u8 = self.core.encoding_request_states.retransmissions_counter + 1;
        self.core.encoding_request_states.retransmissions_counter = count;
        // Arrange for another re-transmission
        self.emit(
            Action::ScheduleTick {
                delay: TickDelay::CodecRetransmit(count),
                tick: TickType::PktCodecTick(self.core.encoding_request_states.id_counter),
            },
        );
        self.send(Frame::EncodingRequest(request));
        Ok(())
    }
}

/// A stall is met with one request: while that request is not answered, the
/// guard stays quiet however long the stall lasts.
pub proof fn one_request_per_stall<AppState>(
    conn: ConnectionView<AppState>,
    timeout: Duration,
    encoder_on: bool,
    now: Instant,
    later: Instant,
)
    requires
        conn.codec_stalled(timeout, encoder_on, now),
        conn.requesting_encoding(false).1 is Ok,
    ensures
        !conn.requesting_encoding(false).0.codec_stalled(timeout, encoder_on, later),
{
}

/// The connection after its codec tick has fired `times` in a row for the
/// request that is pending, with nothing else happening.
pub open spec fn codec_ticks<AppState>(conn: ConnectionView<AppState>, times: nat) -> ConnectionView<
    AppState,
>
    decreases times,
{
    if times == 0 {
        conn
    } else {
        let before = codec_ticks(conn, (times - 1) as nat);
        before.codec_ticked(conn.core.encoding_request_states.id_counter).0
    }
}

/// A request that is never answered is repeated a fixed number of times and
/// then given up, after which a stall can be met with a new request.
pub proof fn requests_are_given_up<AppState>(conn: ConnectionView<AppState>, times: nat)
    requires
        conn.core.encoding_refusal() is None,
        conn.core.encoding_request_states.pending_request_pkt is Some,
        conn.core.encoding_request_states.retransmissions_counter == 0,
    ensures
        ({
            let after = codec_ticks(conn, times).core.encoding_request_states;
            &&& (after.pending_request_pkt is Some) == (times
                <= ENCODING_REQUEST_PKT_MAX_RETRANSMISSION_ATTEMPTS)
            &&& after.retransmissions_counter == (if times
                <= ENCODING_REQUEST_PKT_MAX_RETRANSMISSION_ATTEMPTS {
                times as int
            } else {
                ENCODING_REQUEST_PKT_MAX_RETRANSMISSION_ATTEMPTS as int
            })
        }),
{
    codec_ticks_count(conn, times);
}

/// What a row of codec ticks leaves unchanged, and what it counts.
proof fn codec_ticks_count<AppState>(conn: ConnectionView<AppState>, times: nat)
    requires
        conn.core.encoding_refusal() is None,
        conn.core.encoding_request_states.pending_request_pkt is Some,
        conn.core.encoding_request_states.retransmissions_counter == 0,
    ensures
        ({
            let after = codec_ticks(conn, times);
            let states = after.core.encoding_request_states;
            &&& after.core == (Core { encoding_request_states: states, ..conn.core })
            &&& states.id_counter == conn.core.encoding_request_states.id_counter
            &&& (states.pending_request_pkt is Some) == (times
                <= ENCODING_REQUEST_PKT_MAX_RETRANSMISSION_ATTEMPTS)
            &&& states.retransmissions_counter == (if times
                <= ENCODING_REQUEST_PKT_MAX_RETRANSMISSION_ATTEMPTS {
                times as int
            } else {
                ENCODING_REQUEST_PKT_MAX_RETRANSMISSION_ATTEMPTS as int
            })
        }),
    decreases times,
{
    if times > 0 {
        codec_ticks_count(conn, (times - 1) as nat);
    }
}

/// The request of a client, once it reaches a server that allows encoding and
/// has seen nothing later, sets both sides alike: the answer is taken as the
/// answer to that request.
pub proof fn both_sides_agree_on_encoding<A, B>(
    client: ConnectionView<A>,
    server: ConnectionView<B>,
    enable: bool,
)
    requires
        client.core.encoding_refusal() is None,
        server.core.has_encoder,
        server.core.state is Online,
        server.core.connection_type is Datagram,
        server.core.mode is Server,
        server.core.can_use_inside_pkt_encoding,
        server.core.encoding_request_states.id_counter <= next_number(
            client.core.encoding_request_states.id_counter,
        ),
    ensures
        ({
            let id = next_number(client.core.encoding_request_states.id_counter);
            let asked = client.requesting_encoding(enable).0;
            let granted = server.encoding_requested(EncodingRequest { id, enable }).0;
            let settled = asked.encoding_answered(EncodingResponse { id, enable }).0;
            &&& asked.actions.last() == Action::<Seq<u8>, Seq<char>>::Send {
                frame: Frame::EncodingRequest(EncodingRequest { id, enable }),
                required: true,
            }
            &&& granted.actions.last() == Action::<Seq<u8>, Seq<char>>::Send {
                frame: Frame::EncodingResponse(EncodingResponse { id, enable }),
                required: true,
            }
            &&& granted.actions.contains(Action::SetEncodingState(enable))
            &&& settled.actions.contains(Action::SetEncodingState(enable))
            &&& settled.core.encoding_request_states.pending_request_pkt is None
        }),
{
    let id = next_number(client.core.encoding_request_states.id_counter);
    let asked = client.requesting_encoding(enable).0;
    let granted = server.encoding_requested(EncodingRequest { id, enable }).0;
    let settled = asked.encoding_answered(EncodingResponse { id, enable }).0;
    assert(granted.actions[server.actions.len() as int] == Action::<
        Seq<u8>,
        Seq<char>,
    >::SetEncodingState(enable));
    assert(settled.actions[asked.actions.len() as int] == Action::<
        Seq<u8>,
        Seq<char>,
    >::SetEncodingState(enable));
}

/// The exchange about encoding takes an encoder, an online connection,
/// datagrams and a client to ask; a client that lacks one of them is told
/// which, in this order, and nothing is sent.
pub proof fn encoding_has_its_conditions<AppState>(conn: ConnectionView<AppState>, enable: bool)
    ensures
        ({
            let core = conn.core;
            let (after, r) = conn.requesting_encoding(enable);
            &&& r is Ok <==> core.has_encoder && core.state is Online && core.connection_type
                is Datagram && core.mode is Client
            &&& r is Err ==> after == conn
            &&& !core.has_encoder ==> r == Err::<(), _>(ConnectionError::PacketCodecDoesNotExist)
            &&& core.has_encoder && core.state !is Online ==> r == Err::<(), _>(
                ConnectionError::InvalidState,
            )
            &&& core.has_encoder && core.state is Online && core.connection_type is Stream ==> r
                == Err::<(), _>(ConnectionError::InvalidConnectionType)
        }),
{
}

/// A client asks under a new number and keeps asking: the request that is sent
/// is the one that is pending and that the tick is for, and it replaces any
/// earlier one.
pub proof fn requests_are_sent_and_kept<AppState>(conn: ConnectionView<AppState>, enable: bool)
    requires
        conn.requesting_encoding(enable).1 is Ok,
    ensures
        ({
            let after = conn.requesting_encoding(enable).0;
            let states = after.core.encoding_request_states;
            let n = conn.actions.len() as int;
            let request = EncodingRequest { id: states.id_counter, enable };
            &&& states.id_counter != conn.core.encoding_request_states.id_counter
            &&& conn.core.encoding_request_states.id_counter < u64::MAX ==> states.id_counter
                == conn.core.encoding_request_states.id_counter + 1
            &&& states.pending_request_pkt == Some(request)
            &&& states.retransmissions_counter == 0
            &&& after.actions.len() == n + 2
            &&& after.actions[n] == ActionView::ScheduleTick {
                delay: TickDelay::CodecRetransmit(0),
                tick: TickType::PktCodecTick(states.id_counter),
            }
            &&& after.actions[n + 1] == ActionView::Send {
                frame: Frame::EncodingRequest(request),
                required: true,
            }
        }),
{
}

/// A request that is repeated is repeated as it was, at most five times; a
/// tick for another request does nothing.
pub proof fn requests_are_repeated_as_they_were<AppState>(
    conn: ConnectionView<AppState>,
    request_id: u64,
)
    requires
        conn.core.has_encoder,
        conn.core.state is Online,
        conn.core.connection_type is Datagram,
        conn.core.mode is Client,
    ensures
        ({
            let states = conn.core.encoding_request_states;
            let (after, r) = conn.codec_ticked(request_id);
            let now = after.core.encoding_request_states;
            &&& r is Ok
            &&& states.pending_request_pkt is None || request_id != states.id_counter ==> after
                == conn
            &&& states.pending_request_pkt is Some && request_id == states.id_counter ==> {
                if states.retransmissions_counter < 5 {
                    &&& after.actions == conn.actions + seq![
                        ActionView::ScheduleTick {
                            delay: TickDelay::CodecRetransmit(
                                (states.retransmissions_counter + 1) as u8,
                            ),
                            tick: TickType::PktCodecTick(request_id),
                        },
                        ActionView::Send {
                            frame: Frame::EncodingRequest(states.pending_request_pkt->0),
                            required: true,
                        },
                    ]
                    &&& now.pending_request_pkt == states.pending_request_pkt
                    &&& now.retransmissions_counter == states.retransmissions_counter + 1
                } else {
                    after.actions == conn.actions && now.pending_request_pkt is None
                }
            }
        }),
{
    let states = conn.core.encoding_request_states;
    let after = conn.codec_ticked(request_id).0;
    if states.pending_request_pkt is Some && request_id == states.id_counter
        && states.retransmissions_counter < 5 {
        assert(after.actions =~= conn.actions + seq![
            ActionView::ScheduleTick {
                delay: TickDelay::CodecRetransmit((states.retransmissions_counter + 1) as u8),
                tick: TickType::PktCodecTick(request_id),
            },
            ActionView::Send {
                frame: Frame::EncodingRequest(states.pending_request_pkt->0),
                required: true,
            },
        ]);
    }
}

/// A client that may not use encoding is told no, under the number of its
/// request, and the encoder stays as it is. A request older than the latest
/// one is not even answered; any other sets the encoder as it asks, and the
/// application hears of it before the client does.
pub proof fn servers_decide_on_encoding<AppState>(
    server: ConnectionView<AppState>,
    request: EncodingRequest,
)
    requires
        server.core.has_encoder,
        server.core.state is Online,
        server.core.connection_type is Datagram,
        server.core.mode is Server,
    ensures
        ({
            let (after, r) = server.encoding_requested(request);
            let answer = |enable: bool|
                ActionView::Send {
                    frame: Frame::EncodingResponse(EncodingResponse { id: request.id, enable }),
                    required: true,
                };
            let latest = server.core.encoding_request_states.id_counter;
            &&& r is Ok
            &&& !server.core.can_use_inside_pkt_encoding ==> after.core == server.core
                && after.actions == server.actions.push(answer(false))
            &&& server.core.can_use_inside_pkt_encoding && request.id < latest ==> after == server
            &&& server.core.can_use_inside_pkt_encoding && request.id >= latest ==> {
                &&& after.core.encoding_request_states.id_counter == request.id
                &&& after.actions == server.actions.push(
                    Action::SetEncodingState(request.enable),
                ).push(
                    Action::Event(Event::EncodingStateChanged { enabled: request.enable }),
                ).push(answer(request.enable))
            }
        }),
{
}

/// A side without an encoder passes requests over.
pub proof fn no_encoder_no_answer<AppState>(
    conn: ConnectionView<AppState>,
    request: EncodingRequest,
)
    requires
        !conn.core.has_encoder,
    ensures
        conn.encoding_requested(request) == (conn, Ok::<(), ConnectionError>(())),
{
}

/// The answer to the latest request sets the encoder as it says and ends the
/// request, once; an answer to no request, or to another one, does nothing.
pub proof fn answers_count_once<AppState>(
    client: ConnectionView<AppState>,
    response: EncodingResponse,
)
    requires
        client.core.has_encoder,
        client.core.state is Online,
        client.core.connection_type is Datagram,
        client.core.mode is Client,
    ensures
        ({
            let states = client.core.encoding_request_states;
            let (after, r) = client.encoding_answered(response);
            &&& r is Ok
            &&& states.pending_request_pkt is None || response.id != states.id_counter ==> after
                == client
            &&& states.pending_request_pkt is Some && response.id == states.id_counter ==> {
                &&& after.core.encoding_request_states.pending_request_pkt is None
                &&& after.actions == client.actions.push(
                    Action::SetEncodingState(response.enable),
                ).push(Action::Event(Event::EncodingStateChanged { enabled: response.enable }))
                &&& after.encoding_answered(response).0 == after
            }
        }),
{
}

/// The guard against a codec that black-holes the data plane asks for encoding
/// to be off, never on, and exactly when encoding is on, no change is under
/// way, and nothing was delivered for longer than the timeout, unless that is
/// zero. It says that it asked, and otherwise does nothing.
pub proof fn stalled_codecs_are_switched_off<AppState>(
    conn: ConnectionView<AppState>,
    timeout: Duration,
    encoder_on: bool,
    now: Instant,
)
    requires
        conn.core.has_encoder,
        conn.core.state is Online,
        conn.core.connection_type is Datagram,
        conn.core.mode is Client,
    ensures
        ({
            let (after, r) = conn.codec_guarded(timeout, encoder_on, now);
            let last = conn.core.activity.last_data_delivered_to_inside;
            let stalled = timeout.nanos > 0 && encoder_on
                && conn.core.encoding_request_states.pending_request_pkt is None && now.nanos
                > last.nanos + timeout.nanos;
            &&& r == Ok::<bool, ConnectionError>(stalled)
            &&& !stalled ==> after == conn
            &&& stalled ==> after.actions.last() == ActionView::Send {
                frame: Frame::EncodingRequest(
                    EncodingRequest {
                        id: after.core.encoding_request_states.id_counter,
                        enable: false,
                    },
                ),
                required: true,
            }
        }),
{
}

/// Each tick goes to what asked for it.
pub proof fn ticks_reach_what_asked_for_them<AppState>(
    conn: ConnectionView<AppState>,
    request_id: u64,
    config: crate::action::ExpresslaneTickData,
)
    ensures
        conn.ticked(TickType::ConnectionTick) == conn.connection_ticked(),
        conn.ticked(TickType::PktCodecTick(request_id)) == conn.codec_ticked(request_id),
        conn.ticked(TickType::ExpresslaneKeyShareTick(config)) == conn.repeating_config(config.0),
{
}

/// A request reaches a server that lets its client use encoding only online
/// and over datagrams, and a client not at all; it then changes nothing. One
/// without leave is told no at any time.
pub proof fn misplaced_requests_are_refused<AppState>(
    conn: ConnectionView<AppState>,
    request: EncodingRequest,
)
    requires
        conn.core.has_encoder,
    ensures
        ({
            let (after, r) = conn.encoding_requested(request);
            let core = conn.core;
            let allowed = core.can_use_inside_pkt_encoding;
            &&& !allowed ==> r is Ok && after.core == core && after.actions == conn.actions.push(
                ActionView::Send {
                    frame: Frame::EncodingResponse(
                        EncodingResponse { id: request.id, enable: false },
                    ),
                    required: true,
                },
            )
            &&& r is Err ==> after == conn
            &&& allowed && core.state !is Online ==> r == Err::<(), _>(
                ConnectionError::InvalidState,
            )
            &&& allowed && core.state is Online && core.connection_type is Stream ==> r == Err::<
                (),
                _,
            >(ConnectionError::InvalidConnectionType)
            &&& allowed && core.state is Online && core.connection_type is Datagram && core.mode
                is Client ==> r == Err::<(), _>(ConnectionError::InvalidMode)
        }),
{
}

/// An answer, and the tick of a request, need what a request needs, and
/// otherwise fail in the same way and change nothing.
pub proof fn answers_need_what_requests_need<AppState>(
    conn: ConnectionView<AppState>,
    enable: bool,
    response: EncodingResponse,
    request_id: u64,
)
    requires
        conn.requesting_encoding(enable).1 is Err,
    ensures
        conn.encoding_answered(response) == conn.requesting_encoding(enable),
        conn.codec_ticked(request_id) == conn.requesting_encoding(enable),
        conn.core.mode is Server && conn.core.has_encoder && conn.core.state is Online
            && conn.core.connection_type is Datagram ==> conn.requesting_encoding(enable).1
            == Err::<(), _>(ConnectionError::InvalidMode),
{
}

} // verus!
