//! A connection, its state, and the steps of its life.

use crate::action::{Action, ActionView, Event, HostAction};
use crate::buffers::{buffer_bytes, shared_bytes};
use crate::error::ConnectionResult;
use crate::expresslane::Expresslane;
use crate::pmtud::PmtudReport;
use crate::time::{Duration, Instant};
use crate::wire::{EncodingRequest, SessionId, Version};
use bytes::{Bytes, BytesMut};
use rand::rngs::StdRng;
use std::collections::VecDeque;
use vstd::prelude::*;

verus! {

/// Connection state
#[derive(Clone, Copy, Debug, PartialEq, Eq, Structural)]
pub enum State {
    /// Secure connection is being established.
    Connecting,
    /// Secure connection is established
    LinkUp,
    /// Connection is established, client is authenticating
    Authenticating,
    /// Tunnel is online
    Online,
    /// Disconnect is in progress
    Disconnecting,
    /// Connection has been disconnected
    Disconnected,
}

impl State {
    /// The number by which a state is known across language boundaries.
    pub fn code(&self) -> (code: u8)
        ensures
            code == (match *self {
                State::Connecting => 2u8,
                State::LinkUp => 6u8,
                State::Authenticating => 5u8,
                State::Online => 7u8,
                State::Disconnecting => 4u8,
                State::Disconnected => 1u8,
            }),
    {
        match self {
            State::Connecting => 2,
            State::LinkUp => 6,
            State::Authenticating => 5,
            State::Online => 7,
            State::Disconnecting => 4,
            State::Disconnected => 1,
        }
    }
}

/// How a connection reaches its peer.
#[derive(Clone, Copy, Debug, PartialEq, Eq, Structural)]
pub enum ConnectionType {
    /// TLS over TCP
    Stream,
    /// DTLS over UDP
    Datagram,
}

impl ConnectionType {
    /// Whether the transport carries datagrams.
    pub fn is_datagram(&self) -> (r: bool)
        ensures
            r == (self is Datagram),
    {
        match self {
            ConnectionType::Stream => false,
            ConnectionType::Datagram => true,
        }
    }
}

/// Client vs Server state.
#[derive(Clone, Copy, Debug, PartialEq, Eq, Structural)]
pub enum ConnectionMode {
    /// This side asks to be let in
    Client,
    /// This side lets others in
    Server {
        /// Whether the application keeps a handle on the authentication
        has_auth_handle: bool,
        /// Whether an update of the TLS keys is under way
        key_update_pending: bool,
        /// `Some(_)` iff a session ID rotation is in progress.
        pending_session_id: Option<SessionId>,
    },
}

/// Tracks when a connection was last active
#[derive(Clone, Copy, Debug, PartialEq, Eq, Structural)]
pub struct ConnectionActivity {
    /// Last time any traffic was received from client.
    pub last_outside_data_received: Instant,
    /// When data from the peer (going to the inside path) was last seen. What
    /// is sent to the peer never touches this.
    pub last_data_traffic_from_peer: Instant,
    /// When a decoded packet was last delivered to the inside path. Control
    /// frames never touch this, so it reflects real data-plane delivery.
    pub last_data_delivered_to_inside: Instant,
}

/// Where the exchange about inside packet encoding stands.
#[derive(Clone, Copy, Debug, PartialEq, Eq, Structural)]
pub struct EncodingRequestStates {
    /// Number of the latest request
    pub id_counter: u64,
    /// The latest request, while it is not answered
    pub pending_request_pkt: Option<EncodingRequest>,
    /// How often that request was repeated
    pub retransmissions_counter: u8,
}

/// Everything a connection decides on that is a plain value.
#[derive(Clone, Copy, Debug, PartialEq, Eq, Structural)]
pub struct Core {
    /// Type of connection
    pub connection_type: ConnectionType,
    /// Protocol version used by this connection
    pub tunnel_protocol_version: Version,
    /// Current state of the connection
    pub state: State,
    /// Client vs Server state.
    pub mode: ConnectionMode,
    /// The MTU for the outside path
    pub outside_mtu: usize,
    /// Largest inside packet that one frame can carry on the outside path
    pub max_data_size: usize,
    /// Session ID
    pub session_id: SessionId,
    /// Whether the inside path is configured
    pub has_inside_io: bool,
    /// Is a tick callback pending
    pub is_tick_timer_running: bool,
    /// Connection activity stats
    pub activity: ConnectionActivity,
    /// How long until the next tick is due
    pub tls_tick_interval: Option<Duration>,
    /// PMTU discovery, where it takes place
    pub pmtud: Option<PmtudReport>,
    /// Counter to use for slices of packets
    pub fragment_counter: u16,
    /// Is the first outside packet received
    pub is_first_packet_received: bool,
    /// Whether there is an inside packet encoder
    pub has_encoder: bool,
    /// Whether there is an inside packet decoder
    pub has_decoder: bool,
    /// Whether the server will accept inside packet encoding requests
    pub can_use_inside_pkt_encoding: bool,
    /// States for encoding request
    pub encoding_request_states: EncodingRequestStates,
    /// The expresslane
    pub expresslane: Expresslane,
}

/// A lightway connection
pub struct Connection<AppState> {
    /// Everything that is a plain value
    pub core: Core,
    /// Bytes to write to the TLS session. The head of the queue is a buffer
    /// that the session has begun to write and must be offered again; what is
    /// behind it has not yet been handed to the session.
    pub tls_pending_queue: VecDeque<BytesMut>,
    /// Bytes received from outside after decryption, until they make up a
    /// frame
    pub receive_buf: BytesMut,
    /// What the host has still to do, first things first
    pub actions: Vec<HostAction>,
    /// Credentials of a client in their encoded form, nothing for a server
    pub auth_method: Bytes,
    /// Random number generator
    pub rng: StdRng,
    /// App specific state.
    pub app_state: AppState,
}

/// What a connection amounts to, leaving out its random number generator.
pub struct ConnectionView<AppState> {
    /// Everything that is a plain value
    pub core: Core,
    /// Contents of the buffers that wait for the TLS session
    pub queue: Seq<Seq<u8>>,
    /// Bytes received that do not make up a frame yet
    pub received: Seq<u8>,
    /// What the host has still to do
    pub actions: Seq<ActionView>,
    /// Credentials of a client in their encoded form, nothing for a server
    pub auth_method: Seq<u8>,
    /// App specific state.
    pub app_state: AppState,
}

/// A state of a connection together with the answer of the step that led to it.
pub type Step<AppState> = (ConnectionView<AppState>, ConnectionResult<()>);

impl<AppState> View for Connection<AppState> {
    type V = ConnectionView<AppState>;

    open spec fn view(&self) -> ConnectionView<AppState> {
        ConnectionView {
            core: self.core,
            queue: self.tls_pending_queue@.map_values(|buf: BytesMut| buffer_bytes(buf)),
            received: buffer_bytes(self.receive_buf),
            actions: self.actions@.map_values(|action: HostAction| action@),
            auth_method: shared_bytes(self.auth_method),
            app_state: self.app_state,
        }
    }
}

impl<AppState> ConnectionView<AppState> {
    /// The connection with other plain values.
    pub open spec fn with_core(self, core: Core) -> Self {
        ConnectionView { core, ..self }
    }

    /// The connection in another state.
    pub open spec fn with_state(self, state: State) -> Self {
        self.with_core(Core { state, ..self.core })
    }

    /// The connection in another mode.
    pub open spec fn with_mode(self, mode: ConnectionMode) -> Self {
        self.with_core(Core { mode, ..self.core })
    }

    /// The connection with another expresslane.
    pub open spec fn with_expresslane(self, expresslane: Expresslane) -> Self {
        self.with_core(Core { expresslane, ..self.core })
    }

    /// The connection with one more thing for the host to do.
    pub open spec fn emit(self, action: ActionView) -> Self {
        ConnectionView { actions: self.actions.push(action), ..self }
    }

    /// The connection with an event for the application.
    pub open spec fn event(self, event: Event) -> Self {
        self.emit(Action::Event(event))
    }

    /// The connection with a frame to send, whose failure is reported.
    pub open spec fn sends(self, frame: crate::wire::FrameView) -> Self {
        self.emit(Action::Send { frame, required: true })
    }

    /// The connection with a frame to send as far as that is possible.
    pub open spec fn tries_to_send(self, frame: crate::wire::FrameView) -> Self {
        self.emit(Action::Send { frame, required: false })
    }

    /// The connection once it has moved to another state.
    pub open spec fn moved_to(self, state: State) -> Self {
        if self.core.state == state {
            self
        } else {
            self.with_state(state).event(Event::StateChanged(state))
        }
    }
}

impl<AppState> Connection<AppState> {
    /// Leave something for the host to do.
    pub(crate) fn emit(&mut self, action: HostAction)
        ensures
            final(self)@ == old(self)@.emit(action@),
    {
        self.actions.push(action);
        assert(self@.actions =~= old(self)@.emit(action@).actions);
    }

    /// Generate an event
    pub(crate) fn event(&mut self, event: Event)
        ensures
            final(self)@ == old(self)@.event(event),
    {
        self.emit(Action::Event(event));
    }

    /// Leave a frame for the host to send, and have a failure reported.
    pub(crate) fn send(&mut self, frame: crate::wire::WireFrame)
        ensures
            final(self)@ == old(self)@.sends(frame@),
    {
        self.emit(Action::Send { frame, required: true });
    }

    /// Leave a frame for the host to send as far as that is possible.
    pub(crate) fn try_send(&mut self, frame: crate::wire::WireFrame)
        ensures
            final(self)@ == old(self)@.tries_to_send(frame@),
    {
        self.emit(Action::Send { frame, required: false });
    }

    /// Change the state and notify the application of it.
    pub(crate) fn move_to(&mut self, state: State)
        ensures
            final(self)@ == old(self)@.moved_to(state),
    {
        if self.core.state == state {
            return;
        }
        self.core.state = state;
        self.event(Event::StateChanged(state));
    }

    /// Take the list of things to do.
    pub fn take_actions(&mut self) -> (actions: Vec<HostAction>)
        ensures
            actions@.map_values(|action: HostAction| action@) == old(self)@.actions,
            final(self)@ == (ConnectionView {
                actions: Seq::<ActionView>::empty(),
                ..old(self)@
            }),
    {
        let mut actions: Vec<HostAction> = Vec::new();
        std::mem::swap(&mut actions, &mut self.actions);
        assert(self@.actions =~= Seq::<ActionView>::empty());
        actions
    }
}

} // verus!
