//! What a connection asks its host to do, and what it tells the application.

use crate::buffers::shared_bytes;
use crate::connection::State;
use crate::expresslane::ExpresslaneState;
use crate::inside_ip::InsideIpConfig;
use crate::pmtud::{PmtudStatus, PmtudStep};
use crate::time::Duration;
use crate::wire::{
    DataFrag, ExpresslaneConfig, ExpresslaneKey, ExpresslaneVersion, Frame, SessionId, Version,
};
use bytes::Bytes;
use vstd::prelude::*;

verus! {

/// Something that happened on a connection and that the application may want
/// to know.
#[derive(Clone, Copy, Debug, PartialEq, Eq, Structural)]
pub enum Event {
    /// The connection entered another state
    StateChanged(State),
    /// The peer answered a keepalive
    KeepaliveReply,
    /// A client received its first packet
    FirstPacketReceived,
    /// A server began to rotate the session identifier
    SessionIdRotationStarted {
        /// Identifier still in use
        old: SessionId,
        /// Identifier to move to
        new: SessionId,
    },
    /// The client has moved to the new session identifier
    SessionIdRotationAcknowledged {
        /// Identifier no longer in use
        old: SessionId,
        /// Identifier now in use
        new: SessionId,
    },
    /// A server began to update the TLS keys
    TlsKeysUpdateStart,
    /// The TLS keys are updated
    TlsKeysUpdateCompleted,
    /// Inside packet encoding was turned on or off
    EncodingStateChanged {
        /// Whether it is on now
        enabled: bool,
    },
    /// The expresslane entered another state
    ExpresslaneStateChanged(ExpresslaneState),
    /// Path MTU discovery reports another status
    PmtudStateChanged(PmtudStatus),
}

/// The payload of a tick that repeats an expresslane configuration until the
/// peer acknowledges it.
#[derive(Clone, Copy, Debug, PartialEq, Eq, Structural)]
pub struct ExpresslaneTickData(pub ExpresslaneConfig);

/// What a tick is for.
#[derive(Clone, Copy, Debug, PartialEq, Eq, Structural)]
pub enum TickType {
    /// Drives the retransmissions of the TLS session
    ConnectionTick,
    /// Repeats the encoding request of this number
    PktCodecTick(u64),
    /// Repeats an expresslane configuration
    ExpresslaneKeyShareTick(ExpresslaneTickData),
}

/// How long to wait before a tick.
#[derive(Clone, Copy, Debug, PartialEq, Eq, Structural)]
pub enum TickDelay {
    /// This long
    After(Duration),
    /// As long as an expresslane configuration may take to be acknowledged,
    /// once it was repeated this often
    ExpresslaneRetransmit(u8),
    /// As long as an encoding request may take to be answered, once it was
    /// repeated this often
    CodecRetransmit(u8),
}

/// What a reading of the expresslane packet counters is for.
#[derive(Clone, Copy, Debug, PartialEq, Eq, Structural)]
pub enum StatsUse {
    /// The payload of a keepalive ping
    Ping {
        /// Whether a failure to send it is reported
        required: bool,
    },
    /// The payload of a pong
    Pong {
        /// Identifier of the ping that is answered
        id: u16,
    },
    /// The local side of a health check
    Health {
        /// Packets that the peer says it sent
        peer_sent: u64,
        /// Packets that the peer says it received
        peer_recv: u64,
    },
}

/// One thing for the host to do. A list of actions is performed in order;
/// where an action has an outcome that the connection has to know, the step
/// named in its description takes it, and what that step asks for comes
/// before the rest of the list. When a required action fails, the rest of the
/// list is dropped and the error reported. When a step reports an error, what
/// it asked for is still done, and then the rest of the list is dropped and
/// the error reported. An [`crate::agenda::Agenda`] sees to it.
#[derive(Debug)]
pub enum Action<B, S> {
    /// Notify the application
    Event(Event),
    /// Send a frame (`Connection::queue_admits`)
    Send {
        /// The frame
        frame: Frame<B, S>,
        /// Whether a failure is reported rather than ignored
        required: bool,
    },
    /// Send a frame as a path MTU probe, with fragmentation forbidden. A
    /// failure is reported.
    SendProbe {
        /// The frame
        frame: Frame<B, S>,
    },
    /// Encrypt and send a packet over the expresslane
    /// (`Connection::expresslane_data_encrypted`)
    SendExpresslane {
        /// Session to encrypt for
        session_id: SessionId,
        /// The packet
        data: B,
        /// Whether the packet is encoded
        is_encoded: bool,
    },
    /// Arrange for a tick
    ScheduleTick {
        /// How long to wait
        delay: TickDelay,
        /// What the tick is for
        tick: TickType,
    },
    /// Read the timers of the session (`Connection::update_tick_interval`)
    UpdateTickInterval,
    /// Ask whether the session has timed out
    /// (`Connection::dtls_timeout_polled`)
    CheckDtlsTimeout,
    /// Send every packet more than once, or only once
    SetAggressiveSend(bool),
    /// Stamp outgoing datagrams with this identifier
    SetSessionId(SessionId),
    /// Tell the application which keys the expresslane uses, and the address
    /// of the peer along with them
    PublishExpresslaneKey {
        /// Session that the keys belong to
        session_id: SessionId,
        /// Key in use to encrypt
        self_key: ExpresslaneKey,
        /// Key in use to decrypt
        peer_key: ExpresslaneKey,
        /// Version negotiated with the peer
        version: ExpresslaneVersion,
    },
    /// Install no key as the next key to encrypt with
    InvalidateNextSelfKey,
    /// Make up a key and install it as the next key to encrypt with
    /// (`Connection::expresslane_key_installed`)
    ShareExpresslaneKey,
    /// Encrypt with the next key from now on
    /// (`Connection::expresslane_key_promoted`)
    PromoteSelfKey,
    /// Decrypt with the key of this configuration
    /// (`Connection::expresslane_peer_key_installed`)
    InstallPeerKey(ExpresslaneConfig),
    /// Read the expresslane packet counters (`Connection::stats_read`)
    ReadStats {
        /// Session that the counters belong to
        session_id: SessionId,
        /// What they are for
        purpose: StatsUse,
    },
    /// Take a step of path MTU discovery (`Connection::pmtud_stepped`)
    DrivePmtud(PmtudStep<B>),
    /// Take an address for the client from the pool
    /// (`Connection::client_ip_allocated`)
    AllocateClientIp {
        /// Credentials of the client
        auth_method: B,
    },
    /// Ask the application to judge the credentials
    /// (`Connection::authorization_decided`)
    Authorize {
        /// The credentials
        auth_method: B,
        /// What the client gets if it is let in
        ip_config: InsideIpConfig,
    },
    /// Tell the key update timer that the connection is online
    StartKeyUpdateTimer,
    /// Complete the authentication (`Connection::finish_authentication`)
    FinishAuthentication(Option<Version>),
    /// Give the address of the client back to the pool
    FreeClientIp,
    /// Hand the inside configuration to the application
    ApplyIpConfig(InsideIpConfig),
    /// Close the TLS session
    Shutdown,
    /// Turn the encoder on or off
    SetEncodingState(bool),
    /// Put a slice of a packet with the others
    /// (`Connection::fragment_added`)
    AddFragment {
        /// The slice
        frag: DataFrag<B>,
        /// Whether the packet is encoded
        is_encoded: bool,
    },
    /// Decode a packet (`Connection::packet_decoded`)
    DecodePacket(B),
    /// Run a packet through the plugins on its way inside
    /// (`Connection::egress_done`)
    DeliverInside(B),
}

/// An action as the host gets it.
pub type HostAction = Action<Bytes, String>;

/// What a [`HostAction`] asks for.
pub type ActionView = Action<Seq<u8>, Seq<char>>;

impl View for Action<Bytes, String> {
    type V = ActionView;

    open spec fn view(&self) -> ActionView {
        match *self {
            Action::Event(event) => Action::Event(event),
            Action::Send { frame, required } => Action::Send { frame: frame@, required },
            Action::SendProbe { frame } => Action::SendProbe { frame: frame@ },
            Action::SendExpresslane { session_id, data, is_encoded } => Action::SendExpresslane {
                session_id,
                data: shared_bytes(data),
                is_encoded,
            },
            Action::ScheduleTick { delay, tick } => Action::ScheduleTick { delay, tick },
            Action::UpdateTickInterval => Action::UpdateTickInterval,
            Action::CheckDtlsTimeout => Action::CheckDtlsTimeout,
            Action::SetAggressiveSend(on) => Action::SetAggressiveSend(on),
            Action::SetSessionId(id) => Action::SetSessionId(id),
            Action::PublishExpresslaneKey { session_id, self_key, peer_key, version } =>
                Action::PublishExpresslaneKey { session_id, self_key, peer_key, version },
            Action::InvalidateNextSelfKey => Action::InvalidateNextSelfKey,
            Action::ShareExpresslaneKey => Action::ShareExpresslaneKey,
            Action::PromoteSelfKey => Action::PromoteSelfKey,
            Action::InstallPeerKey(config) => Action::InstallPeerKey(config),
            Action::ReadStats { session_id, purpose } => Action::ReadStats { session_id, purpose },
            Action::DrivePmtud(step) => Action::DrivePmtud(step@),
            Action::AllocateClientIp { auth_method } => Action::AllocateClientIp {
                auth_method: shared_bytes(auth_method),
            },
            Action::Authorize { auth_method, ip_config } => Action::Authorize {
                auth_method: shared_bytes(auth_method),
                ip_config,
            },
            Action::StartKeyUpdateTimer => Action::StartKeyUpdateTimer,
            Action::FinishAuthentication(version) => Action::FinishAuthentication(version),
            Action::FreeClientIp => Action::FreeClientIp,
            Action::ApplyIpConfig(ip_config) => Action::ApplyIpConfig(ip_config),
            Action::Shutdown => Action::Shutdown,
            Action::SetEncodingState(on) => Action::SetEncodingState(on),
            Action::AddFragment { frag, is_encoded } => Action::AddFragment {
                frag: frag@,
                is_encoded,
            },
            Action::DecodePacket(data) => Action::DecodePacket(shared_bytes(data)),
            Action::DeliverInside(data) => Action::DeliverInside(shared_bytes(data)),
        }
    }
}

/// Callbacks for one connection
pub trait EventCallback {
    /// The events that this callback was called with, in order.
    spec fn notified(&self) -> Seq<Event>;

    /// Called when Lightway wishes to notify about an event
    fn event(&mut self, event: Event)
        ensures
            final(self).notified() == old(self).notified().push(event),
    ;
}

/// A callback that keeps every event.
pub struct EventLog {
    /// The events, in the order in which they came
    pub events: Vec<Event>,
}

impl EventLog {
    /// A log without events.
    pub fn new() -> (log: EventLog)
        ensures
            log.notified() == Seq::<Event>::empty(),
    {
        EventLog { events: Vec::new() }
    }
}

impl EventCallback for EventLog {
    open spec fn notified(&self) -> Seq<Event> {
        self.events@
    }

    fn event(&mut self, event: Event) {
        self.events.push(event);
    }
}

/// Notify the application of an event, if it has a callback.
pub fn notify<C: EventCallback>(event_cb: &mut Option<C>, event: Event)
    ensures
        match (*old(event_cb), *final(event_cb)) {
            (Some(before), Some(after)) => after.notified() == before.notified().push(event),
            (None, None) => true,
            _ => false,
        },
{
    match event_cb {
        Some(cb) => {
            cb.event(event);
        },
        None => {},
    }
}

} // verus!
