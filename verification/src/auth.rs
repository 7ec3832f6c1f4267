//! How a server lets a client in, and how the client takes it.

use crate::action::{Action, ActionView};
use crate::buffers::shared_bytes;
use crate::connection::{Connection, ConnectionMode, ConnectionView, Core, State, Step};
use crate::error::{ConnectionError, ConnectionResult};
use crate::inside_ip::{
    decimal, decimal_spells_its_number, decimal_text, dotted, dotted_is_injective, dotted_text,
    parse_usize, spelled_number, InsideIpConfig,
};
use crate::wire::{AuthSuccessWithConfigV4, Frame, SessionId, Version};
use bytes::Bytes;
use vstd::prelude::*;

verus! {

/// What an application keeps of a client that it let in.
#[derive(Clone, Copy, Debug, PartialEq, Eq, Structural)]
pub struct ServerAuthHandle {
    /// Whether the client may use inside packet encoding
    pub inside_pkt_codec: bool,
}

/// What an application makes of the credentials of a client.
#[derive(Clone, Copy, Debug, PartialEq, Eq, Structural)]
pub enum ServerAuthResult {
    /// The client is not let in
    Denied,
    /// The client is let in
    Granted {
        /// Protocol version to speak with it, if another one than so far
        tunnel_protocol_version: Option<Version>,
        /// What the application keeps of it, if anything
        handle: Option<ServerAuthHandle>,
    },
}

/// What a server tells a client that it lets in.
pub open spec fn auth_success(ip_config: InsideIpConfig, mtu: usize, session: SessionId) ->
    AuthSuccessWithConfigV4<Seq<char>> {
    AuthSuccessWithConfigV4 {
        local_ip: dotted(ip_config.client_ip),
        peer_ip: dotted(ip_config.server_ip),
        dns_ip: dotted(ip_config.dns_ip),
        mtu: decimal(mtu as nat),
        session,
    }
}

/// The addresses that a server spelled, if all of them are addresses.
pub open spec fn received_config(cfg: AuthSuccessWithConfigV4<Seq<char>>) -> Option<
    InsideIpConfig,
> {
    if exists|config: InsideIpConfig| #[trigger]
        config.spelled_by(cfg.local_ip, cfg.peer_ip, cfg.dns_ip) {
        Some(
            choose|config: InsideIpConfig| #[trigger]
                config.spelled_by(cfg.local_ip, cfg.peer_ip, cfg.dns_ip),
        )
    } else {
        None
    }
}

/// The outside MTU that an inside MTU needs, as far as a machine word can
/// tell.
pub open spec fn needed_outside_mtu(inside_mtu: usize) -> usize {
    if inside_mtu + crate::outside_overhead() <= usize::MAX {
        (inside_mtu + crate::outside_overhead()) as usize
    } else {
        usize::MAX
    }
}

impl<AppState> ConnectionView<AppState> {
    /// The connection once a client has asked to be let in. A client that is
    /// already in may ask again, since the answer can have been lost.
    pub open spec fn auth_requested(self, auth_method: Seq<u8>) -> Step<AppState> {
        if self.core.mode is Client {
            (self, Err(ConnectionError::InvalidMode))
        } else if !(self.core.state is LinkUp || self.core.state is Online) {
            (self, Err(ConnectionError::InvalidState))
        } else {
            (self.emit(Action::AllocateClientIp { auth_method }), Ok(()))
        }
    }

    /// The connection once there is an address for the client, or none left.
    pub open spec fn ip_allocated(
        self,
        auth_method: Seq<u8>,
        ip_config: Option<InsideIpConfig>,
    ) -> Step<AppState> {
        match ip_config {
            None => (self.refusing(), Err(ConnectionError::NoAvailableClientIp)),
            Some(ip_config) => if self.core.has_inside_io {
                (self.emit(Action::Authorize { auth_method, ip_config }), Ok(()))
            } else {
                (self.refusing(), Err(ConnectionError::InvalidInsideIo))
            },
        }
    }

    /// The connection once the application has judged the credentials. The
    /// client is told before anything else changes.
    pub open spec fn decided(
        self,
        ip_config: InsideIpConfig,
        inside_mtu: usize,
        decision: ServerAuthResult,
    ) -> Step<AppState> {
        match decision {
            ServerAuthResult::Denied => (self.refusing(), Err(ConnectionError::AccessDenied)),
            ServerAuthResult::Granted { tunnel_protocol_version, handle } => (
                self.with_core(
                    Core {
                        can_use_inside_pkt_encoding: match handle {
                            Some(handle) => handle.inside_pkt_codec,
                            None => self.core.can_use_inside_pkt_encoding,
                        },
                        mode: match self.core.mode {
                            ConnectionMode::Client => ConnectionMode::Client,
                            ConnectionMode::Server {
                                key_update_pending,
                                pending_session_id,
                                ..
                            } => ConnectionMode::Server {
                                has_auth_handle: handle is Some,
                                key_update_pending,
                                pending_session_id,
                            },
                        },
                        ..self.core
                    },
                ).emit(Action::StartKeyUpdateTimer).sends(
                    Frame::AuthSuccessWithConfigV4(
                        auth_success(ip_config, inside_mtu, self.core.session_id),
                    ),
                ).emit(Action::FinishAuthentication(tunnel_protocol_version)),
                Ok(()),
            ),
        }
    }

    /// The connection once the client has been told that it is let in.
    pub open spec fn authentication_finished(self, version: Option<Version>, due: bool) -> Step<
        AppState,
    > {
        let (versed, r) = match version {
            Some(v) => self.versioned(v),
            None => (self, Ok(())),
        };
        if r is Ok {
            versed.entering(State::Online, due)
        } else {
            (versed, r)
        }
    }

    /// Whether the path is too narrow for the inside MTU that the server
    /// named, with no path MTU discovery to make up for it.
    pub open spec fn path_too_narrow(self, inside_mtu: usize) -> bool {
        &&& self.core.connection_type is Datagram
        &&& self.core.outside_mtu < inside_mtu + crate::outside_overhead()
        &&& self.core.pmtud is None
    }

    /// What the answer of a server that lets this side in comes to: the
    /// addresses to apply, nothing for a client that is already online.
    pub open spec fn auth_answer(
        self,
        cfg: AuthSuccessWithConfigV4<Seq<char>>,
    ) -> ConnectionResult<Option<InsideIpConfig>> {
        let inside_mtu = spelled_number(cfg.mtu);
        if self.core.state is Online {
            Ok(None)
        } else if inside_mtu is Some && self.path_too_narrow(inside_mtu->0) {
            Err(
                ConnectionError::PathMtuDiscoveryRequired {
                    inside_mtu: inside_mtu->0,
                    required_outside_mtu: needed_outside_mtu(inside_mtu->0),
                },
            )
        } else if self.core.mode is Server {
            Err(ConnectionError::InvalidMode)
        } else {
            match received_config(cfg) {
                None => Err(ConnectionError::InvalidInsideIpConfig),
                Some(ip_config) => Ok(Some(ip_config)),
            }
        }
    }

    /// The connection once a server has answered that it lets this side in.
    pub open spec fn auth_succeeded(
        self,
        cfg: AuthSuccessWithConfigV4<Seq<char>>,
        due: bool,
    ) -> Step<AppState> {
        match self.auth_answer(cfg) {
            Err(error) => (self, Err(error)),
            Ok(None) => (self, Ok(())),
            Ok(Some(ip_config)) => self.emit(Action::ApplyIpConfig(ip_config)).entering(
                State::Online,
                due,
            ),
        }
    }
}

impl<AppState> Connection<AppState> {
    /// A client asks to be let in with these credentials.
    pub fn handle_auth_request(&mut self, auth_method: Bytes) -> (r: ConnectionResult<()>)
        ensures
            (final(self)@, r) == old(self)@.auth_requested(shared_bytes(auth_method)),
    {
        if matches!(self.core.mode, ConnectionMode::Client) {
            return Err(ConnectionError::InvalidMode);
        }
        // Normally we would expect to be in `State::LinkUp` when
        // authenticating. However with aggressive connection mode we
        // may have seen the first request and therefore moved to
        // `State::Online` but the reply might have been lost,
        // therefore we also process auth requests while already in
        // `State::Online` so that the reply will be repeated.

        if !matches!(self.core.state, State::LinkUp | State::Online) {
            return Err(ConnectionError::InvalidState);
        }
        self.emit(Action::AllocateClientIp { auth_method });
        Ok(())
    }

    /// The pool has given an address for the client, or has none left.
    pub fn client_ip_allocated(
        &mut self,
        auth_method: Bytes,
        ip_config: Option<InsideIpConfig>,
    ) -> (r: ConnectionResult<()>)
        ensures
            (final(self)@, r) == old(self)@.ip_allocated(shared_bytes(auth_method), ip_config),
    {
        let ip_config = match ip_config {
            Some(ip_config) => ip_config,
            None => {
                self.send_auth_failure();
                return Err(ConnectionError::NoAvailableClientIp);
            },
        };
        if !self.core.has_inside_io {
            self.send_auth_failure();
            return Err(ConnectionError::InvalidInsideIo);
        }
        self.emit(Action::Authorize { auth_method, ip_config });
        Ok(())
    }

    /// The application has judged the credentials of the client. A client
    /// that is let in is told the MTU of the inside path as it is now.
    pub fn authorization_decided(
        &mut self,
        ip_config: InsideIpConfig,
        inside_mtu: usize,
        decision: ServerAuthResult,
    ) -> (r: ConnectionResult<()>)
        ensures
            (final(self)@, r) == old(self)@.decided(ip_config, inside_mtu, decision),
    {
        match decision {
            ServerAuthResult::Denied => {
                self.send_auth_failure();
                Err(ConnectionError::AccessDenied)
            },
            ServerAuthResult::Granted { tunnel_protocol_version, handle } => {
                let has_auth_handle = match handle {
                    Some(handle) => {
                        self.core.can_use_inside_pkt_encoding = handle.inside_pkt_codec;
                        true
                    },
                    None => false,
                };
                match self.core.mode {
                    ConnectionMode::Client => {},
                    ConnectionMode::Server { key_update_pending, pending_session_id, .. } => {
                        self.core.mode = ConnectionMode::Server {
                            has_auth_handle,
                            key_update_pending,
                            pending_session_id,
                        };
                    },
                }
                self.emit(Action::StartKeyUpdateTimer);
                let session = self.core.session_id;
                let cfg = AuthSuccessWithConfigV4 {
                    local_ip: dotted_text(ip_config.client_ip),
                    peer_ip: dotted_text(ip_config.server_ip),
                    dns_ip: dotted_text(ip_config.dns_ip),
                    mtu: decimal_text(inside_mtu),
                    session,
                };
                self.send(Frame::AuthSuccessWithConfigV4(cfg));
                self.emit(Action::FinishAuthentication(tunnel_protocol_version));
                Ok(())
            },
        }
    }

    /// The client has been told that it is let in.
    pub fn finish_authentication(&mut self, version: Option<Version>, due: bool) -> (r:
        ConnectionResult<()>)
        ensures
            (final(self)@, r) == old(self)@.authentication_finished(version, due),
    {
        match version {
            Some(v) => match self.set_tunnel_protocol_version(v) {
                Ok(_) => {},
                Err(error) => return Err(error),
            },
            None => {},
        }
        self.set_state(State::Online, due)
    }

    /// Refuse an inside MTU that the path is too narrow for.
    fn check_path(&self, inside_mtu: usize) -> (r: ConnectionResult<()>)
        ensures
            r == (if self@.path_too_narrow(inside_mtu) {
                Err::<(), _>(
                    ConnectionError::PathMtuDiscoveryRequired {
                        inside_mtu,
                        required_outside_mtu: needed_outside_mtu(inside_mtu),
                    },
                )
            } else {
                Ok::<(), ConnectionError>(())
            }),
    {
        let overhead: usize = crate::IPV4_HEADER_SIZE + crate::UDP_HEADER_SIZE
            + crate::HEADER_WIRE_SIZE + crate::MAX_DTLS_HEADER_SIZE;
        let fits = self.core.outside_mtu >= overhead && inside_mtu <= self.core.outside_mtu
            - overhead;
        if self.core.connection_type.is_datagram() && !fits && self.core.pmtud.is_none() {
            let required_outside_mtu = if inside_mtu <= usize::MAX - overhead {
                crate::dtls_required_outside_mtu(inside_mtu)
            } else {
                usize::MAX
            };
            return Err(
                ConnectionError::PathMtuDiscoveryRequired { inside_mtu, required_outside_mtu },
            );
        }
        Ok(())
    }

    /// Check the answer of a server that lets this side in.
    fn read_auth_response(&self, cfg: &AuthSuccessWithConfigV4<String>) -> (r: ConnectionResult<
        Option<InsideIpConfig>,
    >)
        ensures
            r == self@.auth_answer(cfg@),
    {
        // Ignore the message if client is already online
        if matches!(self.core.state, State::Online) {
            return Ok(None);
        }
        match parse_usize(&cfg.mtu) {
            Some(inside_mtu) => match self.check_path(inside_mtu) {
                Ok(_) => {},
                Err(error) => return Err(error),
            },
            None => {},
        }
        if matches!(self.core.mode, ConnectionMode::Server { .. }) {
            // Server should never be authenticating.
            return Err(ConnectionError::InvalidMode);
        }
        match parse_config(cfg) {
            None => Err(ConnectionError::InvalidInsideIpConfig),
            Some(ip_config) => Ok(Some(ip_config)),
        }
    }

    /// A server has answered that it lets this side in.
    pub fn handle_auth_response(
        &mut self,
        cfg: AuthSuccessWithConfigV4<String>,
        due: bool,
    ) -> (r: ConnectionResult<()>)
        ensures
            (final(self)@, r) == old(self)@.auth_succeeded(cfg@, due),
    {
        match self.read_auth_response(&cfg) {
            Err(error) => Err(error),
            Ok(None) => Ok(()),
            Ok(Some(ip_config)) => {
                self.emit(Action::ApplyIpConfig(ip_config));
                // Set connection state to Online
                self.set_state(State::Online, due)
            },
        }
    }
}

/// Read the addresses that a server spelled.
fn parse_config(cfg: &AuthSuccessWithConfigV4<String>) -> (config: Option<InsideIpConfig>)
    ensures
        config == received_config(cfg@),
{
    let config = InsideIpConfig::parse(&cfg.local_ip, &cfg.peer_ip, &cfg.dns_ip);
    proof {
        if let Some(config) = config {
            one_config_per_text(cfg@, config);
        }
    }
    config
}

/// No two configurations are spelled alike.
proof fn one_config_per_text(cfg: AuthSuccessWithConfigV4<Seq<char>>, config: InsideIpConfig)
    requires
        config.spelled_by(cfg.local_ip, cfg.peer_ip, cfg.dns_ip),
    ensures
        received_config(cfg) == Some(config),
{
    let received = received_config(cfg)->0;
    dotted_is_injective(received.client_ip, config.client_ip);
    dotted_is_injective(received.server_ip, config.server_ip);
    dotted_is_injective(received.dns_ip, config.dns_ip);
}

/// What a server hands out is what the client gets: the answer of a server
/// brings a client that is not yet online the addresses and the MTU that the
/// server put in, and brings the client online, unless the path is too narrow
/// for that MTU and there is no path MTU discovery.
pub proof fn client_gets_what_the_server_hands_out<AppState>(
    client: ConnectionView<AppState>,
    ip_config: InsideIpConfig,
    mtu: usize,
    session: SessionId,
    due: bool,
)
    requires
        client.core.mode is Client,
        client.core.state !is Online,
    ensures
        spelled_number(auth_success(ip_config, mtu, session).mtu) == Some(mtu),
        !client.path_too_narrow(mtu) ==> client.auth_succeeded(
            auth_success(ip_config, mtu, session),
            due,
        ) == client.emit(Action::ApplyIpConfig(ip_config)).entering(State::Online, due),
        client.path_too_narrow(mtu) ==> client.auth_succeeded(
            auth_success(ip_config, mtu, session),
            due,
        ) == (
            client,
            Err::<(), _>(
                ConnectionError::PathMtuDiscoveryRequired {
                    inside_mtu: mtu,
                    required_outside_mtu: needed_outside_mtu(mtu),
                },
            ),
        ),
{
    decimal_spells_its_number(mtu);
    one_config_per_text(auth_success(ip_config, mtu, session), ip_config);
}

/// A client that is refused, for whatever reason, is told so before the
/// connection ends, and its address goes back to the pool.
pub proof fn refused_clients_are_told<AppState>(server: ConnectionView<AppState>)
    requires
        server.core.mode is Server,
        server.core.state is LinkUp || server.core.state is Online,
    ensures
        server.refusing().core.state is Disconnected,
        server.refusing().actions == server.actions + seq![
            Action::Send { frame: Frame::AuthFailure, required: false },
            Action::Event(crate::action::Event::StateChanged(State::Disconnecting)),
            Action::FreeClientIp,
            Action::Send { frame: Frame::Goodbye, required: false },
            Action::Shutdown,
            Action::Event(crate::action::Event::StateChanged(State::Disconnected)),
        ],
{
    assert(server.refusing().actions =~= server.actions + seq![
        Action::Send { frame: Frame::AuthFailure, required: false },
        Action::Event(crate::action::Event::StateChanged(State::Disconnecting)),
        Action::FreeClientIp,
        Action::Send { frame: Frame::Goodbye, required: false },
        Action::Shutdown,
        Action::Event(crate::action::Event::StateChanged(State::Disconnected)),
    ]);
}

/// The credentials of a client go from its request to the judge unchanged, by
/// way of an address for it. A request that comes at the wrong time, or to a
/// client, is refused; without an address or an inside for the client it is
/// refused for good.
pub proof fn credentials_reach_the_judge<AppState>(
    server: ConnectionView<AppState>,
    auth_method: Seq<u8>,
    ip_config: InsideIpConfig,
)
    ensures
        ({
            let (asked, r) = server.auth_requested(auth_method);
            let welcome = server.core.state is LinkUp || server.core.state is Online;
            &&& server.core.mode is Client ==> asked == server && r == Err::<(), _>(
                ConnectionError::InvalidMode,
            )
            &&& server.core.mode is Server && !welcome ==> asked == server && r == Err::<(), _>(
                ConnectionError::InvalidState,
            )
            &&& server.core.mode is Server && welcome ==> r is Ok && asked == (ConnectionView {
                actions: server.actions.push(Action::AllocateClientIp { auth_method }),
                ..server
            })
        }),
        ({
            let (allocated, r) = server.ip_allocated(auth_method, Some(ip_config));
            &&& server.core.has_inside_io ==> r is Ok && allocated == (ConnectionView {
                actions: server.actions.push(Action::Authorize { auth_method, ip_config }),
                ..server
            })
            &&& !server.core.has_inside_io ==> r == Err::<(), _>(ConnectionError::InvalidInsideIo)
                && allocated == server.refusing()
        }),
        server.ip_allocated(auth_method, None) == (
            server.refusing(),
            Err::<(), _>(ConnectionError::NoAvailableClientIp),
        ),
{
}

/// A client that is let in is told what it gets before the server goes on, and
/// takes exactly that: the addresses in what the server sends are those that
/// the client applies, under the session of the server and with the inside MTU
/// of the moment. Whether it may use encoding is for its handle to say. One
/// that is denied is refused for good.
pub proof fn admission_is_told_and_taken<A, B>(
    server: ConnectionView<A>,
    client: ConnectionView<B>,
    ip_config: InsideIpConfig,
    inside_mtu: usize,
    version: Option<Version>,
    handle: Option<ServerAuthHandle>,
    due: bool,
)
    requires
        server.core.mode is Server,
        client.core.mode is Client,
        client.core.state !is Online,
        client.core.pmtud is Some || client.core.connection_type is Stream
            || client.core.outside_mtu >= inside_mtu + 81,
    ensures
        ({
            let granted = ServerAuthResult::Granted { tunnel_protocol_version: version, handle };
            let (after, r) = server.decided(ip_config, inside_mtu, granted);
            let n = server.actions.len() as int;
            &&& r is Ok
            &&& after.core.state == server.core.state
            &&& after.core.can_use_inside_pkt_encoding == (match handle {
                Some(handle) => handle.inside_pkt_codec,
                None => server.core.can_use_inside_pkt_encoding,
            })
            &&& (after.core.mode matches ConnectionMode::Server { has_auth_handle, .. }
                && has_auth_handle == (handle is Some))
            &&& after.actions.len() == n + 3
            &&& after.actions[n] == ActionView::StartKeyUpdateTimer
            &&& after.actions[n + 2] == ActionView::FinishAuthentication(version)
            &&& after.actions[n + 1] matches Action::Send { frame, required }
            &&& required
            &&& frame matches Frame::AuthSuccessWithConfigV4(cfg)
            &&& cfg.session == server.core.session_id
            &&& cfg.local_ip == dotted(ip_config.client_ip)
            &&& cfg.peer_ip == dotted(ip_config.server_ip)
            &&& cfg.dns_ip == dotted(ip_config.dns_ip)
            &&& spelled_number(cfg.mtu) == Some(inside_mtu)
            &&& client.auth_succeeded(cfg, due).0.core.state is Online
            &&& client.auth_succeeded(cfg, due).0.actions[client.actions.len() as int]
                == ActionView::ApplyIpConfig(ip_config)
        }),
        server.decided(ip_config, inside_mtu, ServerAuthResult::Denied) == (
            server.refusing(),
            Err::<(), _>(ConnectionError::AccessDenied),
        ),
{
    client_gets_what_the_server_hands_out(
        client,
        ip_config,
        inside_mtu,
        server.core.session_id,
        due,
    );
}

/// The server is online once the client has been told, in the version that it
/// was let in with.
pub proof fn admission_ends_online<AppState>(
    server: ConnectionView<AppState>,
    version: Version,
    due: bool,
)
    requires
        server.core.mode is Server,
        server.core.state is LinkUp,
        server.core.expresslane.state !is Degraded,
    ensures
        ({
            let (after, r) = server.authentication_finished(Some(version), due);
            &&& r is Ok
            &&& after.core.state is Online
            &&& after.core.tunnel_protocol_version == version
        }),
        ({
            let (after, r) = server.authentication_finished(None, due);
            &&& r is Ok
            &&& after.core.state is Online
            &&& after.core.tunnel_protocol_version == server.core.tunnel_protocol_version
        }),
{
}

/// A path is too narrow for an inside MTU if it cannot carry a packet of that
/// length with the 81 bytes that travel in front of it, over datagrams and
/// with no discovery to make up for it. The client is told what it would take.
pub proof fn narrow_paths_are_refused<AppState>(
    client: ConnectionView<AppState>,
    cfg: AuthSuccessWithConfigV4<Seq<char>>,
    inside_mtu: usize,
    due: bool,
)
    requires
        client.core.state !is Online,
        spelled_number(cfg.mtu) == Some(inside_mtu),
        client.core.connection_type is Datagram,
        client.core.pmtud is None,
        client.core.outside_mtu < inside_mtu + 81 <= usize::MAX,
    ensures
        client.auth_succeeded(cfg, due) == (
            client,
            Err::<(), _>(
                ConnectionError::PathMtuDiscoveryRequired {
                    inside_mtu,
                    required_outside_mtu: (inside_mtu + 81) as usize,
                },
            ),
        ),
{
}

/// An answer that comes twice changes nothing, and one that a server gets, or
/// whose addresses are none, is refused.
pub proof fn unusable_answers_change_nothing<AppState>(
    conn: ConnectionView<AppState>,
    cfg: AuthSuccessWithConfigV4<Seq<char>>,
    due: bool,
)
    ensures
        conn.core.state is Online ==> conn.auth_succeeded(cfg, due) == (
            conn,
            Ok::<(), ConnectionError>(()),
        ),
        conn.core.state !is Online && conn.core.mode is Server ==> conn.auth_succeeded(cfg, due).0
            == conn && conn.auth_succeeded(cfg, due).1 is Err,
        conn.core.state !is Online && received_config(cfg) is None ==> conn.auth_succeeded(
            cfg,
            due,
        ).0 == conn && conn.auth_succeeded(cfg, due).1 is Err,
{
}

/// A client that asks again, because the answer was lost, is answered again
/// and stays in; only another version than the one spoken is refused then.
pub proof fn repeated_admissions_change_nothing<AppState>(
    server: ConnectionView<AppState>,
    version: Version,
    due: bool,
)
    requires
        server.core.mode is Server,
        server.core.state is Online,
    ensures
        server.authentication_finished(None, due) == (server, Ok::<(), ConnectionError>(())),
        server.authentication_finished(Some(version), due).0 == server,
        server.authentication_finished(Some(version), due).1 is Ok <==> version
            == server.core.tunnel_protocol_version,
{
}

} // verus!
