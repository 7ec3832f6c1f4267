//! The expresslane: the path on which inside packets travel encrypted but
//! outside of the TLS session, and the watch kept over its health.

use crate::action::{Action, ActionView, Event, ExpresslaneTickData, TickDelay, TickType};
use crate::connection::{Connection, ConnectionView, Core, State, Step};
use crate::error::{ConnectionError, ConnectionResult};
use crate::random::sample_key;
use crate::time::Instant;
use crate::wire::{
    ExpresslaneConfig, ExpresslaneError, ExpresslaneKey, ExpresslaneVersion, Frame,
};
use vstd::prelude::*;

verus! {

/// Whether the expresslane can be used.
#[derive(Clone, Copy, Debug, PartialEq, Eq, Structural)]
pub enum ExpresslaneState {
    /// Switched off for this connection
    Disabled,
    /// A server that has not seen a key of its client yet
    WaitingForClient,
    /// Keys have still to be exchanged
    Inactive,
    /// In use
    Active,
    /// Given up for the rest of the session
    Degraded,
}

/// Bad windows that a direction may collect before the expresslane is given up
pub const EXPRESSLANE_DEGRADE_STRIKES: u8 = 3;

/// Windows that may go by without counters before the expresslane is given up
pub const EXPRESSLANE_MISSING_STATS_LIMIT: u8 = 3;

/// What a connection remembers of its expresslane. The keys themselves are
/// with the cipher; this holds what the decisions depend on.
#[derive(Clone, Copy, Debug, PartialEq, Eq, Structural)]
pub struct Expresslane {
    /// Whether it can be used
    pub state: ExpresslaneState,
    /// Version negotiated with the peer
    pub version: ExpresslaneVersion,
    /// Latest version spoken here
    pub max_version: ExpresslaneVersion,
    /// Key in use to encrypt
    pub self_key: ExpresslaneKey,
    /// Key in use to decrypt
    pub peer_key: ExpresslaneKey,
    /// Whether the cipher has keys for both directions
    pub has_valid_keys: bool,
    /// Whether the application wants to know the keys
    pub publishes_keys: bool,
    /// Number of the last configuration sent
    pub config_counter: u64,
    /// How often that configuration was repeated
    pub retransmit_count: u8,
    /// When a key was last shared
    pub last_key_rotation: Option<Instant>,
    /// Windows in a row without counters of the peer
    pub missing_peer_reports: u8,
    /// Windows in a row without counters of this side
    pub missing_local_readings: u8,
    /// Packets that the peer had sent at the last check
    pub prev_peer_sent: u64,
    /// Packets that the peer had received at the last check
    pub prev_peer_recv: u64,
    /// Packets that this side had sent at the last check
    pub last_snapshot_sent: u64,
    /// Packets that this side had received at the last check
    pub last_snapshot_recv: u64,
    /// Strikes against the direction from the peer
    pub inbound_strikes: u8,
    /// Strikes against the direction to the peer
    pub outbound_strikes: u8,
}

impl Expresslane {
    /// An expresslane on which nothing has happened yet.
    pub open spec fn spec_new(
        state: ExpresslaneState,
        publishes_keys: bool,
        max_version: ExpresslaneVersion,
    ) -> Expresslane {
        Expresslane {
            state,
            version: ExpresslaneVersion::Unknown,
            max_version,
            self_key: ExpresslaneKey::spec_invalid(),
            peer_key: ExpresslaneKey::spec_invalid(),
            has_valid_keys: false,
            publishes_keys,
            config_counter: 0,
            retransmit_count: 0,
            last_key_rotation: None,
            missing_peer_reports: 0,
            missing_local_readings: 0,
            prev_peer_sent: 0,
            prev_peer_recv: 0,
            last_snapshot_sent: 0,
            last_snapshot_recv: 0,
            inbound_strikes: 0,
            outbound_strikes: 0,
        }
    }

    /// An expresslane on which nothing has happened yet.
    pub fn new(
        state: ExpresslaneState,
        publishes_keys: bool,
        max_version: ExpresslaneVersion,
    ) -> (expresslane: Expresslane)
        ensures
            expresslane == Expresslane::spec_new(state, publishes_keys, max_version),
    {
        Expresslane {
            state,
            version: ExpresslaneVersion::Unknown,
            max_version,
            self_key: ExpresslaneKey::invalid(),
            peer_key: ExpresslaneKey::invalid(),
            has_valid_keys: false,
            publishes_keys,
            config_counter: 0,
            retransmit_count: 0,
            last_key_rotation: None,
            missing_peer_reports: 0,
            missing_local_readings: 0,
            prev_peer_sent: 0,
            prev_peer_recv: 0,
            last_snapshot_sent: 0,
            last_snapshot_recv: 0,
            inbound_strikes: 0,
            outbound_strikes: 0,
        }
    }

    /// The version to offer: the negotiated one, else the latest.
    pub open spec fn spec_outgoing_version(self) -> ExpresslaneVersion {
        match self.version {
            ExpresslaneVersion::Unknown => self.max_version,
            known => known,
        }
    }

    /// The version to offer: the negotiated one, else the latest.
    pub fn outgoing_version(&self) -> (version: ExpresslaneVersion)
        ensures
            version == self.spec_outgoing_version(),
    {
        match self.version {
            ExpresslaneVersion::Unknown => self.max_version,
            known => known,
        }
    }
}

/// How often a configuration is repeated before the peer is taken not to answer
pub const MAX_RETRANSMISSION_ATTEMPTS: u8 = 5;

/// The number after `counter`, back to zero after the last one.
pub open spec fn next_number(counter: u64) -> u64 {
    if counter == u64::MAX {
        0
    } else {
        (counter + 1) as u64
    }
}

impl Core {
    /// Whether both peers may use an expresslane at all: over datagrams, from
    /// protocol version 1.3 on, and once it is neither switched off nor
    /// waiting for the client.
    pub open spec fn spec_expresslane_supported(self) -> bool {
        &&& self.connection_type is Datagram
        &&& self.tunnel_protocol_version.spec_at_least(1, 3)
        &&& self.expresslane.state !is Disabled
        &&& self.expresslane.state !is WaitingForClient
    }

    /// Whether the next inside packet goes over the expresslane.
    pub open spec fn spec_expresslane_ready(self) -> bool {
        &&& self.spec_expresslane_supported()
        &&& self.expresslane.state is Active
        &&& self.expresslane.has_valid_keys
    }

    /// Whether both peers may use an expresslane at all.
    pub fn expresslane_supported(&self) -> (supported: bool)
        ensures
            supported == self.spec_expresslane_supported(),
    {
        self.connection_type.is_datagram() && self.tunnel_protocol_version.at_least(1, 3)
            && !matches!(
            self.expresslane.state,
            ExpresslaneState::Disabled | ExpresslaneState::WaitingForClient
        )
    }

    /// Whether the next inside packet goes over the expresslane.
    pub fn expresslane_ready(&self) -> (ready: bool)
        ensures
            ready == self.spec_expresslane_ready(),
    {
        self.expresslane_supported() && matches!(self.expresslane.state, ExpresslaneState::Active)
            && self.expresslane.has_valid_keys
    }
}

impl<AppState> ConnectionView<AppState> {
    /// The connection once its expresslane is in the given state.
    pub open spec fn expresslane_moved_to(self, state: ExpresslaneState) -> Self {
        if self.core.expresslane.state == state {
            self
        } else {
            self.with_expresslane(Expresslane { state, ..self.core.expresslane }).event(
                Event::ExpresslaneStateChanged(state),
            )
        }
    }

    /// The connection once the application is told the keys, if it wants to
    /// know them.
    pub open spec fn publishing_keys(self) -> Self {
        let expresslane = self.core.expresslane;
        if expresslane.publishes_keys {
            self.emit(
                Action::PublishExpresslaneKey {
                    session_id: self.core.session_id,
                    self_key: expresslane.self_key,
                    peer_key: expresslane.peer_key,
                    version: expresslane.version,
                },
            )
        } else {
            self
        }
    }

    /// The configuration that is sent next, for the given key.
    pub open spec fn next_config(self, enabled: bool, key: ExpresslaneKey) -> ExpresslaneConfig {
        ExpresslaneConfig {
            enabled,
            key,
            version: self.core.expresslane.spec_outgoing_version(),
            ack: false,
            counter: next_number(self.core.expresslane.config_counter),
        }
    }

    /// The connection once it has sent `config` and arranged to repeat it.
    pub open spec fn sharing(self, config: ExpresslaneConfig, rotated: Option<Instant>) -> Self {
        self.with_expresslane(
            Expresslane {
                config_counter: config.counter,
                retransmit_count: 0,
                last_key_rotation: rotated,
                ..self.core.expresslane
            },
        ).tries_to_send(Frame::ExpresslaneConfig(config)).emit(
            Action::ScheduleTick {
                delay: TickDelay::ExpresslaneRetransmit(0),
                tick: TickType::ExpresslaneKeyShareTick(ExpresslaneTickData(config)),
            },
        )
    }

    /// The connection once it has given its expresslane up and told the peer.
    pub open spec fn degraded(self) -> Self {
        let given_up = self.expresslane_moved_to(ExpresslaneState::Degraded).emit(
            Action::InvalidateNextSelfKey,
        );
        given_up.sharing(
            given_up.next_config(false, ExpresslaneKey::spec_invalid()),
            given_up.core.expresslane.last_key_rotation,
        )
    }

    /// An attempt to share a new key: refused once the expresslane is
    /// degraded, made only when one is due.
    pub open spec fn rotating_key(self, due: bool) -> Step<AppState> {
        if !self.core.spec_expresslane_supported() {
            (self, Ok(()))
        } else if self.core.expresslane.state is Degraded {
            (self, Err(ConnectionError::ExpreslaneDegraded))
        } else if !due {
            (self, Ok(()))
        } else {
            (self.emit(Action::ShareExpresslaneKey), Ok(()))
        }
    }

    /// The connection once it has answered a configuration of the peer and
    /// made sure that the peer gets one in turn.
    pub open spec fn acknowledging(self, config: ExpresslaneConfig, due: bool) -> Self {
        self.tries_to_send(
            Frame::ExpresslaneConfig(
                ExpresslaneConfig {
                    ack: true,
                    version: self.core.expresslane.version,
                    ..config
                },
            ),
        ).rotating_key(due).0
    }

    /// The connection once it speaks the version that its cipher accepted.
    pub open spec fn with_negotiated(
        self,
        negotiated: ExpresslaneVersion,
        accepted: bool,
    ) -> Self {
        if accepted {
            self.with_expresslane(
                Expresslane { version: negotiated, ..self.core.expresslane },
            )
        } else {
            self
        }
    }

    /// The connection once the peer has acknowledged the configuration of
    /// this number: only the latest one counts.
    pub open spec fn acknowledged(self, counter: u64) -> Self {
        if counter == self.core.expresslane.config_counter {
            self.emit(Action::PromoteSelfKey)
        } else {
            self
        }
    }

    /// The connection once the peer has offered a key, or withdrawn it. The
    /// first offer wakes a waiting server; a degraded expresslane ignores it.
    pub open spec fn offered(self, config: ExpresslaneConfig, due: bool) -> Self {
        if self.core.expresslane.state is Degraded {
            self
        } else {
            let awake = if self.core.expresslane.state is WaitingForClient {
                self.expresslane_moved_to(ExpresslaneState::Inactive)
            } else {
                self
            };
            if config.enabled {
                awake.emit(Action::InstallPeerKey(config))
            } else {
                awake.expresslane_moved_to(ExpresslaneState::Inactive).acknowledging(config, due)
            }
        }
    }

    /// The connection once a configuration of the peer has come.
    pub open spec fn receiving_config(
        self,
        config: ExpresslaneConfig,
        negotiated: ExpresslaneVersion,
        accepted: bool,
        due: bool,
    ) -> Step<AppState> {
        if self.core.state !is Online {
            (self, Err(ConnectionError::InvalidState))
        } else {
            let versed = self.with_negotiated(negotiated, accepted);
            if config.ack {
                (versed.acknowledged(config.counter), Ok(()))
            } else {
                (versed.offered(config, due), Ok(()))
            }
        }
    }

    /// The connection once its cipher encrypts with the key that the peer
    /// acknowledged.
    pub open spec fn key_promoted(self, self_key: ExpresslaneKey, has_valid_keys: bool) -> Self {
        let published = self.with_expresslane(
            Expresslane { self_key, has_valid_keys, retransmit_count: 0, ..self.core.expresslane },
        ).publishing_keys();
        if published.core.expresslane.state !is Degraded && has_valid_keys {
            published.expresslane_moved_to(ExpresslaneState::Active)
        } else {
            published
        }
    }

    /// The connection once its cipher has tried to install the key of the
    /// peer. `installed` tells whether it has keys for both directions now. A
    /// degraded expresslane has no use for it.
    pub open spec fn peer_key_installed(
        self,
        config: ExpresslaneConfig,
        installed: Result<bool, ExpresslaneError>,
        due: bool,
    ) -> Step<AppState> {
        match installed {
            Err(error) => (self, Err(ConnectionError::ExpresslaneError(error))),
            Ok(has_valid_keys) => if self.core.expresslane.state is Degraded {
                (self, Ok(()))
            } else {
                let published = self.with_expresslane(
                    Expresslane {
                        peer_key: config.key,
                        has_valid_keys,
                        ..self.core.expresslane
                    },
                ).publishing_keys();
                let settled = if has_valid_keys {
                    published.expresslane_moved_to(ExpresslaneState::Active)
                } else {
                    published
                };
                (settled.acknowledging(config, due), Ok(()))
            },
        }
    }

    /// The connection once the time to repeat `config` has come.
    pub open spec fn repeating_config(self, config: ExpresslaneConfig) -> Step<AppState> {
        let expresslane = self.core.expresslane;
        if self.core.state !is Online {
            (self, Err(ConnectionError::InvalidState))
        } else if !self.core.spec_expresslane_supported() {
            (self, Err(ConnectionError::InvalidConnectionType))
        } else if config.counter != expresslane.config_counter || config.key
            == expresslane.self_key {
            (self, Ok(()))
        } else if expresslane.retransmit_count >= MAX_RETRANSMISSION_ATTEMPTS {
            if expresslane.state is Degraded {
                (self, Ok(()))
            } else {
                let inactive = self.expresslane_moved_to(ExpresslaneState::Inactive);
                (
                    inactive.with_expresslane(
                        Expresslane { last_key_rotation: None, ..inactive.core.expresslane },
                    ),
                    Ok(()),
                )
            }
        } else {
            let count = (expresslane.retransmit_count + 1) as u8;
            (
                self.with_expresslane(
                    Expresslane { retransmit_count: count, ..expresslane },
                ).emit(
                    Action::ScheduleTick {
                        delay: TickDelay::ExpresslaneRetransmit(count),
                        tick: TickType::ExpresslaneKeyShareTick(ExpresslaneTickData(config)),
                    },
                ).sends(Frame::ExpresslaneConfig(config)),
                Ok(()),
            )
        }
    }
}

impl<AppState> Connection<AppState> {
    /// Set the expresslane state and emit the event if the state has changed.
    pub(crate) fn set_expresslane_state(&mut self, new_state: ExpresslaneState)
        ensures
            final(self)@ == old(self)@.expresslane_moved_to(new_state),
    {
        if self.core.expresslane.state == new_state {
            return;
        }
        self.core.expresslane.state = new_state;
        self.event(Event::ExpresslaneStateChanged(new_state));
    }

    /// Tell the application the keys, if it wants to know them.
    pub(crate) fn publish_expresslane_key(&mut self)
        ensures
            final(self)@ == old(self)@.publishing_keys(),
    {
        if self.core.expresslane.publishes_keys {
            let session_id = self.core.session_id;
            let self_key = self.core.expresslane.self_key;
            let peer_key = self.core.expresslane.peer_key;
            let version = self.core.expresslane.version;
            self.emit(Action::PublishExpresslaneKey { session_id, self_key, peer_key, version });
        }
    }

    /// Send a configuration for the given key and arrange to repeat it.
    fn share_config(&mut self, enabled: bool, key: ExpresslaneKey, rotated: Option<Instant>)
        ensures
            final(self)@ == old(self)@.sharing(old(self)@.next_config(enabled, key), rotated),
    {
        let config = ExpresslaneConfig {
            enabled,
            key,
            version: self.core.expresslane.outgoing_version(),
            ack: false,
            counter: self.core.expresslane.config_counter.wrapping_add(1),
        };
        self.core.expresslane.config_counter = config.counter;
        self.core.expresslane.last_key_rotation = rotated;
        self.core.expresslane.retransmit_count = 0;
        self.try_send(Frame::ExpresslaneConfig(config));
        self.emit(
            Action::ScheduleTick {
                delay: TickDelay::ExpresslaneRetransmit(0),
                tick: TickType::ExpresslaneKeyShareTick(ExpresslaneTickData(config)),
            },
        );
    }

    /// Mark expresslane as [Degraded](ExpresslaneState::Degraded) and notify
    /// the peer to also disable
    pub(crate) fn set_expresslane_degraded(&mut self)
        ensures
            final(self)@ == old(self)@.degraded(),
    {
        self.set_expresslane_state(ExpresslaneState::Degraded);
        self.emit(Action::InvalidateNextSelfKey);
        let rotated = self.core.expresslane.last_key_rotation;
        self.share_config(false, ExpresslaneKey::invalid(), rotated);
    }

    /// Rotate expresslane key, if the time for it has come.
    pub fn rotate_expresslane_key(&mut self, due: bool) -> (r: ConnectionResult<()>)
        ensures
            (final(self)@, r) == old(self)@.rotating_key(due),
    {
        if !self.core.expresslane_supported() {
            return Ok(());
        }
        // Don't allow key rotation if expresslane is degraded

        if matches!(self.core.expresslane.state, ExpresslaneState::Degraded) {
            return Err(ConnectionError::ExpreslaneDegraded);
        }
        if !due {
            return Ok(());
        }
        self.emit(Action::ShareExpresslaneKey);
        Ok(())
    }

    /// Draw a key to share. Which one is left to chance.
    pub fn next_expresslane_key(&mut self) -> (key: ExpresslaneKey)
        ensures
            final(self)@ == old(self)@,
    {
        sample_key(&mut self.rng)
    }

    /// The cipher has taken `key` as the next key to encrypt with, or has
    /// failed to. It is not used to encrypt until the peer acknowledges it.
    pub fn expresslane_key_installed(&mut self, key: ExpresslaneKey, enabled: bool, now: Instant)
        ensures
            final(self)@ == old(self)@.sharing(old(self)@.next_config(enabled, key), Some(now)),
    {
        self.share_config(enabled, key, Some(now));
    }

    /// Whether the cipher should be asked to move to another version before
    /// a configuration is handled.
    pub fn expresslane_version_changes(&self, negotiated: ExpresslaneVersion) -> (changes: bool)
        ensures
            changes == (self.core.state is Online && negotiated != self.core.expresslane.version),
    {
        matches!(self.core.state, State::Online) && negotiated != self.core.expresslane.version
    }

    /// Answer the peer's configuration and share a key of this side.
    fn acknowledge_config(&mut self, config: ExpresslaneConfig, due: bool)
        ensures
            final(self)@ == old(self)@.acknowledging(config, due),
    {
        let version = self.core.expresslane.version;
        self.try_send(
            Frame::ExpresslaneConfig(ExpresslaneConfig { ack: true, version, ..config }),
        );
        let _ = self.rotate_expresslane_key(due);
    }

    /// Handle a configuration of the peer. `negotiated` is the version that
    /// results from the one it names, and `accepted` whether the cipher moved
    /// to it (see [`Connection::expresslane_version_changes`]).
    pub fn handle_expresslane_config(
        &mut self,
        config: ExpresslaneConfig,
        negotiated: ExpresslaneVersion,
        accepted: bool,
        due: bool,
    ) -> (r: ConnectionResult<()>)
        ensures
            (final(self)@, r) == old(self)@.receiving_config(config, negotiated, accepted, due),
    {
        if !matches!(self.core.state, State::Online) {
            return Err(ConnectionError::InvalidState);
        }
        if accepted {
            self.core.expresslane.version = negotiated;
        }
        assert(self@ == old(self)@.with_negotiated(negotiated, accepted));
        if config.ack {
            self.config_acknowledged(config.counter);
        } else {
            self.config_offered(config, due);
        }
        Ok(())
    }

    /// The peer has acknowledged a configuration.
    fn config_acknowledged(&mut self, counter: u64)
        ensures
            final(self)@ == old(self)@.acknowledged(counter),
    {
        if counter == self.core.expresslane.config_counter {
            // Peer acknowledged, can update local key now
            self.emit(Action::PromoteSelfKey);
        }
    }

    /// The peer has offered a key, or withdrawn it.
    fn config_offered(&mut self, config: ExpresslaneConfig, due: bool)
        ensures
            final(self)@ == old(self)@.offered(config, due),
    {
        // Not to be undone once the expresslane is degraded. This also
        // bypasses the answer, since the peer should not enable it either.
        if matches!(self.core.expresslane.state, ExpresslaneState::Degraded) {
            return;
        }
        // The client's first configuration wakes a waiting server.

        if matches!(self.core.expresslane.state, ExpresslaneState::WaitingForClient) {
            self.set_expresslane_state(ExpresslaneState::Inactive);
        }
        if config.enabled {
            self.emit(Action::InstallPeerKey(config));
        } else {
            self.set_expresslane_state(ExpresslaneState::Inactive);
            self.acknowledge_config(config, due);
        }
    }

    /// The cipher now encrypts with `self_key`, and `has_valid_keys` tells
    /// whether it has keys for both directions.
    pub fn expresslane_key_promoted(&mut self, self_key: ExpresslaneKey, has_valid_keys: bool)
        ensures
            final(self)@ == old(self)@.key_promoted(self_key, has_valid_keys),
    {
        self.core.expresslane.self_key = self_key;
        self.core.expresslane.has_valid_keys = has_valid_keys;
        self.core.expresslane.retransmit_count = 0;
        self.publish_expresslane_key();
        // A degraded expresslane is not brought back: what the peer then
        // acknowledged is the absence of a key.
        if !matches!(self.core.expresslane.state, ExpresslaneState::Degraded) && has_valid_keys {
            self.set_expresslane_state(ExpresslaneState::Active);
        }
    }

    /// The cipher has tried to install the peer's key of `config`. If that
    /// succeeded, `installed` tells whether it has keys for both directions.
    pub fn expresslane_peer_key_installed(
        &mut self,
        config: ExpresslaneConfig,
        installed: Result<bool, ExpresslaneError>,
        due: bool,
    ) -> (r: ConnectionResult<()>)
        ensures
            (final(self)@, r) == old(self)@.peer_key_installed(config, installed, due),
    {
        let has_valid_keys = match installed {
            Ok(has_valid_keys) => has_valid_keys,
            Err(error) => return Err(ConnectionError::ExpresslaneError(error)),
        };
        if matches!(self.core.expresslane.state, ExpresslaneState::Degraded) {
            return Ok(());
        }
        self.core.expresslane.peer_key = config.key;
        self.core.expresslane.has_valid_keys = has_valid_keys;
        self.publish_expresslane_key();
        if has_valid_keys {
            self.set_expresslane_state(ExpresslaneState::Active);
        }
        self.acknowledge_config(config, due);
        Ok(())
    }

    /// Attempts to retransmit the currently pending expresslane config packet
    pub fn expresslane_key_share_tick(
        &mut self,
        last_config: ExpresslaneTickData,
    ) -> (r: ConnectionResult<()>)
        ensures
            (final(self)@, r) == old(self)@.repeating_config(last_config.0),
    {
        if !matches!(self.core.state, State::Online) {
            return Err(ConnectionError::InvalidState);
        }
        if !self.core.expresslane_supported() {
            return Err(ConnectionError::InvalidConnectionType);
        }
        let last_config = last_config.0;
        // Ignore retransmit calls for the stale (previous) requests.
        if last_config.counter != self.core.expresslane.config_counter {
            return Ok(());
        }
        // If self key is equal to last retransmit key, it means peer has
        // already acknowledged. We can ignore the tick

        if last_config.key == self.core.expresslane.self_key {
            return Ok(());
        }
        if self.core.expresslane.retransmit_count >= MAX_RETRANSMISSION_ATTEMPTS {
            // Degraded is terminal for the session; an unacked degrade notice
            // lands here too and must not undo it.
            if matches!(self.core.expresslane.state, ExpresslaneState::Degraded) {
                return Ok(());
            }
            self.set_expresslane_state(ExpresslaneState::Inactive);
            // The stamp was taken before the outcome was known. Drop it so
            // recovery does not wait a whole rotation interval.
            self.core.expresslane.last_key_rotation = None;
            return Ok(());
        }
        let count: u8 = self.core.expresslane.retransmit_count + 1;
        self.core.expresslane.retransmit_count = count;
        self.emit(
            Action::ScheduleTick {
                delay: TickDelay::ExpresslaneRetransmit(count),
                tick: TickType::ExpresslaneKeyShareTick(ExpresslaneTickData(last_config)),
            },
        );
        self.send(Frame::ExpresslaneConfig(last_config));
        Ok(())
    }
}

/// The connection after the tick for `config` has fired `times` in a row, with
/// nothing else happening.
pub open spec fn share_ticks<AppState>(
    conn: ConnectionView<AppState>,
    config: ExpresslaneConfig,
    times: nat,
) -> ConnectionView<AppState>
    decreases times,
{
    if times == 0 {
        conn
    } else {
        share_ticks(conn, config, (times - 1) as nat).repeating_config(config).0
    }
}

/// A configuration that the peer never acknowledges is repeated a fixed number
/// of times. Then the expresslane is taken to be inactive, and the next key is
/// due without waiting for the end of the rotation interval.
pub proof fn configurations_are_given_up<AppState>(
    conn: ConnectionView<AppState>,
    config: ExpresslaneConfig,
    times: nat,
)
    requires
        conn.core.state is Online,
        conn.core.spec_expresslane_supported(),
        conn.core.expresslane.state !is Degraded,
        conn.core.expresslane.retransmit_count == 0,
        config.counter == conn.core.expresslane.config_counter,
        config.key != conn.core.expresslane.self_key,
    ensures
        ({
            let after = share_ticks(conn, config, times).core.expresslane;
            if times <= MAX_RETRANSMISSION_ATTEMPTS {
                &&& after.retransmit_count == times
                &&& after.state == conn.core.expresslane.state
            } else {
                &&& after.state is Inactive
                &&& after.last_key_rotation is None
            }
        }),
{
    share_ticks_count(conn, config, times);
}

/// What a row of ticks for a configuration leaves unchanged, and what it
/// counts.
proof fn share_ticks_count<AppState>(
    conn: ConnectionView<AppState>,
    config: ExpresslaneConfig,
    times: nat,
)
    requires
        conn.core.state is Online,
        conn.core.spec_expresslane_supported(),
        conn.core.expresslane.state !is Degraded,
        conn.core.expresslane.retransmit_count == 0,
        config.counter == conn.core.expresslane.config_counter,
        config.key != conn.core.expresslane.self_key,
    ensures
        ({
            let after = share_ticks(conn, config, times).core;
            let lane = after.expresslane;
            &&& after == (Core { expresslane: lane, ..conn.core })
            &&& lane.config_counter == conn.core.expresslane.config_counter
            &&& lane.self_key == conn.core.expresslane.self_key
            &&& if times <= MAX_RETRANSMISSION_ATTEMPTS {
                &&& lane.retransmit_count == times
                &&& lane.state == conn.core.expresslane.state
            } else {
                &&& lane.retransmit_count == MAX_RETRANSMISSION_ATTEMPTS
                &&& lane.state is Inactive
                &&& lane.last_key_rotation is None
            }
        }),
    decreases times,
{
    if times > 0 {
        share_ticks_count(conn, config, (times - 1) as nat);
    }
}

/// Once the key that the peer acknowledged is in use and the cipher has keys
/// for both directions, an expresslane that was not given up is in use, and
/// the application hears of it if it was not before. Without keys for both
/// directions it stays as it is.
pub proof fn promoted_keys_bring_the_expresslane_into_use<AppState>(
    conn: ConnectionView<AppState>,
    self_key: ExpresslaneKey,
    has_valid_keys: bool,
)
    ensures
        ({
            let before = conn.core.expresslane;
            let after = conn.key_promoted(self_key, has_valid_keys);
            let lane = after.core.expresslane;
            let event = ActionView::Event(Event::ExpresslaneStateChanged(ExpresslaneState::Active));
            &&& lane.self_key == self_key && lane.has_valid_keys == has_valid_keys
            &&& lane.peer_key == before.peer_key && lane.version == before.version
            &&& lane.retransmit_count == 0 && lane.config_counter == before.config_counter
            &&& before.state !is Degraded && has_valid_keys ==> lane.state is Active
            &&& before.state is Degraded || !has_valid_keys ==> lane.state == before.state
            &&& before.state !is Active && before.state !is Degraded && has_valid_keys
                ==> after.actions.last() == event
            &&& before.state is Inactive && has_valid_keys && conn.core.connection_type is Datagram
                && conn.core.tunnel_protocol_version == (crate::wire::Version {
                major: 1,
                minor: 3,
            }) ==> after.core.spec_expresslane_ready()
        }),
{
}

/// The exchange of keys ends with an expresslane in use and the same keys in
/// whichever order the acknowledgement of the own key and the key of the peer
/// arrive. Whichever comes first leaves the cipher with keys for one direction
/// only.
pub proof fn key_exchange_ends_in_use<AppState>(
    conn: ConnectionView<AppState>,
    self_key: ExpresslaneKey,
    config: ExpresslaneConfig,
    due: bool,
)
    requires
        conn.core.spec_expresslane_supported(),
        conn.core.expresslane.state !is Degraded,
    ensures
        ({
            let acknowledged_first = conn.key_promoted(self_key, false).peer_key_installed(
                config,
                Ok(true),
                due,
            ).0.core;
            let offered_first = conn.peer_key_installed(config, Ok(false), due).0.key_promoted(
                self_key,
                true,
            ).core;
            &&& acknowledged_first.spec_expresslane_ready()
            &&& offered_first.spec_expresslane_ready()
            &&& acknowledged_first.expresslane.state is Active
            &&& offered_first.expresslane.state is Active
            &&& acknowledged_first.expresslane.self_key == self_key
            &&& offered_first.expresslane.self_key == self_key
            &&& acknowledged_first.expresslane.peer_key == config.key
            &&& offered_first.expresslane.peer_key == config.key
        }),
{
}

/// A key that the cipher takes is shared at once, under a number that was not
/// in use, and repeated until the peer acknowledges it: the configuration that
/// is sent is the one that the tick repeats.
pub proof fn shared_keys_are_sent_and_repeated<AppState>(
    conn: ConnectionView<AppState>,
    key: ExpresslaneKey,
    enabled: bool,
    now: Instant,
)
    ensures
        ({
            let config = conn.next_config(enabled, key);
            let after = conn.sharing(config, Some(now));
            let lane = after.core.expresslane;
            &&& config.key == key && config.enabled == enabled && !config.ack
            &&& config.counter != conn.core.expresslane.config_counter
            &&& conn.core.expresslane.config_counter < u64::MAX ==> config.counter
                == conn.core.expresslane.config_counter + 1
            &&& conn.core.expresslane.version is Known ==> config.version
                == conn.core.expresslane.version
            &&& conn.core.expresslane.version is Unknown ==> config.version
                == conn.core.expresslane.max_version
            &&& lane.config_counter == config.counter
            &&& lane.retransmit_count == 0
            &&& lane.last_key_rotation == Some(now)
            &&& lane.state == conn.core.expresslane.state
            &&& lane.self_key == conn.core.expresslane.self_key
            &&& lane.peer_key == conn.core.expresslane.peer_key
            &&& after.actions == conn.actions + seq![
                Action::Send { frame: Frame::ExpresslaneConfig(config), required: false },
                Action::ScheduleTick {
                    delay: TickDelay::ExpresslaneRetransmit(0),
                    tick: TickType::ExpresslaneKeyShareTick(ExpresslaneTickData(config)),
                },
            ]
        }),
{
    let config = conn.next_config(enabled, key);
    assert(conn.sharing(config, Some(now)).actions =~= conn.actions + seq![
        Action::Send { frame: Frame::ExpresslaneConfig(config), required: false },
        Action::ScheduleTick {
            delay: TickDelay::ExpresslaneRetransmit(0),
            tick: TickType::ExpresslaneKeyShareTick(ExpresslaneTickData(config)),
        },
    ]);
}

/// What one side shares the other acknowledges, and the acknowledgement makes
/// the first side use its key: the answer repeats the number, the key and
/// whether the expresslane is enabled. An acknowledgement of any other number
/// does nothing.
pub proof fn shared_keys_are_acknowledged<A, B>(
    sharer: ConnectionView<A>,
    receiver: ConnectionView<B>,
    key: ExpresslaneKey,
    now: Instant,
    has_valid_keys: bool,
    other: ExpresslaneConfig,
)
    requires
        sharer.core.state is Online,
        receiver.core.state is Online,
        receiver.core.expresslane.state !is Degraded,
    ensures
        ({
            let config = sharer.next_config(true, key);
            let shared = sharer.sharing(config, Some(now));
            let told = receiver.receiving_config(config, config.version, false, false);
            let installed = told.0.peer_key_installed(config, Ok(has_valid_keys), false);
            let answer = ExpresslaneConfig {
                ack: true,
                version: installed.0.core.expresslane.version,
                ..config
            };
            let heard = shared.receiving_config(answer, answer.version, false, false);
            &&& told.1 is Ok && told.0.actions.last() == ActionView::InstallPeerKey(config)
            &&& installed.1 is Ok && installed.0.core.expresslane.peer_key == key
            &&& installed.0.actions.last() == ActionView::Send {
                frame: Frame::ExpresslaneConfig(answer),
                required: false,
            }
            &&& heard.1 is Ok && heard.0.actions == shared.actions.push(Action::PromoteSelfKey)
            &&& other.ack && other.counter != config.counter ==> shared.receiving_config(
                other,
                other.version,
                false,
                false,
            ).0 == shared
        }),
{
}

/// A peer that withdraws its key takes the expresslane out of use, is answered
/// under the same number, and no key of it is installed. An expresslane that
/// waits for its client wakes with whatever the client shares first.
pub proof fn withdrawn_keys_take_the_expresslane_out_of_use<AppState>(
    conn: ConnectionView<AppState>,
    config: ExpresslaneConfig,
    negotiated: ExpresslaneVersion,
    accepted: bool,
)
    requires
        conn.core.state is Online,
        conn.core.expresslane.state !is Degraded,
        !config.ack,
    ensures
        ({
            let (after, r) = conn.receiving_config(config, negotiated, accepted, false);
            let lane = after.core.expresslane;
            &&& r is Ok
            &&& lane.version == (if accepted {
                negotiated
            } else {
                conn.core.expresslane.version
            })
            &&& lane.peer_key == conn.core.expresslane.peer_key
            &&& lane.state !is WaitingForClient
            &&& !config.enabled ==> {
                &&& lane.state is Inactive
                &&& !after.core.spec_expresslane_ready()
                &&& after.actions.last() == ActionView::Send {
                    frame: Frame::ExpresslaneConfig(
                        ExpresslaneConfig { ack: true, version: lane.version, ..config },
                    ),
                    required: false,
                }
            }
        }),
{
}

/// A configuration that is repeated is repeated as it was, and one that is no
/// longer the latest, or whose key is in use already, is not.
pub proof fn repeated_configurations_stay_the_same<AppState>(
    conn: ConnectionView<AppState>,
    config: ExpresslaneConfig,
)
    requires
        conn.core.state is Online,
        conn.core.spec_expresslane_supported(),
    ensures
        ({
            let lane = conn.core.expresslane;
            let (after, r) = conn.repeating_config(config);
            &&& r is Ok
            &&& config.counter != lane.config_counter || config.key == lane.self_key ==> after
                == conn
            &&& config.counter == lane.config_counter && config.key != lane.self_key
                && lane.retransmit_count < 5 ==> {
                &&& after.actions.last() == ActionView::Send {
                    frame: Frame::ExpresslaneConfig(config),
                    required: true,
                }
                &&& after.actions.contains(
                    Action::ScheduleTick {
                        delay: TickDelay::ExpresslaneRetransmit((lane.retransmit_count + 1) as u8),
                        tick: TickType::ExpresslaneKeyShareTick(ExpresslaneTickData(config)),
                    },
                )
                &&& after.core.expresslane.retransmit_count == lane.retransmit_count + 1
            }
            &&& config.counter == lane.config_counter && config.key != lane.self_key
                && lane.retransmit_count >= 5 ==> {
                &&& forall|i: int|
                    conn.actions.len() <= i < after.actions.len() ==> (#[trigger] after.actions[i])
                        !is Send && after.actions[i] !is ScheduleTick
                &&& lane.state is Degraded ==> after == conn
                &&& lane.state !is Degraded ==> after.core.expresslane.state is Inactive
                    && after.core.expresslane.last_key_rotation is None
            }
        }),
{
    let lane = conn.core.expresslane;
    let after = conn.repeating_config(config).0;
    if config.counter == lane.config_counter && config.key != lane.self_key
        && lane.retransmit_count < 5 {
        assert(after.actions[conn.actions.len() as int] == ActionView::ScheduleTick {
            delay: TickDelay::ExpresslaneRetransmit((lane.retransmit_count + 1) as u8),
            tick: TickType::ExpresslaneKeyShareTick(ExpresslaneTickData(config)),
        });
    }
}

/// An expresslane takes datagrams and at least protocol version 1.3 on both
/// sides; without them nothing goes over it and no key is ever shared. Where
/// it can be used and was not given up, a key is shared exactly when one is
/// due.
pub proof fn expresslane_has_its_conditions<AppState>(conn: ConnectionView<AppState>, due: bool)
    ensures
        ({
            let core = conn.core;
            let version = core.tunnel_protocol_version;
            let lane = core.expresslane;
            let possible = core.connection_type is Datagram && (version.major > 1 || (version.major
                == 1 && version.minor >= 3));
            let (after, r) = conn.rotating_key(due);
            &&& !possible ==> !core.spec_expresslane_supported() && !core.spec_expresslane_ready()
            &&& lane.state is Disabled || lane.state is WaitingForClient
                ==> !core.spec_expresslane_supported()
            &&& core.spec_expresslane_ready() <==> possible && lane.state is Active
                && lane.has_valid_keys
            &&& possible && (lane.state is Inactive || lane.state is Active) ==> r is Ok
                && after.actions == (if due {
                conn.actions.push(Action::ShareExpresslaneKey)
            } else {
                conn.actions
            })
            &&& !possible || lane.state is Degraded || lane.state is Disabled ==> after == conn
            &&& possible && lane.state is Degraded ==> r is Err
            &&& after.core == conn.core
        }),
{
}

/// An expresslane that is given up stays out of use, and the peer is told:
/// the key that was to be next is dropped, and what is shared in its place is
/// the absence of a key, under a new number.
pub proof fn giving_up_is_told_to_the_peer<AppState>(conn: ConnectionView<AppState>)
    ensures
        ({
            let after = conn.degraded();
            let lane = after.core.expresslane;
            let n = after.actions.len() as int;
            let notice = ExpresslaneConfig {
                enabled: false,
                key: ExpresslaneKey { upper: 0, lower: 0 },
                version: lane.spec_outgoing_version(),
                ack: false,
                counter: lane.config_counter,
            };
            &&& lane.state is Degraded
            &&& !after.core.spec_expresslane_ready()
            &&& lane.config_counter != conn.core.expresslane.config_counter
            &&& n >= conn.actions.len() + 3
            &&& after.actions[n - 3] == ActionView::InvalidateNextSelfKey
            &&& after.actions[n - 2] == ActionView::Send {
                frame: Frame::ExpresslaneConfig(notice),
                required: false,
            }
            &&& after.actions[n - 1] == ActionView::ScheduleTick {
                delay: TickDelay::ExpresslaneRetransmit(0),
                tick: TickType::ExpresslaneKeyShareTick(ExpresslaneTickData(notice)),
            }
            &&& conn.core.expresslane.state !is Degraded ==> after.actions[n - 4] == ActionView::Event(Event::ExpresslaneStateChanged(ExpresslaneState::Degraded))
        }),
{
}

/// An application that wants to know the keys is told both of them, with the
/// session and the version, as often as one of them changes; any other is not.
pub proof fn keys_are_published<AppState>(
    conn: ConnectionView<AppState>,
    self_key: ExpresslaneKey,
    config: ExpresslaneConfig,
    has_valid_keys: bool,
)
    requires
        conn.core.expresslane.state !is Degraded,
    ensures
        ({
            let lane = conn.core.expresslane;
            let promoted = conn.key_promoted(self_key, has_valid_keys).actions;
            let installed = conn.peer_key_installed(config, Ok(has_valid_keys), false).0.actions;
            let n = conn.actions.len() as int;
            if lane.publishes_keys {
                &&& promoted.len() > n && promoted[n] == ActionView::PublishExpresslaneKey {
                    session_id: conn.core.session_id,
                    self_key,
                    peer_key: lane.peer_key,
                    version: lane.version,
                }
                &&& installed.len() > n && installed[n] == ActionView::PublishExpresslaneKey {
                    session_id: conn.core.session_id,
                    self_key: lane.self_key,
                    peer_key: config.key,
                    version: lane.version,
                }
            } else {
                &&& forall|i: int|
                    n <= i < promoted.len() ==> (#[trigger] promoted[i]) !is PublishExpresslaneKey
                &&& forall|i: int|
                    n <= i < installed.len() ==> (#[trigger] installed[i]) !is PublishExpresslaneKey
            }
        }),
{
}

/// Whoever gets a key of the peer shares one of its own in turn, if one is
/// due, after it has answered.
pub proof fn keys_are_shared_in_turn<AppState>(
    conn: ConnectionView<AppState>,
    config: ExpresslaneConfig,
    has_valid_keys: bool,
)
    requires
        conn.core.spec_expresslane_supported(),
        conn.core.expresslane.state !is Degraded,
    ensures
        ({
            let quiet = conn.peer_key_installed(config, Ok(has_valid_keys), false).0;
            let sharing = conn.peer_key_installed(config, Ok(has_valid_keys), true).0;
            sharing == quiet.emit(ActionView::ShareExpresslaneKey)
        }),
{
}

/// A key that the cipher does not take is not used, nor is one that comes
/// after the expresslane was given up; the first is an error, the second is
/// not.
pub proof fn unusable_keys_are_not_used<AppState>(
    conn: ConnectionView<AppState>,
    config: ExpresslaneConfig,
    error: ExpresslaneError,
    has_valid_keys: bool,
    due: bool,
)
    ensures
        conn.peer_key_installed(config, Err(error), due) == (
            conn,
            Err::<(), _>(ConnectionError::ExpresslaneError(error)),
        ),
        conn.core.expresslane.state is Degraded ==> conn.peer_key_installed(
            config,
            Ok(has_valid_keys),
            due,
        ) == (conn, Ok::<(), ConnectionError>(())),
{
}

/// A key of the peer brings the expresslane into use exactly if it leaves the
/// cipher with keys for both directions.
pub proof fn peer_keys_bring_the_expresslane_into_use<AppState>(
    conn: ConnectionView<AppState>,
    config: ExpresslaneConfig,
    due: bool,
)
    requires
        conn.core.expresslane.state !is Degraded,
    ensures
        ({
            let half = conn.peer_key_installed(config, Ok(false), due).0.core.expresslane;
            let full = conn.peer_key_installed(config, Ok(true), due).0.core.expresslane;
            &&& full.state is Active && full.has_valid_keys && full.peer_key == config.key
            &&& half.state == conn.core.expresslane.state && !half.has_valid_keys
            &&& half.peer_key == config.key
            &&& full.self_key == conn.core.expresslane.self_key
        }),
{
}

/// Configurations are for online connections, and repeating them for those
/// that can use an expresslane. The version that the cipher moved to with one
/// is the one spoken from then on, whatever else the configuration says.
pub proof fn configurations_have_their_place<AppState>(
    conn: ConnectionView<AppState>,
    config: ExpresslaneConfig,
    negotiated: ExpresslaneVersion,
    accepted: bool,
    due: bool,
)
    ensures
        conn.core.state !is Online ==> conn.receiving_config(config, negotiated, accepted, due) == (
            conn,
            Err::<(), _>(ConnectionError::InvalidState),
        ),
        conn.core.state is Online ==> conn.receiving_config(
            config,
            negotiated,
            accepted,
            due,
        ).0.core.expresslane.version == (if accepted {
            negotiated
        } else {
            conn.core.expresslane.version
        }),
        conn.core.state !is Online ==> conn.repeating_config(config) == (
            conn,
            Err::<(), _>(ConnectionError::InvalidState),
        ),
        conn.core.state is Online && !conn.core.spec_expresslane_supported()
            ==> conn.repeating_config(config) == (
            conn,
            Err::<(), _>(ConnectionError::InvalidConnectionType),
        ),
{
}

/// The application hears of every change of the expresslane, and only of
/// changes.
pub proof fn expresslane_changes_are_told<AppState>(
    conn: ConnectionView<AppState>,
    state: ExpresslaneState,
)
    ensures
        ({
            let after = conn.expresslane_moved_to(state);
            &&& after.core.expresslane == (Expresslane { state, ..conn.core.expresslane })
            &&& conn.core.expresslane.state == state ==> after == conn
            &&& conn.core.expresslane.state != state ==> after.actions == conn.actions.push(
                ActionView::Event(Event::ExpresslaneStateChanged(state)),
            )
        }),
{
}

} // verus!
