//! The per-connection protocol state machine.
//!
//! One `Connection` accompanies one announcing game server for the life of
//! its transport connection. It starts waiting for the single handshake
//! message, becomes active when the handshake registers a record, applies
//! status updates to that record while active, and on close or error
//! removes the record — whatever path led there, so no record outlives its
//! connection. The transport itself stays outside: the surrounding loop
//! reads frames, hands them in as events, and stops once the connection is
//! terminated.

use vstd::prelude::*;
use crate::codec::{
    GameMessage, connect_decodable, handshake_record_matches, parse_connect_message,
    parse_game_message, spec_players, status_decodable,
};
use crate::ip::IpAddress;
use crate::record::GameServer;
use crate::registry::{ServerList, spec_has_id};

verus! {

/// Where a connection stands: waiting for its handshake, active with an
/// assigned record identifier, or terminated.
#[derive(Clone, Copy, Debug, PartialEq, Eq, Structural)]
pub enum Phase {
    AwaitingHandshake,
    Active { id: u128 },
    Terminated,
}

/// One inbound occurrence on the connection, as the transport reports it:
/// a text frame with its payload, a close frame, any other kind of frame,
/// a transport error, or the end of the stream.
#[derive(Debug)]
pub enum InboundEvent {
    Text { payload: String },
    CloseFrame,
    OtherFrame,
    TransportError,
    StreamEnded,
}

/// What one step did, for the caller to log and to feed its counters.
#[derive(Debug, PartialEq)]
pub enum StepEffect {
    /// The handshake succeeded: a record is registered under `id`.
    Registered { id: u128 },
    /// The handshake payload matched no variant; `error` carries the raw
    /// payload. The connection is terminated and no record was created.
    HandshakeRejected { error: String },
    /// The connection ended, or sent a frame other than text, before any
    /// handshake; no record was ever created.
    EndedBeforeHandshake,
    /// A status update was applied to the connection's record.
    PlayersUpdated { before: u32, after: u32 },
    /// A status payload was dropped: it matched no variant, or the record
    /// was not there. The connection stays active.
    StatusIgnored,
    /// A frame other than text or close arrived while active; ignored.
    FrameIgnored,
    /// The connection ended while active: its record was removed. An
    /// absent record is an anomaly worth reporting, not an error.
    Deregistered { removed: Option<GameServer> },
    /// A step after termination; nothing happens.
    AlreadyTerminated,
}

/// The state machine of one connection.
pub struct Connection {
    phase: Phase,
    ip: IpAddress,
    server_ip: IpAddress,
}

impl Connection {
    /// Where the connection stands.
    pub closed spec fn phase(self) -> Phase {
        self.phase
    }

    /// The reported address the connection came from.
    pub closed spec fn ip(self) -> IpAddress {
        self.ip
    }

    /// The registry service's own public address.
    pub closed spec fn server_ip(self) -> IpAddress {
        self.server_ip
    }

    /// A fresh connection, waiting for its handshake. `ip` is the address
    /// the connection reports coming from, `server_ip` the registry's own
    /// public address.
    pub fn new(ip: IpAddress, server_ip: IpAddress) -> (c: Connection)
        ensures
            c.phase() is AwaitingHandshake,
            c.ip() == ip,
            c.server_ip() == server_ip,
    {
        Connection { phase: Phase::AwaitingHandshake, ip, server_ip }
    }

    /// Whether the connection is terminated, so the caller's loop ends.
    pub fn is_terminated(&self) -> (r: bool)
        ensures
            r == (self.phase() is Terminated),
    {
        match self.phase {
            Phase::Terminated => true,
            _ => false,
        }
    }

    /// Feed one inbound event through the state machine, mutating the
    /// registry as the protocol demands.
    pub fn step(&mut self, list: &mut ServerList, event: InboundEvent) -> (eff: StepEffect)
        requires
            old(list).wf(),
        ensures
            final(list).wf(),
            final(self).ip() == old(self).ip(),
            final(self).server_ip() == old(self).server_ip(),
            // A decodable handshake registers a fresh record and activates.
            old(self).phase() is AwaitingHandshake && event is Text && connect_decodable(
                event->payload@,
            ) ==> (eff is Registered && final(self).phase() == (Phase::Active { id: eff->id })
                && !spec_has_id(old(list)@, eff->id) && final(list)@.len() == old(list)@.len() + 1
                && final(list)@ == old(list)@.push((eff->id, final(list)@.last().1))
                && handshake_record_matches(
                final(list)@.last().1,
                event->payload@,
                old(self).ip(),
                old(self).server_ip(),
            )),
            // An undecodable handshake terminates; no record is created.
            old(self).phase() is AwaitingHandshake && event is Text && !connect_decodable(
                event->payload@,
            ) ==> (final(self).phase() is Terminated && final(list)@ == old(list)@ && eff
                is HandshakeRejected && eff->error@ == event->payload@),
            // Anything but text before the handshake terminates.
            old(self).phase() is AwaitingHandshake && !(event is Text) ==> (final(self).phase() is Terminated && final(list)@ == old(list)@ && eff is EndedBeforeHandshake),
            // A decodable status update rewrites the record's player count.
            old(self).phase() is Active && event is Text && status_decodable(event->payload@)
                && spec_has_id(old(list)@, old(self).phase()->id) ==> (final(self).phase() == old(self).phase() && (exists|i: int|
                0 <= i < old(list)@.len() && (#[trigger] old(list)@[i]).0 == old(self).phase()->id
                    && eff == (StepEffect::PlayersUpdated {
                    before: old(list)@[i].1.players,
                    after: spec_players(event->payload@),
                }) && final(list)@ == old(list)@.update(
                    i,
                    (
                        old(self).phase()->id,
                        (GameServer {
                            players: spec_players(event->payload@),
                            ..old(list)@[i].1
                        }),
                    ),
                ))),
            // A status update for a record that is not there is dropped.
            old(self).phase() is Active && event is Text && status_decodable(event->payload@)
                && !spec_has_id(old(list)@, old(self).phase()->id) ==> (final(self).phase() == old(self).phase() && final(list)@ == old(list)@ && eff is StatusIgnored),
            // An undecodable status payload is dropped; the session goes on.
            old(self).phase() is Active && event is Text && !status_decodable(event->payload@)
                ==> (final(self).phase() == old(self).phase() && final(list)@ == old(list)@ && eff
                is StatusIgnored),
            // Other frames are ignored while active.
            old(self).phase() is Active && event is OtherFrame ==> (final(self).phase() == old(self).phase() && final(list)@ == old(list)@ && eff is FrameIgnored),
            // Close, error or end of stream while active: terminate and
            // remove the record; afterwards the identifier is gone.
            old(self).phase() is Active && (event is CloseFrame || event is TransportError || event
                is StreamEnded) ==> (final(self).phase() is Terminated && !spec_has_id(
                final(list)@,
                old(self).phase()->id,
            ) && eff is Deregistered && (eff->removed is Some <==> spec_has_id(
                old(list)@,
                old(self).phase()->id,
            )) && (spec_has_id(old(list)@, old(self).phase()->id) ==> (exists|i: int|
                0 <= i < old(list)@.len() && (#[trigger] old(list)@[i]).0 == old(self).phase()->id
                    && eff->removed == Some(old(list)@[i].1) && final(list)@ == old(list)@.remove(i))) && (!spec_has_id(old(list)@, old(self).phase()->id) ==> final(list)@ == old(list)@)),
            // Steps after termination do nothing.
            old(self).phase() is Terminated ==> (final(self).phase() is Terminated && final(list)@
                == old(list)@ && eff is AlreadyTerminated),
    {
        let ph = self.phase;
        match ph {
            Phase::AwaitingHandshake => match event {
                InboundEvent::Text { payload } => {
                    match parse_connect_message(payload, self.ip, self.server_ip) {
                        Ok(server) => {
                            let id = list.add(server);
                            self.phase = Phase::Active { id };
                            StepEffect::Registered { id }
                        },
                        Err(error) => {
                            self.phase = Phase::Terminated;
                            StepEffect::HandshakeRejected { error }
                        },
                    }
                },
                _ => {
                    self.phase = Phase::Terminated;
                    StepEffect::EndedBeforeHandshake
                },
            },
            Phase::Active { id } => match event {
                InboundEvent::Text { payload } => {
                    match parse_game_message(payload.as_str()) {
                        Some(GameMessage::Status { players }) => {
                            match list.set_players(&id, players) {
                                Some(before) => StepEffect::PlayersUpdated {
                                    before,
                                    after: players,
                                },
                                None => StepEffect::StatusIgnored,
                            }
                        },
                        None => StepEffect::StatusIgnored,
                    }
                },
                InboundEvent::OtherFrame => StepEffect::FrameIgnored,
                _ => {
                    self.phase = Phase::Terminated;
                    let removed = list.remove(&id);
                    StepEffect::Deregistered { removed }
                },
            },
            Phase::Terminated => StepEffect::AlreadyTerminated,
        }
    }
}

} // verus!
