//! The record one announced game server leaves in the registry.

use vstd::prelude::*;
use crate::ip::IpAddress;

verus! {

/// One announced game server. Everything but `players` is fixed at the
/// handshake; `players` is rewritten by each status update.
#[derive(Debug, PartialEq)]
pub struct GameServer {
    pub name: String,
    pub ip: IpAddress,
    pub tls: bool,
    pub port: u16,
    pub official: bool,
    pub players: u32,
}

impl GameServer {
    /// A fresh record with the given fixed fields and no players yet.
    pub fn new(name: String, ip: IpAddress, tls: bool, port: u16, official: bool) -> (r:
        GameServer)
        ensures
            r.name == name,
            r.ip == ip,
            r.tls == tls,
            r.port == port,
            r.official == official,
            r.players == 0,
    {
        GameServer { name, ip, tls, port, official, players: 0 }
    }

    /// The same record with the player count replaced.
    pub fn with_players(self, players: u32) -> (r: GameServer)
        ensures
            r == (GameServer { players, ..self }),
    {
        GameServer { players, ..self }
    }
}

impl Clone for GameServer {
    /// A clone is equal to the original, field for field.
    fn clone(&self) -> (res: Self)
        ensures
            res == *self,
    {
        GameServer {
            name: self.name.clone(),
            ip: self.ip,
            tls: self.tls,
            port: self.port,
            official: self.official,
            players: self.players,
        }
    }
}

} // verus!
