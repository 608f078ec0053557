//! The codec for the two client-originated payloads.
//!
//! A handshake payload comes in one of two structural variants that share
//! their fields: the extended `{name, port, tls}` and the minimal
//! `{name, port}`. There is no version tag; the extended variant is tried
//! first, so a payload that carries a usable `tls` field is always read as
//! extended, whatever the order of its keys. A status payload has the
//! single shape `{players}`.

use vstd::prelude::*;
use crate::ip::{IpAddress, spec_is_local};
use crate::json::{
    JsonAtom, json_as_bool, json_as_string, json_as_u64, json_doc, json_from_str, json_get,
};
use crate::record::GameServer;

verus! {

/// A decoded handshake message. The extended variant `V2` carries the
/// transport-security flag; the minimal `V1` does not and stands for an
/// insecure transport.
#[derive(Debug, PartialEq)]
pub enum ConnectMessage {
    V2 { name: String, port: u16, tls: bool },
    V1 { name: String, port: u16 },
}

/// A decoded status message.
#[derive(Debug, PartialEq)]
pub enum GameMessage {
    Status { players: u32 },
}

/// The document holds `key` as a string.
pub open spec fn has_text(m: Map<Seq<char>, JsonAtom>, key: Seq<char>) -> bool {
    m.contains_key(key) && m[key] is Text
}

/// The characters of the string at `key`.
pub open spec fn text_of(m: Map<Seq<char>, JsonAtom>, key: Seq<char>) -> Seq<char>
    recommends
        has_text(m, key),
{
    m[key]->chars
}

/// The document holds `key` as an unsigned integer in the range of `u64`.
pub open spec fn has_uint(m: Map<Seq<char>, JsonAtom>, key: Seq<char>) -> bool {
    m.contains_key(key) && m[key] is Uint
}

/// The integer at `key`.
pub open spec fn uint_of(m: Map<Seq<char>, JsonAtom>, key: Seq<char>) -> u64
    recommends
        has_uint(m, key),
{
    m[key]->n
}

/// The document holds `key` as a boolean.
pub open spec fn has_bool(m: Map<Seq<char>, JsonAtom>, key: Seq<char>) -> bool {
    m.contains_key(key) && m[key] is Boolean
}

/// The boolean at `key`.
pub open spec fn bool_of(m: Map<Seq<char>, JsonAtom>, key: Seq<char>) -> bool
    recommends
        has_bool(m, key),
{
    m[key]->b
}

/// A document decodes as a handshake when it holds a string `name` and a
/// `port` that fits 16 bits; both variants need exactly these.
pub open spec fn handshake_fields_ok(m: Map<Seq<char>, JsonAtom>) -> bool {
    &&& has_text(m, "name"@)
    &&& has_uint(m, "port"@)
    &&& uint_of(m, "port"@) <= 65535
}

/// The text decodes as a handshake message.
pub open spec fn connect_decodable(s: Seq<char>) -> bool {
    json_doc(s) matches Some(m) && handshake_fields_ok(m)
}

/// What the decoded handshake message must look like for the document `m`:
/// the extended variant exactly when a boolean `tls` is there, the minimal
/// variant otherwise, both carrying the document's `name` and `port`.
pub open spec fn connect_message_matches(msg: ConnectMessage, m: Map<Seq<char>, JsonAtom>) -> bool {
    if has_bool(m, "tls"@) {
        msg matches ConnectMessage::V2 { name, port, tls } && name@ == text_of(m, "name"@) && port
            == uint_of(m, "port"@) && tls == bool_of(m, "tls"@)
    } else {
        msg matches ConnectMessage::V1 { name, port } && name@ == text_of(m, "name"@) && port
            == uint_of(m, "port"@)
    }
}

/// The transport-security flag the handshake yields: `tls` where the
/// extended variant carries it, false for the minimal variant.
pub open spec fn spec_handshake_tls(m: Map<Seq<char>, JsonAtom>) -> bool {
    has_bool(m, "tls"@) && bool_of(m, "tls"@)
}

/// The text decodes as a status message: a `players` count that fits
/// 32 bits.
pub open spec fn status_decodable(s: Seq<char>) -> bool {
    json_doc(s) matches Some(m) && has_uint(m, "players"@) && uint_of(m, "players"@) <= u32::MAX
}

/// The player count a status message carries.
pub open spec fn spec_players(s: Seq<char>) -> u32
    recommends
        status_decodable(s),
{
    (uint_of(json_doc(s)->0, "players"@) as u32)
}

/// Decode a handshake payload, extended variant first.
pub fn decode_connect(txt: &str) -> (r: Option<ConnectMessage>)
    ensures
        r is Some <==> connect_decodable(txt@),
        r matches Some(msg) ==> connect_message_matches(msg, json_doc(txt@)->0),
{
    let v = match json_from_str(txt) {
        Some(v) => v,
        None => {
            return None;
        },
    };
    let name = match json_get(&v, "name") {
        Some(f) => match json_as_string(f) {
            Some(s) => s,
            None => {
                return None;
            },
        },
        None => {
            return None;
        },
    };
    let port64 = match json_get(&v, "port") {
        Some(f) => match json_as_u64(f) {
            Some(n) => n,
            None => {
                return None;
            },
        },
        None => {
            return None;
        },
    };
    if port64 > 65535 {
        return None;
    }
    let port = port64 as u16;
    let tls_field = match json_get(&v, "tls") {
        Some(f) => json_as_bool(f),
        None => None,
    };
    match tls_field {
        Some(tls) => Some(ConnectMessage::V2 { name, port, tls }),
        None => Some(ConnectMessage::V1 { name, port }),
    }
}

/// Law: decode precedence. A handshake document that carries a usable
/// `tls` field always yields the extended variant, never the minimal one;
/// key order plays no part, since a document's fields are a map.
pub proof fn lemma_connect_precedence(msg: ConnectMessage, m: Map<Seq<char>, JsonAtom>)
    requires
        connect_message_matches(msg, m),
        has_bool(m, "tls"@),
    ensures
        msg is V2,
{
}

/// How the record a successful handshake leaves relates to the payload and
/// the two addresses: a connection from a local address is co-located with
/// the registry, so its record carries the registry's own public address
/// and counts as official; any other address is stored as reported.
pub open spec fn handshake_record_matches(
    g: GameServer,
    s: Seq<char>,
    ip: IpAddress,
    server_ip: IpAddress,
) -> bool {
    let m = json_doc(s)->0;
    &&& g.name@ == text_of(m, "name"@)
    &&& g.port == uint_of(m, "port"@)
    &&& g.tls == spec_handshake_tls(m)
    &&& g.official == spec_is_local(ip)
    &&& g.ip == if spec_is_local(ip) {
        server_ip
    } else {
        ip
    }
    &&& g.players == 0
}

/// Decode a handshake payload and derive the record it announces, with the
/// reported address `ip` inspected against the registry's own address
/// `server_ip`. A payload that matches neither variant comes back as
/// `Err` carrying the raw text, so the caller can report it.
pub fn parse_connect_message(txt: String, ip: IpAddress, server_ip: IpAddress) -> (r: Result<
    GameServer,
    String,
>)
    ensures
        r is Ok <==> connect_decodable(txt@),
        r matches Ok(g) ==> handshake_record_matches(g, txt@, ip, server_ip),
        r matches Err(e) ==> e@ == txt@,
{
    match decode_connect(txt.as_str()) {
        Some(msg) => {
            let (name, port, tls) = match msg {
                ConnectMessage::V2 { name, port, tls } => (name, port, tls),
                ConnectMessage::V1 { name, port } => (name, port, false),
            };
            let local = ip.is_local();
            let stored_ip = if local {
                server_ip
            } else {
                ip
            };
            Ok(GameServer::new(name, stored_ip, tls, port, local))
        },
        None => Err(txt),
    }
}

/// Decode a status payload. A payload of any other shape is `None` and is
/// dropped by the caller without effect.
pub fn parse_game_message(txt: &str) -> (r: Option<GameMessage>)
    ensures
        r is Some <==> status_decodable(txt@),
        r matches Some(msg) ==> msg matches GameMessage::Status { players } && players
            == spec_players(txt@),
{
    let v = match json_from_str(txt) {
        Some(v) => v,
        None => {
            return None;
        },
    };
    let players64 = match json_get(&v, "players") {
        Some(f) => match json_as_u64(f) {
            Some(n) => n,
            None => {
                return None;
            },
        },
        None => {
            return None;
        },
    };
    if players64 > 0xffff_ffff {
        return None;
    }
    Some(GameMessage::Status { players: players64 as u32 })
}

} // verus!
