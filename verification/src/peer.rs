//! Adding a peer by its multiaddress.

use vstd::prelude::*;

use crate::clock::{current_timestamp, has_date};
use crate::text::{last_position, rfind, trim, trimmed};

verus! {

/// Writes a peer: parameters 1 to 3 are its id, its multiaddress and when it was
/// last seen. A peer that is known already is updated.
pub const UPSERT_PEER: &'static str =
    "INSERT INTO peers (peer_id, multiaddr, last_seen) VALUES (?1, ?2, ?3)
             ON CONFLICT(peer_id) DO UPDATE SET multiaddr=?2, last_seen=?3";

/// A peer to be written to the database.
#[derive(Debug)]
pub struct NewPeer {
    pub peer_id: String,
    pub multiaddr: String,
    pub last_seen: i64,
}

/// The part of a multiaddress that is the peer's id: what follows the last
/// `/p2p/` in it.
pub open spec fn peer_id_in(multiaddr: Seq<char>) -> Option<Seq<char>> {
    match last_position(multiaddr, "/p2p/"@) {
        Some(at) => Some(multiaddr.skip(at + 5)),
        None => None,
    }
}

/// A lower-case hexadecimal digit.
pub open spec fn is_hex_digit(c: char) -> bool {
    '0' <= c <= '9' || 'a' <= c <= 'f'
}

/// A version 4 UUID as text: 32 lower-case hexadecimal digits in groups of 8, 4,
/// 4, 4 and 12, with the version and the variant in their places.
pub open spec fn is_random_uuid(text: Seq<char>) -> bool {
    &&& text.len() == 36
    &&& forall|i: int|
        0 <= i < 36 ==> if i == 8 || i == 13 || i == 18 || i == 23 {
            text[i] == '-'
        } else {
            is_hex_digit(#[trigger] text[i])
        }
    &&& text[14] == '4'
    &&& text[19] == '8' || text[19] == '9' || text[19] == 'a' || text[19] == 'b'
}

/// `uuid::Uuid::new_v4` and `to_string` on the UUID it gives: chance decides the
/// digits, but not the shape of the text.
#[verifier::external_body]
fn random_peer_id() -> (id: String)
    ensures
        is_random_uuid(id@),
{
    uuid::Uuid::new_v4().to_string()
}

/// The multiaddress that was typed, without the white space around it, unless
/// nothing else was typed.
pub open spec fn typed_multiaddr(input: Seq<char>) -> Option<Seq<char>> {
    if trimmed(input).len() == 0 {
        None
    } else {
        Some(trimmed(input))
    }
}

/// The multiaddress that was typed, without the white space around it, unless
/// nothing else was typed.
pub fn multiaddr_from(input: &str) -> (multiaddr: Option<String>)
    ensures
        match multiaddr {
            Some(text) => typed_multiaddr(input@) == Some(text@),
            None => typed_multiaddr(input@) is None,
        },
{
    let inner = trim(input);
    if inner.is_empty() {
        None
    } else {
        Some(inner.to_owned())
    }
}

/// The peer at a multiaddress that was seen at time `now`. Its id is the one
/// that the multiaddress names, or `fallback` where it names none.
pub fn peer_at(multiaddr: String, fallback: String, now: i64) -> (peer: NewPeer)
    ensures
        peer.multiaddr@ == multiaddr@,
        peer.last_seen == now,
        peer.peer_id@ == (match peer_id_in(multiaddr@) {
            Some(id) => id,
            None => fallback@,
        }),
{
    proof {
        reveal_strlit("/p2p/");
    }
    let peer_id = match rfind(multiaddr.as_str(), "/p2p/") {
        Some(at) => {
            let total: usize = multiaddr.as_str().unicode_len();
            let id = multiaddr.as_str().substring_char(at + 5, total);
            assert(id@ == multiaddr@.skip(at + 5));
            id.to_owned()
        },
        None => fallback,
    };
    NewPeer { peer_id, multiaddr, last_seen: now }
}

/// The peer at a multiaddress, seen now. Where the multiaddress names no id the
/// peer gets a random one.
pub fn new_peer(multiaddr: String) -> (peer: NewPeer)
    ensures
        peer.multiaddr@ == multiaddr@,
        has_date(peer.last_seen),
        match peer_id_in(multiaddr@) {
            Some(id) => peer.peer_id@ == id,
            None => is_random_uuid(peer.peer_id@),
        },
{
    let fallback = match rfind(multiaddr.as_str(), "/p2p/") {
        Some(_) => String::new(),
        None => random_peer_id(),
    };
    peer_at(multiaddr, fallback, current_timestamp())
}

} // verus!
