use ahenk_tui::peer::{multiaddr_from, new_peer, peer_at, UPSERT_PEER};
use ahenk_tui::records::{peer_row, PeerRecord, SELECT_PEERS};

#[test]
fn the_id_follows_the_last_marker() {
    let peer = peer_at("/ip4/127.0.0.1/tcp/49293/p2p/QmAbc".to_string(), "x".to_string(), 42);
    assert_eq!(peer.peer_id, "QmAbc");
    assert_eq!(peer.multiaddr, "/ip4/127.0.0.1/tcp/49293/p2p/QmAbc");
    assert_eq!(peer.last_seen, 42);
    let relayed = peer_at("/p2p/Relay/p2p-circuit/p2p/Target".to_string(), "x".to_string(), 0);
    assert_eq!(relayed.peer_id, "Target");
    let empty = peer_at("/ip4/1.2.3.4/p2p/".to_string(), "x".to_string(), 0);
    assert_eq!(empty.peer_id, "");
    let wide = peer_at("/dns/é🟢/p2p/ü".to_string(), "x".to_string(), 0);
    assert_eq!(wide.peer_id, "ü");
}

#[test]
fn a_multiaddress_without_an_id_gets_the_fallback() {
    let peer = peer_at("/ip4/127.0.0.1/tcp/1".to_string(), "fallback".to_string(), 1);
    assert_eq!(peer.peer_id, "fallback");
}

#[test]
fn a_new_peer_without_an_id_gets_a_random_uuid() {
    let first = new_peer("/ip4/127.0.0.1/tcp/1".to_string());
    let second = new_peer("/ip4/127.0.0.1/tcp/1".to_string());
    assert_ne!(first.peer_id, second.peer_id);
    let id = uuid::Uuid::parse_str(&first.peer_id).unwrap();
    assert_eq!(id.get_version_num(), 4);
    assert_eq!(id.to_string(), first.peer_id);
    let chars: Vec<char> = first.peer_id.chars().collect();
    assert_eq!(chars.len(), 36);
    for (i, c) in chars.iter().enumerate() {
        match i {
            8 | 13 | 18 | 23 => assert_eq!(*c, '-'),
            14 => assert_eq!(*c, '4'),
            19 => assert!(['8', '9', 'a', 'b'].contains(c)),
            _ => assert!(c.is_ascii_digit() || ('a'..='f').contains(c)),
        }
    }
}

#[test]
fn a_new_peer_is_seen_now() {
    let before = chrono::Utc::now().timestamp();
    let peer = new_peer("/ip4/1.2.3.4/p2p/Qm".to_string());
    let after = chrono::Utc::now().timestamp();
    assert_eq!(peer.peer_id, "Qm");
    assert!(before <= peer.last_seen && peer.last_seen <= after);
}

#[test]
fn the_typed_multiaddress_is_trimmed() {
    assert_eq!(multiaddr_from("  /ip4/1.2.3.4 \t"), Some("/ip4/1.2.3.4".to_string()));
    assert_eq!(multiaddr_from(" \u{3000}\n"), None);
    assert_eq!(multiaddr_from(""), None);
}

#[test]
fn a_known_peer_is_updated() {
    let conn = rusqlite::Connection::open_in_memory().unwrap();
    conn.execute(
        "CREATE TABLE peers (peer_id TEXT PRIMARY KEY, multiaddr TEXT, last_seen INTEGER)",
        [],
    )
    .unwrap();
    for (multiaddr, seen) in [("/a/p2p/Q", 1i64), ("/b/p2p/Q", 2)] {
        let peer = peer_at(multiaddr.to_string(), String::new(), seen);
        conn.execute(UPSERT_PEER, (&peer.peer_id, &peer.multiaddr, peer.last_seen)).unwrap();
    }
    let row: (String, String, i64) = conn
        .query_row(SELECT_PEERS, [], |r| Ok((r.get(0)?, r.get(1)?, r.get(2)?)))
        .unwrap();
    assert_eq!(row, ("Q".to_string(), "/b/p2p/Q".to_string(), 2));
}

#[test]
fn a_new_peer_is_shown_with_its_date() {
    let peer = new_peer("/ip4/1.2.3.4/p2p/Qm".to_string());
    let date = chrono::DateTime::from_timestamp(peer.last_seen, 0).unwrap().to_rfc3339();
    let row = peer_row(PeerRecord {
        peer_id: Some(peer.peer_id),
        multiaddr: Some(peer.multiaddr),
        last_seen: Some(peer.last_seen),
    });
    assert_eq!(row, vec!["Qm".to_string(), "/ip4/1.2.3.4/p2p/Qm".to_string(), date]);
}
