use ahenk_tui::app::OPLOG_LIMIT;
use ahenk_tui::records::{
    device_rows, op_rows, peer_rows, DeviceRecord, OpRecord, PeerRecord, SELECT_DEVICES,
    SELECT_OPLOG, SELECT_PEERS,
};
use rusqlite::Connection;

fn database(schema: &str) -> Connection {
    let conn = Connection::open_in_memory().unwrap();
    conn.execute(schema, []).unwrap();
    conn
}

#[test]
fn the_latest_operations_are_selected() {
    let conn = database(
        "CREATE TABLE oplog (id INTEGER PRIMARY KEY, table_name TEXT, op_type TEXT, timestamp INTEGER)",
    );
    for id in 1..=51i64 {
        let row = (id, "users", "INSERT", 1000 + (id * 7) % 51);
        conn.execute("INSERT INTO oplog VALUES (?1, ?2, ?3, ?4)", row).unwrap();
    }
    let mut stmt = conn.prepare(SELECT_OPLOG).unwrap();
    let records: Vec<Option<OpRecord>> = stmt
        .query_map([], |r| {
            Ok(OpRecord {
                id: r.get(0).ok(),
                table_name: r.get(1).ok(),
                op_type: r.get(2).ok(),
                timestamp: r.get(3).ok(),
            })
        })
        .unwrap()
        .map(|record| record.ok())
        .collect();
    assert_eq!(records.len(), OPLOG_LIMIT);
    let rows = op_rows(records);
    for (i, row) in rows.iter().enumerate() {
        assert_eq!(row[3], (1050 - i as i64).to_string());
        assert_eq!((row[1].as_str(), row[2].as_str()), ("users", "INSERT"));
    }
    assert_eq!(rows[0][0], "29");
    assert!(rows.iter().all(|row| row[0] != "51"));
}

#[test]
fn the_devices_are_selected() {
    let conn = database(
        "CREATE TABLE devices (authorized_at INTEGER, device_name TEXT, device_type TEXT, device_id TEXT)",
    );
    conn.execute("INSERT INTO devices VALUES (0, 'laptop', 'desktop', 'd1')", []).unwrap();
    conn.execute("INSERT INTO devices VALUES (NULL, 'phone', 'mobile', 'd2')", []).unwrap();
    let mut stmt = conn.prepare(SELECT_DEVICES).unwrap();
    let records: Vec<Option<DeviceRecord>> = stmt
        .query_map([], |r| {
            Ok(DeviceRecord {
                device_id: r.get(0).ok(),
                device_type: r.get(1).ok(),
                device_name: r.get(2).ok(),
                authorized_at: r.get(3)?,
            })
        })
        .unwrap()
        .map(|record| record.ok())
        .collect();
    let mut rows = device_rows(records);
    rows.sort();
    assert_eq!(rows.len(), 2);
    assert_eq!(rows[0], vec!["d1", "desktop", "laptop", "1970-01-01T00:00:00+00:00"]);
    assert_eq!(rows[1][..3], ["d2", "mobile", "phone"]);
}

#[test]
fn peers_that_were_never_seen_come_last() {
    let conn = database("CREATE TABLE peers (peer_id TEXT, multiaddr TEXT, last_seen INTEGER)");
    for (id, seen) in [("never", None), ("early", Some(1i64)), ("nor ever", None), ("late", Some(2))] {
        conn.execute("INSERT INTO peers VALUES (?1, '/m', ?2)", (id, seen)).unwrap();
    }
    let mut stmt = conn.prepare(SELECT_PEERS).unwrap();
    let records: Vec<Option<PeerRecord>> = stmt
        .query_map([], |r| {
            Ok(PeerRecord { peer_id: r.get(0).ok(), multiaddr: r.get(1).ok(), last_seen: r.get(2)? })
        })
        .unwrap()
        .map(|record| record.ok())
        .collect();
    let rows = peer_rows(records);
    assert_eq!(rows[0], vec!["late", "/m", "1970-01-01T00:00:02+00:00"]);
    assert_eq!(rows[1], vec!["early", "/m", "1970-01-01T00:00:01+00:00"]);
    let mut last = vec![rows[2][0].as_str(), rows[3][0].as_str()];
    last.sort();
    assert_eq!((rows.len(), last), (4, vec!["never", "nor ever"]));
}
