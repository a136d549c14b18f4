use ahenk_tui::clock::{FIRST_TIMESTAMP, LAST_TIMESTAMP};
use ahenk_tui::records::{
    device_row, device_rows, format_timestamp, op_row, op_rows, peer_row, peer_rows, result_row,
    result_rows, shown_date, DeviceRecord, OpRecord, PeerRecord,
};

fn text(s: &str) -> Option<String> {
    Some(s.to_string())
}

fn peer(last_seen: Option<i64>) -> PeerRecord {
    PeerRecord { peer_id: text("Qm1"), multiaddr: text("/ip4/1.2.3.4"), last_seen }
}

#[test]
fn timestamps_are_written_as_dates() {
    assert_eq!(format_timestamp(Some(0), "Never"), "1970-01-01T00:00:00+00:00");
    assert_eq!(format_timestamp(Some(1_431_648_000), "N/A"), "2015-05-15T00:00:00+00:00");
    assert_eq!(format_timestamp(Some(-1), "N/A"), "1969-12-31T23:59:59+00:00");
    assert_eq!(format_timestamp(None, "Never"), "Never");
}

#[test]
fn timestamps_without_a_date_show_the_placeholder() {
    assert_eq!(format_timestamp(Some(LAST_TIMESTAMP), "N/A"), "+262142-12-31T23:59:59+00:00");
    assert_eq!(format_timestamp(Some(LAST_TIMESTAMP + 1), "N/A"), "N/A");
    assert_eq!(format_timestamp(Some(FIRST_TIMESTAMP), "N/A"), "-262143-01-01T00:00:00+00:00");
    assert_eq!(format_timestamp(Some(FIRST_TIMESTAMP - 1), "N/A"), "N/A");
    assert_eq!(format_timestamp(Some(i64::MAX), "N/A"), "N/A");
    assert_eq!(format_timestamp(Some(i64::MIN), "N/A"), "N/A");
}

#[test]
fn a_written_date_is_shown() {
    assert_eq!(shown_date(text("2001-02-03"), "Never"), "2001-02-03");
    assert_eq!(shown_date(None, "Never"), "Never");
}

#[test]
fn peers_become_rows() {
    assert_eq!(
        peer_row(peer(Some(1_000_000_000))),
        vec!["Qm1", "/ip4/1.2.3.4", "2001-09-09T01:46:40+00:00"]
    );
    assert_eq!(peer_row(peer(None)), vec!["Qm1", "/ip4/1.2.3.4", "Never"]);
    let unread = PeerRecord { peer_id: None, multiaddr: None, last_seen: None };
    assert_eq!(peer_row(unread), vec!["", "", "Never"]);
    let rows = peer_rows(vec![Some(peer(None)), None, Some(peer(Some(0)))]);
    assert_eq!(rows.len(), 2);
    assert_eq!(rows[1][2], "1970-01-01T00:00:00+00:00");
}

#[test]
fn devices_become_rows() {
    let device = DeviceRecord {
        device_id: text("d1"),
        device_type: text("phone"),
        device_name: None,
        authorized_at: Some(0),
    };
    assert_eq!(device_row(device), vec!["d1", "phone", "", "1970-01-01T00:00:00+00:00"]);
    let unread = DeviceRecord {
        device_id: None,
        device_type: None,
        device_name: text("n"),
        authorized_at: None,
    };
    assert_eq!(device_rows(vec![None, Some(unread)]), vec![vec!["", "", "n", "N/A"]]);
}

#[test]
fn operations_become_rows() {
    let op = OpRecord {
        id: Some(12),
        table_name: text("users"),
        op_type: text("INSERT"),
        timestamp: Some(-5),
    };
    assert_eq!(op_row(op), vec!["12", "users", "INSERT", "-5"]);
    let unread = OpRecord { id: None, table_name: None, op_type: None, timestamp: None };
    assert_eq!(op_rows(vec![Some(unread), None]), vec![vec!["0", "", "", "0"]]);
}

#[test]
fn cells_that_hold_no_text_are_null() {
    assert_eq!(result_row(&vec![text("a"), None, text("")], 3), vec!["a", "NULL", ""]);
    assert_eq!(
        result_rows(vec![Some(vec![text("a")]), None, Some(vec![None])], 1),
        vec![vec!["a"], vec!["NULL"]]
    );
}

#[test]
fn result_rows_have_one_cell_per_column() {
    assert_eq!(result_row(&vec![text("a")], 2), vec!["a", "NULL"]);
    assert_eq!(result_row(&vec![text("a"), text("b")], 1), vec!["a"]);
    assert!(result_row(&vec![text("a")], 0).is_empty());
}
