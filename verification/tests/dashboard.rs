use ahenk_tui::app::{
    AddPeerOutcome, App, LogFile, QueryOutcome, Snapshot, Status, OPLOG_LIMIT,
};
use ahenk_tui::config::{Config, Network, SyncSettings};
use ahenk_tui::input::{
    handle_dialog_input, handle_key, handle_normal_input, handle_query_input, reload_due, Action,
    Key, KeyEvent, KeyKind, Reload,
};
use ahenk_tui::records::{DeviceRecord, OpRecord, PeerRecord};
use ahenk_tui::tab::{InputMode, TabItem};

const SECOND: i64 = 1_000_000_000;

fn config() -> Config {
    Config {
        db_path: "/tmp/ahenk.db".to_string(),
        log_file: "/tmp/ahenk.log".to_string(),
        user: None,
        network: Network {
            listen_port: 0,
            listen_address: "0.0.0.0".to_string(),
            bootstrap_nodes: vec![],
            relay_servers: vec![],
        },
        sync: SyncSettings {
            enable_mdns: true,
            enable_relay: false,
            heartbeat_interval_secs: 30,
            max_message_size: 1024,
        },
    }
}

fn app() -> App {
    App::new(config(), Some(4096), 0)
}

fn press(app: &mut App, key: Key) -> Action {
    handle_key(KeyEvent { key, kind: KeyKind::Press }, app)
}

fn type_text(app: &mut App, text: &str) {
    for c in text.chars() {
        assert!(matches!(press(app, Key::Char(c)), Action::Nothing));
    }
}

fn status() -> Status {
    Status {
        daemon_running: true,
        daemon_pid: Some(77),
        daemon_uptime: Some(5),
        db_size_bytes: Some(10),
    }
}

fn strings(items: &[&str]) -> Vec<String> {
    items.iter().map(|s| s.to_string()).collect()
}

#[test]
fn a_new_dashboard() {
    let app = app();
    assert_eq!(app.active_tab, TabItem::Dashboard);
    assert_eq!(app.input_mode, InputMode::Normal);
    assert_eq!(app.query_input, "SELECT * FROM users;");
    assert_eq!(app.db_size_bytes, 4096);
    assert!(!app.show_dialog && !app.daemon_running);
    assert_eq!(app.last_refresh, -10 * SECOND);
    assert_eq!(App::new(config(), None, 0).db_size_bytes, 0);
    assert_eq!(reload_due(&app, 0), Reload::Data);
}

#[test]
fn data_is_loaded_again_after_five_seconds() {
    let mut app = app();
    let nothing = Snapshot { peers: None, devices: None, oplog: None };
    app.refresh_data(status(), Some(nothing), 100);
    assert_eq!(reload_due(&app, 100 + 5 * SECOND), Reload::Nothing);
    assert_eq!(reload_due(&app, 101 + 5 * SECOND), Reload::Data);
    assert_eq!(reload_due(&app, 0), Reload::Nothing);
    app.active_tab = TabItem::LogViewer;
    assert_eq!(reload_due(&app, 101 + 5 * SECOND), Reload::DataAndLogs);
    assert_eq!(reload_due(&app, i64::MIN), Reload::Nothing);
    app.last_refresh = i64::MIN;
    assert_eq!(reload_due(&app, i64::MAX), Reload::DataAndLogs);
}

#[test]
fn loading_replaces_the_lists_that_were_read() {
    let mut app = app();
    app.devices = vec![strings(&["old"])];
    let record = PeerRecord { peer_id: Some("Q".to_string()), multiaddr: None, last_seen: Some(0) };
    let read = Snapshot { peers: Some(vec![Some(record), None]), devices: None, oplog: Some(vec![]) };
    app.refresh_data(status(), Some(read), 9);
    assert_eq!(app.peers, vec![strings(&["Q", "", "1970-01-01T00:00:00+00:00"])]);
    assert_eq!(app.devices, vec![strings(&["old"])]);
    assert!(app.oplog_entries.is_empty());
    assert_eq!((app.daemon_running, app.daemon_pid, app.daemon_uptime), (true, Some(77), Some(5)));
    assert_eq!((app.db_size_bytes, app.last_refresh), (10, 9));
}

#[test]
fn without_a_database_only_the_status_changes() {
    let mut app = app();
    app.peers = vec![strings(&["old"])];
    app.refresh_data(Status { db_size_bytes: None, ..status() }, None, 50 * SECOND);
    assert_eq!(app.peers, vec![strings(&["old"])]);
    assert_eq!(app.db_size_bytes, 0);
    assert!(app.daemon_running);
    assert_eq!(reload_due(&app, 50 * SECOND), Reload::Data);
}

#[test]
fn a_query_that_ran() {
    let mut app = app();
    app.query_error = Some("old".to_string());
    app.execute_sql_query(QueryOutcome::Finished {
        headers: strings(&["id", "name"]),
        rows: vec![Some(vec![None, Some("Ada".to_string())]), None],
    });
    assert_eq!(app.query_error, None);
    assert_eq!(app.query_headers, strings(&["id", "name"]));
    assert_eq!(app.query_results, vec![strings(&["NULL", "Ada"])]);
}

#[test]
fn queries_that_failed() {
    let mut app = app();
    app.query_results = vec![strings(&["kept"])];
    app.query_headers = strings(&["h"]);
    app.execute_sql_query(QueryOutcome::OpenFailed("locked".to_string()));
    assert_eq!(app.query_error.as_deref(), Some("Database error: locked"));
    app.execute_sql_query(QueryOutcome::PrepareFailed("syntax".to_string()));
    assert_eq!(app.query_error.as_deref(), Some("syntax"));
    assert_eq!(app.query_headers, strings(&["h"]));
    app.execute_sql_query(QueryOutcome::RunFailed {
        headers: strings(&["a", "b"]),
        error: "boom".to_string(),
    });
    assert_eq!(app.query_error.as_deref(), Some("boom"));
    assert_eq!(app.query_headers, strings(&["a", "b"]));
    assert_eq!(app.query_results, vec![strings(&["kept"])]);
}

#[test]
fn the_log_keeps_its_last_hundred_lines() {
    let mut app = app();
    let lines = |n: usize| (0..n).map(|i| Some(i.to_string())).collect::<Vec<_>>();
    app.read_logs(LogFile::Lines(lines(250)));
    assert_eq!(app.log_lines.len(), 100);
    assert_eq!((app.log_lines[0].as_str(), app.log_lines[99].as_str()), ("150", "249"));
    app.read_logs(LogFile::Lines(lines(100)));
    assert_eq!(app.log_lines.len(), 100);
    assert_eq!(app.log_lines[0], "0");
    app.read_logs(LogFile::Unreadable);
    assert_eq!(app.log_lines.len(), 100);
    app.read_logs(LogFile::Lines(vec![Some("a".to_string()), None, Some("b".to_string())]));
    assert_eq!(app.log_lines, strings(&["a", "b"]));
    app.read_logs(LogFile::Missing);
    assert_eq!(app.log_lines, strings(&["Log file not found at: /tmp/ahenk.log"]));
}

#[test]
fn function_keys_open_tabs() {
    let mut app = app();
    for n in [1u8, 2, 3, 4, 6, 7] {
        let action = press(&mut app, Key::F(n));
        assert_eq!(app.active_tab, TabItem::from_index(n as usize - 1));
        assert_eq!(app.input_mode, InputMode::Normal);
        assert_eq!(matches!(action, Action::ReadLogs), n == 6);
    }
    press(&mut app, Key::F(8));
    assert_eq!(app.active_tab, TabItem::Help);
    press(&mut app, Key::F(5));
    assert_eq!((app.active_tab, app.input_mode), (TabItem::DbQuery, InputMode::EditingQuery));
    press(&mut app, Key::F(1));
    assert_eq!(app.active_tab, TabItem::DbQuery);
    press(&mut app, Key::Esc);
    press(&mut app, Key::F(1));
    assert_eq!(app.active_tab, TabItem::Dashboard);
}

#[test]
fn only_q_quits_and_only_as_a_command() {
    let mut app = app();
    for kind in [KeyKind::Release, KeyKind::Repeat] {
        let event = KeyEvent { key: Key::Char('q'), kind };
        assert!(matches!(handle_key(event, &mut app), Action::Nothing));
    }
    assert!(matches!(press(&mut app, Key::Char('x')), Action::Nothing));
    assert!(matches!(press(&mut app, Key::Char('q')), Action::Quit));
    press(&mut app, Key::F(5));
    assert!(matches!(press(&mut app, Key::Char('q')), Action::Nothing));
    assert_eq!(app.query_input, "SELECT * FROM users;q");
}

#[test]
fn r_loads_everything_again() {
    let mut app = app();
    assert!(matches!(press(&mut app, Key::Char('r')), Action::RefreshAll));
    assert_eq!(app.info_message.as_deref(), Some("Data manually refreshed!"));
}

#[test]
fn the_query_is_edited() {
    let mut app = app();
    press(&mut app, Key::F(5));
    for _ in 0..40 {
        press(&mut app, Key::Backspace);
    }
    assert_eq!(app.query_input, "");
    type_text(&mut app, "SELECT 'é';");
    assert_eq!(app.query_input, "SELECT 'é';");
    press(&mut app, Key::Char('!'));
    press(&mut app, Key::Backspace);
    assert_eq!(app.query_input, "SELECT 'é';");
    assert!(matches!(press(&mut app, Key::Enter), Action::RunQuery));
    assert_eq!(app.input_mode, InputMode::EditingQuery);
    press(&mut app, Key::Esc);
    assert_eq!(app.input_mode, InputMode::Normal);
}

#[test]
fn a_peer_is_added_through_the_dialog() {
    let mut app = app();
    app.generic_input = "left over".to_string();
    press(&mut app, Key::Char('a'));
    assert!(!app.show_dialog);
    press(&mut app, Key::F(2));
    press(&mut app, Key::Char('a'));
    assert!(app.show_dialog);
    assert_eq!((app.input_mode, app.generic_input.as_str()), (InputMode::EditingAddPeer, ""));
    type_text(&mut app, " /ip4/1.2.3.4/p2p/Qmq ");
    match press(&mut app, Key::Enter) {
        Action::AddPeer(multiaddr) => assert_eq!(multiaddr, "/ip4/1.2.3.4/p2p/Qmq"),
        other => panic!("{other:?}"),
    }
    assert_eq!(app.input_mode, InputMode::Normal);
    assert!(app.execute_add_peer(AddPeerOutcome::Saved("Qmq".to_string())));
    assert_eq!(app.info_message.as_deref(), Some("Successfully added peer: Qmq"));
    assert_eq!((app.show_dialog, app.generic_input.as_str()), (false, ""));
}

#[test]
fn a_peer_that_could_not_be_saved() {
    let mut app = app();
    press(&mut app, Key::F(2));
    press(&mut app, Key::Char('a'));
    type_text(&mut app, "x");
    assert!(matches!(press(&mut app, Key::Enter), Action::AddPeer(_)));
    assert!(!app.execute_add_peer(AddPeerOutcome::OpenFailed("locked".to_string())));
    assert_eq!(app.error_message.as_deref(), Some("Database error: locked"));
    assert_eq!((app.show_dialog, app.generic_input.as_str()), (true, "x"));
    match press(&mut app, Key::Enter) {
        Action::AddPeer(multiaddr) => assert_eq!(multiaddr, "x"),
        other => panic!("{other:?}"),
    }
    assert!(!app.execute_add_peer(AddPeerOutcome::SaveFailed("full".to_string())));
    assert_eq!(app.error_message.as_deref(), Some("Error: full"));
    assert_eq!((app.show_dialog, app.generic_input.as_str()), (false, ""));
    assert_eq!(app.info_message, None);
}

#[test]
fn an_address_is_submitted_after_blank_input() {
    let mut app = app();
    press(&mut app, Key::F(2));
    press(&mut app, Key::Char('a'));
    type_text(&mut app, "  ");
    assert!(matches!(press(&mut app, Key::Enter), Action::Nothing));
    type_text(&mut app, "/ip4/1.2.3.4/p2p/Qm");
    match press(&mut app, Key::Enter) {
        Action::AddPeer(multiaddr) => assert_eq!(multiaddr, "/ip4/1.2.3.4/p2p/Qm"),
        other => panic!("{other:?}"),
    }
    assert!(app.execute_add_peer(AddPeerOutcome::Saved("Qm".to_string())));
    assert_eq!((app.show_dialog, app.generic_input.as_str()), (false, ""));
}

#[test]
fn an_address_is_mended_after_a_failed_open() {
    let mut app = app();
    press(&mut app, Key::F(2));
    press(&mut app, Key::Char('a'));
    type_text(&mut app, "/ip4/1");
    press(&mut app, Key::Enter);
    app.execute_add_peer(AddPeerOutcome::OpenFailed("locked".to_string()));
    type_text(&mut app, ".2.3.4 ");
    match press(&mut app, Key::Enter) {
        Action::AddPeer(multiaddr) => assert_eq!(multiaddr, "/ip4/1.2.3.4"),
        other => panic!("{other:?}"),
    }
}

#[test]
fn rows_keep_their_shape() {
    let mut app = app();
    let headers = || strings(&["a", "b"]);
    let short = vec![Some(vec![Some("1".to_string())]), Some(vec![None, None, None])];
    for outcome in [
        QueryOutcome::Finished { headers: headers(), rows: short },
        QueryOutcome::RunFailed { headers: strings(&["x"]), error: "e".to_string() },
        QueryOutcome::PrepareFailed("e".to_string()),
        QueryOutcome::Finished { headers: headers(), rows: vec![Some(vec![])] },
    ] {
        app.execute_sql_query(outcome);
        if app.query_error.is_none() {
            assert!(app.query_results.iter().all(|row| row.len() == app.query_headers.len()));
        }
    }
    assert_eq!(app.query_results, vec![strings(&["NULL", "NULL"])]);
    let op = || OpRecord { id: Some(1), table_name: None, op_type: None, timestamp: None };
    let device = || DeviceRecord {
        device_id: None,
        device_type: None,
        device_name: None,
        authorized_at: None,
    };
    let peer = || PeerRecord { peer_id: None, multiaddr: None, last_seen: None };
    let read = Snapshot {
        peers: Some(vec![Some(peer()), None]),
        devices: Some(vec![Some(device())]),
        oplog: Some((0..50).map(|_| Some(op())).collect()),
    };
    app.refresh_data(status(), Some(read), 0);
    app.refresh_data(status(), None, 1);
    app.refresh_data(status(), Some(Snapshot { peers: None, devices: None, oplog: None }), 2);
    assert!(app.peers.iter().all(|row| row.len() == 3));
    assert!(app.devices.iter().all(|row| row.len() == 4));
    assert!(app.oplog_entries.iter().all(|row| row.len() == 4));
    assert_eq!((app.peers.len(), app.devices.len(), app.oplog_entries.len()), (1, 1, OPLOG_LIMIT));
}

#[test]
fn blank_input_is_not_submitted() {
    let mut app = app();
    press(&mut app, Key::F(2));
    press(&mut app, Key::Char('a'));
    type_text(&mut app, "  ");
    assert!(matches!(press(&mut app, Key::Enter), Action::Nothing));
    assert!(app.show_dialog);
    assert_eq!((app.input_mode, app.generic_input.as_str()), (InputMode::Normal, "  "));
    press(&mut app, Key::Backspace);
    assert_eq!(app.generic_input, " ");
    press(&mut app, Key::Esc);
    assert!(!app.show_dialog);
    assert_eq!(app.generic_input, " ");
}

#[test]
fn the_log_is_scrolled() {
    let mut app = app();
    press(&mut app, Key::F(6));
    app.read_logs(LogFile::Lines((0..12).map(|i| Some(i.to_string())).collect()));
    press(&mut app, Key::Up);
    assert_eq!(app.log_scroll, 0);
    press(&mut app, Key::Down);
    assert_eq!(app.log_scroll, 1);
    press(&mut app, Key::Up);
    assert_eq!(app.log_scroll, 0);
    for _ in 0..5 {
        press(&mut app, Key::Down);
    }
    assert_eq!(app.log_scroll, 2);
    press(&mut app, Key::F(1));
    press(&mut app, Key::Up);
    assert_eq!(app.log_scroll, 2);
    press(&mut app, Key::F(6));
    app.read_logs(LogFile::Missing);
    press(&mut app, Key::Down);
    assert_eq!(app.log_scroll, 2);
}

#[test]
fn unused_modes_ignore_keys() {
    let mut app = app();
    app.input_mode = InputMode::EditingPairDevice;
    assert!(matches!(press(&mut app, Key::Char('q')), Action::Nothing));
    assert!(matches!(press(&mut app, Key::F(2)), Action::Nothing));
    assert_eq!(app.active_tab, TabItem::Dashboard);
}

#[test]
fn handlers_ignore_other_keys() {
    let mut app = app();
    assert!(matches!(handle_normal_input(Key::Other, &mut app), Action::Nothing));
    assert!(matches!(handle_query_input(Key::Up, &mut app), Action::Nothing));
    assert!(matches!(handle_dialog_input(Key::F(3), &mut app), Action::Nothing));
    assert_eq!(app.active_tab, TabItem::Dashboard);
    assert_eq!(app.query_input, "SELECT * FROM users;");
}

#[test]
fn escape_gives_the_commands_back() {
    for keys in [vec![], vec![Key::F(5)], vec![Key::F(2), Key::Char('a')]] {
        let mut app = app();
        for key in keys {
            press(&mut app, key);
        }
        let tab = app.active_tab;
        press(&mut app, Key::Esc);
        assert_eq!((app.show_dialog, app.input_mode), (false, InputMode::Normal));
        assert_eq!(app.active_tab, tab);
        assert!(matches!(press(&mut app, Key::Char('q')), Action::Quit));
    }
}

#[test]
fn editing_shields_the_commands() {
    let mut app = app();
    press(&mut app, Key::F(2));
    press(&mut app, Key::Char('a'));
    for key in [Key::F(1), Key::F(6), Key::Down, Key::Char('r'), Key::Char('q')] {
        assert!(matches!(press(&mut app, key), Action::Nothing));
    }
    assert_eq!((app.active_tab, app.generic_input.as_str()), (TabItem::Peers, "rq"));
    assert_eq!(app.info_message, None);
}

#[test]
fn states_stay_consistent() {
    let keys = [
        Key::F(2),
        Key::Char('a'),
        Key::Char('x'),
        Key::Enter,
        Key::F(5),
        Key::Enter,
        Key::Esc,
        Key::F(6),
        Key::Down,
        Key::Up,
        Key::Other,
        Key::Backspace,
    ];
    let mut app = app();
    let mut seed: usize = 1;
    for round in 0..5000 {
        seed = (seed * 1103515245 + 12345) % 2147483648;
        match press(&mut app, keys[(seed / 65536) % keys.len()]) {
            Action::AddPeer(multiaddr) => {
                app.execute_add_peer(match round % 3 {
                    0 => AddPeerOutcome::Saved(multiaddr),
                    1 => AddPeerOutcome::SaveFailed(multiaddr),
                    _ => AddPeerOutcome::OpenFailed(multiaddr),
                });
            }
            Action::ReadLogs => {
                let lines = (0..seed % 300).map(|i| Some(i.to_string())).collect();
                app.read_logs(LogFile::Lines(lines));
            }
            _ => {}
        }
        assert!(!app.show_dialog || app.active_tab == TabItem::Peers);
        assert!(app.input_mode != InputMode::EditingAddPeer || app.show_dialog);
        assert!(app.input_mode != InputMode::EditingQuery || app.active_tab == TabItem::DbQuery);
        assert!(app.log_lines.len() <= 100 && app.log_scroll <= 90);
    }
}

#[test]
fn loading_keeps_the_users_work() {
    let mut app = app();
    press(&mut app, Key::F(5));
    type_text(&mut app, " -- more");
    app.refresh_data(status(), Some(Snapshot { peers: None, devices: None, oplog: None }), 1);
    app.read_logs(LogFile::Missing);
    app.execute_sql_query(QueryOutcome::PrepareFailed("x".to_string()));
    assert_eq!(app.query_input, "SELECT * FROM users; -- more");
    assert_eq!((app.active_tab, app.input_mode), (TabItem::DbQuery, InputMode::EditingQuery));
    assert_eq!((app.info_message, app.error_message, app.log_scroll), (None, None, 0));
}

#[test]
fn loading_and_adding_commute() {
    let read = || {
        let record = PeerRecord { peer_id: Some("Q".to_string()), multiaddr: None, last_seen: None };
        Some(Snapshot { peers: Some(vec![Some(record)]), devices: None, oplog: None })
    };
    let mut first = app();
    first.show_dialog = true;
    first.execute_add_peer(AddPeerOutcome::Saved("Q".to_string()));
    first.refresh_data(status(), read(), 3);
    let mut second = app();
    second.show_dialog = true;
    second.refresh_data(status(), read(), 3);
    second.execute_add_peer(AddPeerOutcome::Saved("Q".to_string()));
    assert_eq!(format!("{first:?}"), format!("{second:?}"));
}

#[test]
fn no_more_operations_are_kept_than_are_selected() {
    let mut app = app();
    let read = |ids: Vec<Option<i64>>| Snapshot {
        peers: None,
        devices: None,
        oplog: Some(
            ids.into_iter()
                .map(|id| id.map(|n| OpRecord { id: Some(n), table_name: None, op_type: None, timestamp: None }))
                .collect(),
        ),
    };
    app.refresh_data(status(), Some(read((0..60).map(Some).collect())), 0);
    assert_eq!(app.oplog_entries.len(), OPLOG_LIMIT);
    assert_eq!((app.oplog_entries[0][0].as_str(), app.oplog_entries[49][0].as_str()), ("0", "49"));
    let holes = (0..60).map(|n| if n == 3 { None } else { Some(n) }).collect();
    app.refresh_data(status(), Some(read(holes)), 1);
    assert_eq!(app.oplog_entries.len(), OPLOG_LIMIT - 1);
    assert_eq!(app.oplog_entries[48][0], "49");
    app.refresh_data(status(), Some(read(vec![Some(7), None])), 2);
    assert_eq!(app.oplog_entries, vec![strings(&["7", "", "", "0"])]);
}

#[test]
fn keys_keep_the_scroll_position_within_the_limit() {
    for lines in [0usize, 5, 10, 11, 40] {
        let mut app = app();
        app.active_tab = TabItem::LogViewer;
        app.read_logs(LogFile::Lines((0..lines).map(|i| Some(i.to_string())).collect()));
        for round in 0..200 {
            press(&mut app, if round % 5 == 0 { Key::Up } else { Key::Down });
            assert!(app.log_scroll <= lines.saturating_sub(10));
        }
    }
}
