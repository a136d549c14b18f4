use ahenk_tui::app::App;
use ahenk_tui::config::{Config, Network, SyncSettings, User};
use ahenk_tui::layout::{
    centered_rect, split_in_three, split_in_two, Area, Constraint, Direction,
};
use ahenk_tui::screen::{
    dashboard_cards, dialog_panels, line_color, query_panels, render_dashboard, render_devices, render_dialog,
    render_help, render_log_viewer, render_oplog, render_pane, render_peers, render_prompt,
    render_query_pane, render_result, render_status, render_tabs, screen_layers, ui, Borders, Color, Panel, Style,
    Widget, HELP, LOGO,
};
use ahenk_tui::tab::{InputMode, TabItem};

const SCREEN: Area = Area { x: 0, y: 0, width: 100, height: 50 };

fn strings(items: &[&str]) -> Vec<String> {
    items.iter().map(|s| s.to_string()).collect()
}

fn app() -> App {
    let config = Config {
        db_path: "/db".to_string(),
        log_file: "/log".to_string(),
        user: Some(User { name: "Ada".to_string(), email: "ada@example.org".to_string() }),
        network: Network {
            listen_port: 49293,
            listen_address: "0.0.0.0".to_string(),
            bootstrap_nodes: strings(&["/b1", "/b2"]),
            relay_servers: vec![],
        },
        sync: SyncSettings {
            enable_mdns: true,
            enable_relay: false,
            heartbeat_interval_secs: 30,
            max_message_size: 1048576,
        },
    };
    App::new(config, Some(2048), 0)
}

fn text<'a>(panel: &'a Panel<'_>) -> &'a str {
    match &panel.widget {
        Widget::Text { text, .. } => text,
        other => panic!("{other:?}"),
    }
}

fn title<'a>(panel: &'a Panel<'_>) -> &'a str {
    &panel.block.as_ref().unwrap().title
}

fn fg(color: Color) -> Style {
    Style { fg: Some(color), bg: None, bold: false }
}

#[test]
fn areas_are_divided() {
    let (left, right) = split_in_two(
        Direction::Horizontal,
        Constraint::Percentage(55),
        Constraint::Percentage(45),
        Area { x: 2, y: 3, width: 100, height: 9 },
    );
    assert_eq!(left, Area { x: 2, y: 3, width: 55, height: 9 });
    assert_eq!(right, Area { x: 57, y: 3, width: 45, height: 9 });
    let rows = split_in_three(
        Direction::Vertical,
        Constraint::Length(3),
        Constraint::Min(10),
        Constraint::Length(2),
        SCREEN,
    );
    assert_eq!(rows.0, Area { x: 0, y: 0, width: 100, height: 3 });
    assert_eq!(rows.1, Area { x: 0, y: 3, width: 100, height: 45 });
    assert_eq!(rows.2, Area { x: 0, y: 48, width: 100, height: 2 });
}

#[test]
fn a_rectangle_is_centered() {
    assert_eq!(centered_rect(60, 20, SCREEN), Area { x: 20, y: 20, width: 60, height: 10 });
    assert_eq!(centered_rect(100, 100, SCREEN), SCREEN);
    assert_eq!(centered_rect(33, 51, SCREEN), Area { x: 33, y: 12, width: 33, height: 26 });
}

#[test]
fn the_tab_bar_highlights_the_open_tab() {
    let mut app = app();
    app.active_tab = TabItem::DbQuery;
    let panel = render_tabs(SCREEN, &app);
    assert_eq!(title(&panel), " Ahenk Sync Engine TUI ");
    assert_eq!(panel.block.as_ref().unwrap().borders, Borders::Bottom);
    match &panel.widget {
        Widget::Tabs { titles, selected, style, highlight } => {
            assert_eq!(titles.len(), 7);
            assert_eq!(titles[*selected], " F5 SQL Query ");
            assert_eq!(*style, fg(Color::Cyan));
            let black = Style { fg: Some(Color::Black), bg: Some(Color::Cyan), bold: true };
            assert_eq!(*highlight, black);
        }
        other => panic!("{other:?}"),
    }
}

#[test]
fn the_status_bar() {
    let mut app = app();
    assert_eq!(
        text(&render_status(SCREEN, &app, "0.00")),
        " Daemon Status: Stopped | SQLite DB: /db (0.00 MB) | Refreshing automatically (5s) | Press 'q' to quit"
    );
    app.daemon_running = true;
    assert!(text(&render_status(SCREEN, &app, "1.50")).contains("Running (PID 0) | SQLite DB: /db (1.50 MB)"));
    app.daemon_pid = Some(-3);
    assert!(text(&render_status(SCREEN, &app, "1.50")).contains("Running (PID -3)"));
}

#[test]
fn the_dashboard_cards() {
    let mut app = app();
    let panels = render_dashboard(SCREEN, &app);
    assert_eq!(panels.len(), 2);
    assert_eq!(panels[0].area.width, 55);
    assert_eq!(title(&panels[0]), " Overview ");
    assert_eq!(title(&panels[1]), " P2P / Network Settings ");
    assert_eq!(
        text(&panels[0]),
        format!("{LOGO}\n\nUser Profile:\n  Name: Ada\n  Email: ada@example.org\n\nSystem Metrics:\n  Daemon status: INACTIVE 🔴\n  Uptime: N/A\n  Database size: 2048 bytes")
    );
    assert_eq!(
        text(&panels[1]),
        "Network settings:\n  Listen port: 49293\n  Listen address: 0.0.0.0\n\nSync Engine configurations:\n  mDNS discovery: Enabled\n  Relay support: Disabled\n  Heartbeat interval: 30s\n  Max Message Size: 1048576 bytes\n\nBootstrap Nodes:\n  - /b1\n  - /b2\n\nRelay Servers:\n  None configured"
    );
    app.daemon_running = true;
    app.daemon_uptime = Some(61);
    app.config.user = None;
    let panels = dashboard_cards(SCREEN, SCREEN, &app);
    assert!(text(&panels[0]).contains("Name: Unregistered\n  Email: N/A\n"));
    assert!(text(&panels[0]).contains("ACTIVE 🟢\n  Uptime: 61s\n"));
}

#[test]
fn the_tables() {
    let mut app = app();
    app.peers = vec![strings(&["Q", "/a", "Never"])];
    app.devices = vec![strings(&["d", "t", "n", "N/A"])];
    app.oplog_entries = vec![strings(&["1", "users", "INSERT", "2"])];
    let panels = [render_peers(SCREEN, &app), render_devices(SCREEN, &app), render_oplog(SCREEN, &app)];
    let titles = [
        " Connected Peers [Press 'a' to add a peer] ",
        " Authorized Devices ",
        " Recent Operation Logs (OpLog) ",
    ];
    let columns: [&[&str]; 3] = [
        &["Peer ID", "Multiaddress", "Last Seen"],
        &["Device ID", "Type", "Name", "Authorized At"],
        &["Op ID", "Table", "Operation", "Timestamp"],
    ];
    let shares: [&[u16]; 3] = [&[30, 50, 20], &[30, 20, 25, 25], &[15, 35, 20, 30]];
    let lists = [&app.peers, &app.devices, &app.oplog_entries];
    for i in 0..3 {
        assert_eq!(title(&panels[i]), titles[i]);
        match &panels[i].widget {
            Widget::Table { headers, header_style, rows, widths } => {
                assert_eq!(headers, columns[i]);
                assert_eq!(*header_style, Style { fg: Some(Color::Cyan), bg: None, bold: true });
                assert_eq!(*rows, lists[i]);
                let expected: Vec<_> = shares[i].iter().map(|p| Constraint::Percentage(*p)).collect();
                assert_eq!(*widths, expected);
            }
            other => panic!("{other:?}"),
        }
    }
}

#[test]
fn the_sql_prompt() {
    let mut app = app();
    let panel = render_prompt(SCREEN, &app);
    assert_eq!(text(&panel), "SELECT * FROM users;");
    assert_eq!(panel.block.as_ref().unwrap().border_style.fg, None);
    app.input_mode = InputMode::EditingQuery;
    let panel = render_prompt(SCREEN, &app);
    assert_eq!(panel.block.as_ref().unwrap().border_style, fg(Color::Green));
    let panels = render_query_pane(SCREEN, &app);
    assert_eq!(panels[0].area.height, 3);
    assert_eq!(panels[1].area, Area { x: 0, y: 3, width: 100, height: 47 });
}

#[test]
fn query_results_share_the_width() {
    let mut app = app();
    for (columns, share) in [(0usize, None), (1, Some(100)), (3, Some(33)), (101, Some(0))] {
        app.query_headers = (0..columns).map(|i| i.to_string()).collect();
        match render_result(SCREEN, &app).widget {
            Widget::Table { headers, widths, .. } => {
                assert_eq!(headers.len(), columns);
                assert_eq!(widths.len(), columns);
                if let Some(p) = share {
                    assert!(widths.iter().all(|w| *w == Constraint::Percentage(p)));
                }
            }
            other => panic!("{other:?}"),
        }
    }
    app.query_error = Some("no such table".to_string());
    let panel = render_result(SCREEN, &app);
    assert_eq!((title(&panel), text(&panel)), (" Query Error ", "no such table"));
}

#[test]
fn log_lines_have_the_colour_of_their_level() {
    assert_eq!(line_color("2024 ERROR x"), Color::Red);
    assert_eq!(line_color("INFO stderr closed"), Color::Red);
    assert_eq!(line_color("WARN INFO"), Color::Yellow);
    assert_eq!(line_color("INFO DEBUG"), Color::Green);
    assert_eq!(line_color("DEBUG"), Color::Blue);
    assert_eq!(line_color("debug Error"), Color::White);
}

#[test]
fn the_log_viewer_starts_at_the_scroll_position() {
    let mut app = app();
    app.log_lines = strings(&["a", "WARN b", "c"]);
    app.log_scroll = 1;
    let panel = render_log_viewer(SCREEN, &app);
    assert_eq!(title(&panel), " Live Tail: /log [Press Up/Down keys to scroll] ");
    match &panel.widget {
        Widget::Lines { lines } => {
            assert_eq!(lines.len(), 2);
            assert_eq!((lines[0].text, lines[0].style), ("WARN b", fg(Color::Yellow)));
            assert_eq!((lines[1].text, lines[1].style), ("c", fg(Color::White)));
        }
        other => panic!("{other:?}"),
    }
    app.log_scroll = 9;
    match render_log_viewer(SCREEN, &app).widget {
        Widget::Lines { lines } => assert!(lines.is_empty()),
        other => panic!("{other:?}"),
    }
}

#[test]
fn the_help_pane() {
    let panel = render_help(SCREEN);
    assert_eq!(text(&panel), HELP);
    assert!(HELP.contains("[F5]        Go to SQL Editor (Run SQLite queries interactively)"));
    assert!(HELP.contains("- Press [q] to quit TUI app immediately."));
    assert!(LOGO.contains("CROSS-PLATFORM P2P DATABASE SYNCHRONIZATION"));
}

#[test]
fn the_dialog() {
    let mut app = app();
    app.generic_input = "/ip4".to_string();
    let panels = render_dialog(SCREEN, &app);
    assert!(matches!(panels[0].widget, Widget::Clear));
    assert_eq!(panels[0].area, panels[1].area);
    assert_eq!(panels[1].area, Area { x: 20, y: 20, width: 60, height: 10 });
    assert_eq!(title(&panels[1]), " Add Multiaddress Peer ");
    assert_eq!(
        text(&dialog_panels(SCREEN, &app)[1]),
        "\nEnter Peer Multiaddress:\n(e.g., /ip4/127.0.0.1/tcp/49293/p2p/Qm...)\n\n> /ip4\n\n[Press Enter to confirm, Esc to close]"
    );
}

#[test]
fn every_tab_has_its_pane() {
    let mut app = app();
    let titles = [
        " Overview ",
        " Connected Peers [Press 'a' to add a peer] ",
        " Authorized Devices ",
        " Recent Operation Logs (OpLog) ",
        " SQL Query Prompt [Press Enter to run query, Esc to exit editing] ",
        " Live Tail: /log [Press Up/Down keys to scroll] ",
        " Controls & Help ",
    ];
    for (index, expected) in titles.iter().enumerate() {
        app.active_tab = TabItem::from_index(index);
        let panels = render_pane(SCREEN, &app);
        assert_eq!(title(&panels[0]), *expected);
        assert_eq!(panels.len(), if index == 0 || index == 4 { 2 } else { 1 });
    }
}

#[test]
fn the_whole_screen() {
    let mut app = app();
    app.active_tab = TabItem::Peers;
    let panels = ui(SCREEN, &app, "0.00");
    assert_eq!(panels.len(), 3);
    assert!(matches!(panels[0].widget, Widget::Tabs { .. }));
    assert_eq!(panels[0].area, Area { x: 0, y: 0, width: 100, height: 3 });
    assert_eq!(panels[1].area, Area { x: 0, y: 3, width: 100, height: 45 });
    assert!(text(&panels[2]).starts_with(" Daemon Status: "));
    assert_eq!(panels[2].area, Area { x: 0, y: 48, width: 100, height: 2 });
    app.show_dialog = true;
    let panels = ui(SCREEN, &app, "0.00");
    assert_eq!(panels.len(), 5);
    assert!(matches!(panels[3].widget, Widget::Clear));
    assert_eq!(title(&panels[4]), " Add Multiaddress Peer ");
}

#[test]
fn layers_are_drawn_in_order() {
    let app = app();
    let below = Area { x: 0, y: 9, width: 5, height: 1 };
    let pane = query_panels(SCREEN, below, &app);
    assert_eq!((pane[0].area, pane[1].area), (SCREEN, below));
    let panels = screen_layers(&app, "7.00", SCREEN, pane, below, vec![render_help(SCREEN)]);
    assert_eq!(panels.len(), 5);
    assert!(matches!(panels[0].widget, Widget::Tabs { .. }));
    assert_eq!(title(&panels[2]), " SQL Results ");
    assert!(text(&panels[3]).contains("(7.00 MB)"));
    assert_eq!(panels[3].area, below);
    assert_eq!(text(&panels[4]), HELP);
}

fn lies_in(outer: Area, inner: Area) -> bool {
    outer.x <= inner.x
        && outer.y <= inner.y
        && inner.x + inner.width <= outer.x + outer.width
        && inner.y + inner.height <= outer.y + outer.height
}

#[test]
fn parts_lie_in_the_area_and_come_in_order() {
    for size in 0..160u16 {
        let area = Area { x: 3, y: 5, width: size, height: size };
        let rows = split_in_three(
            Direction::Vertical,
            Constraint::Length(3),
            Constraint::Min(10),
            Constraint::Length(2),
            area,
        );
        let columns = split_in_three(
            Direction::Horizontal,
            Constraint::Percentage(99),
            Constraint::Percentage(33),
            Constraint::Min(size),
            area,
        );
        for part in [rows.0, rows.1, rows.2, columns.0, columns.1, columns.2] {
            assert!(lies_in(area, part), "{area:?} {part:?}");
        }
        assert!(rows.0.y + rows.0.height <= rows.1.y && rows.1.y + rows.1.height <= rows.2.y);
        assert!(columns.0.x + columns.0.width <= columns.1.x);
        assert!(columns.1.x + columns.1.width <= columns.2.x);
        assert!(lies_in(area, centered_rect(60, 20, area)));
    }
}

#[test]
fn panels_lie_on_the_screen() {
    let mut app = app();
    app.show_dialog = true;
    for (width, height) in [(0, 0), (1, 1), (20, 4), (80, 24), (213, 57)] {
        let screen = Area { x: 0, y: 0, width, height };
        for index in 0..7 {
            app.active_tab = TabItem::from_index(index);
            for panel in ui(screen, &app, "0.00") {
                assert!(lies_in(screen, panel.area), "{screen:?} {panel:?}");
            }
        }
    }
}

#[test]
fn percentages_are_rounded_to_the_nearest_cell() {
    for (x, width) in [(0u16, 0u16), (0, 1), (7, 10), (0, 80), (0, 81), (3, 90), (0, 213), (40000, 30000)] {
        let area = Area { x, y: 1, width, height: 4 };
        let whole = (x as u32 + width as u32).min(65535) - x as u32;
        let border = |hundredths: u32| x as u32 + (hundredths * whole + 50) / 100;
        let cards = split_in_two(
            Direction::Horizontal,
            Constraint::Percentage(55),
            Constraint::Percentage(45),
            area,
        );
        let thirds = split_in_three(
            Direction::Horizontal,
            Constraint::Percentage(33),
            Constraint::Percentage(33),
            Constraint::Percentage(33),
            area,
        );
        for (part, from, to) in [
            (cards.0, 0, 55),
            (cards.1, 55, 100),
            (thirds.0, 0, 33),
            (thirds.1, 33, 66),
            (thirds.2, 66, 99),
        ] {
            let ends = (part.x as u32, part.x as u32 + part.width as u32);
            assert_eq!(ends, (border(from), border(to)), "{area:?}");
        }
    }
}

#[test]
fn a_least_length_takes_what_the_lengths_leave() {
    let area = Area { x: 4, y: 6, width: 9, height: 20 };
    let (first, second) = split_in_two(
        Direction::Vertical,
        Constraint::Min(17),
        Constraint::Length(3),
        area,
    );
    assert_eq!((first.y, first.height, second.y, second.height), (6, 17, 23, 3));
    let (first, second) = split_in_two(
        Direction::Vertical,
        Constraint::Length(0),
        Constraint::Min(0),
        area,
    );
    assert_eq!((first.y, first.height, second.y, second.height), (6, 0, 6, 20));
}

#[test]
fn the_cards_fill_the_width() {
    let app = app();
    for width in [0u16, 1, 9, 10, 80, 81, 213] {
        let area = Area { x: 5, y: 2, width, height: 30 };
        let panels = render_dashboard(area, &app);
        let (left, right) = (panels[0].area, panels[1].area);
        let share = (55 * width as u32 + 50) / 100;
        assert_eq!((left.x, left.width as u32), (5, share));
        assert_eq!((right.x, left.width + right.width), (left.x + left.width, width));
    }
}

#[test]
fn the_prompt_stands_above_the_result() {
    let app = app();
    for height in [8u16, 9, 19, 52] {
        let area = Area { x: 0, y: 3, width: 80, height };
        let panels = render_query_pane(area, &app);
        assert_eq!(panels[0].area, Area { height: 3, ..area });
        assert_eq!(panels[1].area, Area { y: 6, height: height - 3, ..area });
    }
}

#[test]
fn the_rows_of_the_screen() {
    let mut app = app();
    app.active_tab = TabItem::Peers;
    for height in [15u16, 16, 24, 57] {
        let screen = Area { x: 0, y: 0, width: 80, height };
        let panels = ui(screen, &app, "0.00");
        assert_eq!(panels.len(), 3);
        assert_eq!(panels[0].area, Area { height: 3, ..screen });
        assert_eq!(panels[1].area, Area { y: 3, height: height - 5, ..screen });
        assert_eq!(panels[2].area, Area { y: height - 2, height: 2, ..screen });
    }
}

#[test]
fn the_dialog_stands_in_the_middle() {
    let app = app();
    for (width, height) in [(0u16, 0u16), (1, 1), (80, 24), (81, 25), (213, 57)] {
        let screen = Area { x: 0, y: 0, width, height };
        let area = render_dialog(screen, &app)[0].area;
        let right = width - area.x - area.width;
        let below = height - area.y - area.height;
        assert!(area.x.abs_diff(right) <= 1 && area.y.abs_diff(below) <= 1, "{screen:?} {area:?}");
        assert!((100 * area.width as u32).abs_diff(60 * width as u32) <= 100);
        assert!((100 * area.height as u32).abs_diff(20 * height as u32) <= 100);
    }
    let area = render_dialog(Area { x: 0, y: 0, width: 80, height: 24 }, &app)[0].area;
    assert_eq!(area, Area { x: 16, y: 10, width: 48, height: 4 });
}
