//! What the screen shows of the state.

use vstd::prelude::*;

use crate::app::{App, AppView, QueryOutcome, Snapshot, Status};
use crate::config::ConfigView;
use crate::laws::loading::{
    law_query_gives_what_was_read, law_refresh_replaces_the_lists,
    law_refresh_takes_over_the_status, show_devices, show_operations, show_peers, show_results,
};
use crate::laws::words::{lemma_decimal_writes, readable, same_table, same_texts, writes};
use crate::laws::{law_middle_is_centered, law_percentages_are_met, lemma_screen_parts};
use crate::layout::{
    amounts, centered_rect, lengths_fit, lies_in, percentages_fit, precedes, room, share, size,
    split_in_three, split_in_two, start, Area, Constraint, Direction,
};
use crate::screen::{
    bullet_list, bullets, dashboard_cards, dialog_panels, is_dashboard, is_dialog, is_pane,
    is_query_pane, line_color, log_viewer_view, panels_view, query_panels, render_devices,
    render_help, render_log_viewer, render_oplog, render_pane, render_peers, render_prompt,
    render_result, render_status, render_tabs, screen_layers, ui, BlockView, Borders, Color, Panel,
    PanelView, Style, Widget, WidgetView, HELP, LOGO,
};
use crate::tab::{InputMode, TabItem};
use crate::text::{decimal, occurs, occurs_at};

verus! {

/// Whether a panel has a frame on all sides under a title, drawn in no colour of its
/// own.
pub open spec fn is_framed(panel: PanelView, title: Seq<char>) -> bool {
    &&& panel.block matches Some(block) && {
        &&& block.title == title
        &&& block.borders == Borders::All
        &&& block.border_style == (Style { fg: None, bg: None, bold: false })
    }
}

/// Whether a panel is a framed table of the given rows under bold cyan headers, with
/// columns of so many hundredths of the width.
pub open spec fn is_table(
    panel: PanelView,
    title: Seq<char>,
    headers: Seq<Seq<char>>,
    hundredths: Seq<u16>,
    rows: Seq<Seq<Seq<char>>>,
) -> bool {
    &&& is_framed(panel, title)
    &&& panel.widget is Table
    &&& panel.widget->headers == headers
    &&& panel.widget->rows == rows
    &&& panel.widget->header_style == (Style { fg: Some(Color::Cyan), bg: None, bold: true })
    &&& panel.widget->widths.len() == hundredths.len()
    &&& forall|i: int|
        0 <= i < hundredths.len() ==> #[trigger] panel.widget->widths[i] == Constraint::Percentage(
            hundredths[i],
        )
}

/// Whether a panel is a framed text in one colour.
pub open spec fn is_text(panel: PanelView, title: Seq<char>, text: Seq<char>, color: Color) -> bool {
    &&& is_framed(panel, title)
    &&& panel.widget == (WidgetView::Text {
        text,
        style: Style { fg: Some(color), bg: None, bold: false },
    })
}

/// What is said of a panel is said of its fields, each under its own name.
pub proof fn law_panels_are_their_fields(panel: Panel<'_>)
    ensures
        panel@.area == panel.area,
        panel@.block is Some <==> panel.block is Some,
        panel.block matches Some(block) ==> {
            &&& panel@.block->0.title == block.title@
            &&& panel@.block->0.borders == block.borders
            &&& panel@.block->0.border_style == block.border_style
        },
        panel.widget is Clear <==> panel@.widget is Clear,
        panel.widget is Tabs <==> panel@.widget is Tabs,
        panel.widget is Text <==> panel@.widget is Text,
        panel.widget is Lines <==> panel@.widget is Lines,
        panel.widget is Table <==> panel@.widget is Table,
        panel.widget matches Widget::Text { text, style } ==> {
            &&& panel@.widget->text == text@
            &&& panel@.widget->Text_style == style
        },
        panel.widget matches Widget::Tabs { titles, selected, style, highlight } ==> {
            &&& panel@.widget->titles.len() == titles@.len()
            &&& forall|i: int|
                0 <= i < titles@.len() ==> #[trigger] panel@.widget->titles[i] == titles@[i]@
            &&& panel@.widget->selected == selected
            &&& panel@.widget->Tabs_style == style
            &&& panel@.widget->highlight == highlight
        },
        panel.widget matches Widget::Lines { lines } ==> {
            &&& panel@.widget->lines.len() == lines@.len()
            &&& forall|i: int|
                0 <= i < lines@.len() ==> (#[trigger] panel@.widget->lines[i]).text
                    == lines@[i].text@ && panel@.widget->lines[i].style == lines@[i].style
        },
        panel.widget matches Widget::Table { headers, header_style, rows, widths } ==> {
            &&& panel@.widget->headers.len() == headers@.len()
            &&& forall|i: int|
                0 <= i < headers@.len() ==> #[trigger] panel@.widget->headers[i] == headers@[i]@
            &&& panel@.widget->header_style == header_style
            &&& same_table(panel@.widget->rows, rows@)
            &&& panel@.widget->widths == widths@
        },
{
}

/// The result pane shows the last query: its error in red, or else a table of its rows
/// under its headers, all columns equally wide and as wide as fits.
pub proof fn law_result_pane<'a>(area: Area, app: &'a App, panel: Panel<'a>)
    requires
        call_ensures(render_result, (area, app), panel),
    ensures
        panel@.area == area,
        app.query_error matches Some(error) ==> is_text(
            panel@,
            " Query Error "@,
            error@,
            Color::Red,
        ),
        app.query_error is None ==> {
            &&& is_framed(panel@, " SQL Results "@)
            &&& panel@.widget is Table
            &&& same_texts(panel@.widget->headers, app.query_headers@)
            &&& same_table(panel@.widget->rows, app.query_results@)
            &&& panel@.widget->header_style == (Style {
                fg: Some(Color::Cyan),
                bg: None,
                bold: true,
            })
            &&& panel@.widget->widths.len() == app.query_headers@.len()
            &&& forall|i: int|
                0 <= i < app.query_headers@.len() ==> {
                    let share = (#[trigger] panel@.widget->widths[i])->Percentage_0;
                    &&& panel@.widget->widths[i] is Percentage
                    &&& share * app.query_headers@.len() <= 100
                    &&& 100 < (share + 1) * app.query_headers@.len()
                }
        },
{
    if app.query_error is None {
        let columns = app.query_headers@.len();
        assert(app@.query_headers.len() == columns);
        if columns > 0 {
            let share = 100int / columns as int;
            assert(0 <= share <= 100 && share * columns <= 100 && 100 < (share + 1) * columns)
                by (nonlinear_arith)
                requires
                    columns > 0,
                    share == 100int / columns as int,
            ;
            assert forall|i: int| 0 <= i < columns implies #[trigger] panel@.widget->widths[i]
                == Constraint::Percentage(share as u16) by {}
        }
    }
}

/// A query that has just finished is shown as it was read: its headers over one row for
/// each row that could be read, in order, with the text of each column.
pub proof fn law_finished_query_is_shown<'a>(
    app: &mut App,
    headers: Vec<String>,
    rows: Vec<Option<Vec<Option<String>>>>,
    area: Area,
    shown: &'a App,
    panel: Panel<'a>,
)
    requires
        call_ensures(App::execute_sql_query, (app, QueryOutcome::Finished { headers, rows }), ()),
        *shown == *final(app),
        call_ensures(render_result, (area, shown), panel),
    ensures
        panel@.widget is Table,
        same_texts(panel@.widget->headers, headers@),
        show_results(panel@.widget->rows, readable(rows@), headers@.len()),
{
    law_query_gives_what_was_read(app, QueryOutcome::Finished { headers, rows });
}

/// The prompt shows what has been typed, in a green frame while it has the keyboard.
pub proof fn law_prompt<'a>(area: Area, app: &'a App, panel: Panel<'a>)
    requires
        call_ensures(render_prompt, (area, app), panel),
    ensures
        panel@.area == area,
        panel@.widget == (WidgetView::Text {
            text: app.query_input@,
            style: Style { fg: None, bg: None, bold: false },
        }),
        panel@.block == Some(
            BlockView {
                title: " SQL Query Prompt [Press Enter to run query, Esc to exit editing] "@,
                borders: Borders::All,
                border_style: Style {
                    fg: if app.input_mode == InputMode::EditingQuery {
                        Some(Color::Green)
                    } else {
                        None
                    },
                    bg: None,
                    bold: false,
                },
            },
        ),
{
    assert(app@.input_mode == app.input_mode);
}

/// The peers, the devices and the operations are each shown as they were loaded, all
/// rows in their order, under the headers of their columns.
pub proof fn law_lists_are_shown<'a>(
    area: Area,
    app: &'a App,
    peers: Panel<'a>,
    devices: Panel<'a>,
    oplog: Panel<'a>,
)
    requires
        call_ensures(render_peers, (area, app), peers),
        call_ensures(render_devices, (area, app), devices),
        call_ensures(render_oplog, (area, app), oplog),
    ensures
        peers@.area == area,
        is_peers(app@, peers@),
        same_table(peers@.widget->rows, app.peers@),
        devices@.area == area,
        is_devices(app@, devices@),
        same_table(devices@.widget->rows, app.devices@),
        oplog@.area == area,
        is_oplog(app@, oplog@),
        same_table(oplog@.widget->rows, app.oplog_entries@),
{
    assert(same_table(app@.peers, app.peers@));
    assert(same_table(app@.devices, app.devices@));
    assert(same_table(app@.oplog_entries, app.oplog_entries@));
}

/// Whether a panel is the table of the peers.
pub open spec fn is_peers(app: AppView, panel: PanelView) -> bool {
    is_table(
        panel,
        " Connected Peers [Press 'a' to add a peer] "@,
        seq!["Peer ID"@, "Multiaddress"@, "Last Seen"@],
        seq![30u16, 50u16, 20u16],
        app.peers,
    )
}

/// Whether a panel is the table of the devices.
pub open spec fn is_devices(app: AppView, panel: PanelView) -> bool {
    is_table(
        panel,
        " Authorized Devices "@,
        seq!["Device ID"@, "Type"@, "Name"@, "Authorized At"@],
        seq![30u16, 20u16, 25u16, 25u16],
        app.devices,
    )
}

/// Whether a panel is the table of the operations.
pub open spec fn is_oplog(app: AppView, panel: PanelView) -> bool {
    is_table(
        panel,
        " Recent Operation Logs (OpLog) "@,
        seq!["Op ID"@, "Table"@, "Operation"@, "Timestamp"@],
        seq![15u16, 35u16, 20u16, 30u16],
        app.oplog_entries,
    )
}

/// What has just been read from the database is what the tables show.
pub proof fn law_loaded_lists_are_shown<'a>(
    app: &mut App,
    status: Status,
    snapshot: Snapshot,
    now: i64,
    area: Area,
    shown: &'a App,
    peers: Panel<'a>,
    devices: Panel<'a>,
    oplog: Panel<'a>,
)
    requires
        call_ensures(App::refresh_data, (app, status, Some(snapshot), now), ()),
        *shown == *final(app),
        call_ensures(render_peers, (area, shown), peers),
        call_ensures(render_devices, (area, shown), devices),
        call_ensures(render_oplog, (area, shown), oplog),
    ensures
        snapshot.peers matches Some(records) ==> show_peers(
            peers@.widget->rows,
            readable(records@),
        ),
        snapshot.devices matches Some(records) ==> show_devices(
            devices@.widget->rows,
            readable(records@),
        ),
        snapshot.oplog matches Some(records) ==> records@.len() <= 50 ==> show_operations(
            oplog@.widget->rows,
            readable(records@),
        ),
{
    law_refresh_replaces_the_lists(app, status, snapshot, now);
    if let Some(records) = snapshot.oplog {
        assert(records@.take(records@.len() as int) == records@);
    }
}

/// The colour of a log line tells the gravest level that it mentions.
pub proof fn law_line_color(line: &str, color: Color)
    requires
        call_ensures(line_color, (line,), color),
    ensures
        tells_level(line@, color),
{
}

/// Whether a colour tells the gravest level that a line mentions: red for an error,
/// yellow for a warning, green for information, blue for debugging, white for none.
pub open spec fn tells_level(line: Seq<char>, color: Color) -> bool {
    let error = occurs(line, "ERROR"@) || occurs(line, "err"@);
    let warning = occurs(line, "WARN"@);
    let info = occurs(line, "INFO"@);
    let debug = occurs(line, "DEBUG"@);
    &&& color is Red <==> error
    &&& color is Yellow <==> warning && !error
    &&& color is Green <==> info && !error && !warning
    &&& color is Blue <==> debug && !error && !warning && !info
    &&& color is White <==> !error && !warning && !info && !debug
}

/// The log viewer shows the lines of the log from the scroll position to the end, each
/// in the colour of its level, under the path of the file.
pub proof fn law_log_viewer<'a>(area: Area, app: &'a App, panel: Panel<'a>)
    requires
        call_ensures(render_log_viewer, (area, app), panel),
    ensures
        panel@.area == area,
        is_log(app@, panel@),
        panel@.widget->lines.len() == if app.log_scroll < app.log_lines@.len() {
            app.log_lines@.len() - app.log_scroll
        } else {
            0
        },
        forall|i: int|
            0 <= i < panel@.widget->lines.len() ==> (#[trigger] panel@.widget->lines[i]).text
                == app.log_lines@[app.log_scroll + i]@,
        is_framed(
            panel@,
            " Live Tail: "@ + app.config.log_file@ + " [Press Up/Down keys to scroll] "@,
        ),
{
    lemma_log(app@, panel@);
    assert(app@.log_lines.len() == app.log_lines@.len());
    assert(app@.log_scroll == app.log_scroll);
    assert forall|i: int| 0 <= i < panel@.widget->lines.len() implies (
    #[trigger] panel@.widget->lines[i]).text == app.log_lines@[app.log_scroll + i]@ by {
        assert(app@.log_lines[app.log_scroll + i] == app.log_lines@[app.log_scroll + i]@);
    }
}

/// Whether a panel is the log viewer.
pub open spec fn is_log(app: AppView, panel: PanelView) -> bool {
    &&& is_framed(
        panel,
        " Live Tail: "@ + app.config.log_file + " [Press Up/Down keys to scroll] "@,
    )
    &&& panel.widget is Lines
    &&& panel.widget->lines.len() == if app.log_scroll < app.log_lines.len() {
        app.log_lines.len() - app.log_scroll
    } else {
        0
    }
    &&& forall|i: int|
        0 <= i < panel.widget->lines.len() ==> {
            let line = #[trigger] panel.widget->lines[i];
            &&& line.text == app.log_lines[app.log_scroll + i]
            &&& line.style.fg matches Some(color) && tells_level(line.text, color)
            &&& line.style.bg is None
            &&& !line.style.bold
        }
}

proof fn lemma_log(app: AppView, panel: PanelView)
    requires
        app.log_scroll >= 0,
        panel == log_viewer_view(app, panel.area),
    ensures
        is_log(app, panel),
{
}

/// The tab bar names the seven tabs in order and highlights the open one.
pub proof fn law_tab_bar<'a>(area: Area, app: &'a App, panel: Panel<'a>)
    requires
        call_ensures(render_tabs, (area, app), panel),
    ensures
        panel@.area == area,
        panel@.block == Some(
            BlockView {
                title: " Ahenk Sync Engine TUI "@,
                borders: Borders::Bottom,
                border_style: Style { fg: None, bg: None, bold: false },
            },
        ),
        panel@.widget is Tabs,
        panel@.widget->titles.len() == 7,
        panel@.widget->titles[panel@.widget->selected] == (match app.active_tab {
            TabItem::Dashboard => " F1 Dashboard "@,
            TabItem::Peers => " F2 Peers "@,
            TabItem::Devices => " F3 Devices "@,
            TabItem::OpLog => " F4 OpLog "@,
            TabItem::DbQuery => " F5 SQL Query "@,
            TabItem::LogViewer => " F6 Log Viewer "@,
            TabItem::Help => " F7 Help "@,
        }),
        panel@.widget->titles == seq![
            " F1 Dashboard "@,
            " F2 Peers "@,
            " F3 Devices "@,
            " F4 OpLog "@,
            " F5 SQL Query "@,
            " F6 Log Viewer "@,
            " F7 Help "@,
        ],
        panel@.widget->Tabs_style == (Style { fg: Some(Color::Cyan), bg: None, bold: false }),
        panel@.widget->highlight == (Style {
            fg: Some(Color::Black),
            bg: Some(Color::Cyan),
            bold: true,
        }),
{
}

/// The status bar says whether the daemon runs, and under which process id, where the
/// database is and how large.
pub proof fn law_status_bar<'a>(area: Area, app: &'a App, megabytes: &str, panel: Panel<'a>)
    requires
        call_ensures(render_status, (area, app, megabytes), panel),
    ensures
        panel@.area == area,
        panel@.block is None,
        panel@.widget is Text,
        panel@.widget->Text_style == (Style {
            fg: Some(Color::White),
            bg: Some(Color::DarkGray),
            bold: false,
        }),
        !app.daemon_running ==> panel@.widget->text == " Daemon Status: Stopped | SQLite DB: "@
            + app.config.db_path@ + " ("@ + megabytes@
            + " MB) | Refreshing automatically (5s) | Press 'q' to quit"@,
        app.daemon_running ==> {
            let pid = decimal(
                if app.daemon_pid is Some {
                    app.daemon_pid->0 as int
                } else {
                    0
                },
            );
            &&& writes(
                pid,
                if app.daemon_pid is Some {
                    app.daemon_pid->0 as int
                } else {
                    0
                },
            )
            &&& panel@.widget->text == " Daemon Status: Running (PID "@ + pid + ") | SQLite DB: "@
                + app.config.db_path@ + " ("@ + megabytes@
                + " MB) | Refreshing automatically (5s) | Press 'q' to quit"@
        },
{
    lemma_decimal_writes(
        if app.daemon_pid is Some {
            app.daemon_pid->0 as int
        } else {
            0
        },
    );
    assert(app@.daemon_running == app.daemon_running);
    assert(app@.config.db_path == app.config.db_path@);
    reveal_strlit(" Daemon Status: ");
    reveal_strlit("Stopped");
    reveal_strlit(" | SQLite DB: ");
    reveal_strlit(" Daemon Status: Stopped | SQLite DB: ");
    reveal_strlit("Running (PID ");
    reveal_strlit(" Daemon Status: Running (PID ");
    reveal_strlit(")");
    reveal_strlit(") | SQLite DB: ");
    assert(" Daemon Status: "@ + "Stopped"@ + " | SQLite DB: "@
        == " Daemon Status: Stopped | SQLite DB: "@);
    assert(" Daemon Status: "@ + "Running (PID "@ == " Daemon Status: Running (PID "@);
    assert(")"@ + " | SQLite DB: "@ == ") | SQLite DB: "@);
    if app.daemon_running {
        let pid = decimal(
            if app.daemon_pid is Some {
                app.daemon_pid->0 as int
            } else {
                0
            },
        );
        assert(" Daemon Status: "@ + ("Running (PID "@ + pid + ")"@) + " | SQLite DB: "@
            == " Daemon Status: Running (PID "@ + pid + ") | SQLite DB: "@);
    }
}

/// Once the status has been looked up, the status bar says what was found: a daemon
/// that was stopped is not said to run, whatever was said before.
pub proof fn law_found_status_is_shown<'a>(
    app: &mut App,
    status: Status,
    database: Option<Snapshot>,
    now: i64,
    area: Area,
    shown: &'a App,
    megabytes: &str,
    panel: Panel<'a>,
)
    requires
        call_ensures(App::refresh_data, (app, status, database, now), ()),
        *shown == *final(app),
        call_ensures(render_status, (area, shown, megabytes), panel),
    ensures
        !status.daemon_running ==> panel@.widget->text
            == " Daemon Status: Stopped | SQLite DB: "@ + shown.config.db_path@ + " ("@
            + megabytes@ + " MB) | Refreshing automatically (5s) | Press 'q' to quit"@,
        status.daemon_running && status.daemon_pid is Some ==> panel@.widget->text
            == " Daemon Status: Running (PID "@ + decimal(status.daemon_pid->0 as int)
            + ") | SQLite DB: "@ + shown.config.db_path@ + " ("@ + megabytes@
            + " MB) | Refreshing automatically (5s) | Press 'q' to quit"@,
{
    law_refresh_takes_over_the_status(app, status, database, now);
    law_status_bar(area, shown, megabytes, panel);
}

/// A list is shown with one item to a line: a list without items says so, a single item
/// makes one line, and every further one adds a line below.
pub proof fn law_bullet_list(items: Seq<Seq<char>>, item: Seq<char>)
    ensures
        bullet_list(Seq::empty()) == "  None configured"@,
        bullet_list(seq![item]) == "  - "@ + item,
        items.len() > 0 ==> bullet_list(items.push(item)) == bullet_list(items) + "\n  - "@ + item,
{
    if items.len() > 0 {
        assert(items.push(item).drop_last() == items);
        reveal_strlit("\n");
        reveal_strlit("  - ");
        reveal_strlit("\n  - ");
        assert("\n"@ + "  - "@ == "\n  - "@);
        assert(bullets(items) + "\n"@ + "  - "@ + item == bullets(items) + "\n  - "@ + item);
    }
}

/// Whether a panel is the card that shows the user, the daemon and the database.
pub open spec fn is_overview(app: AppView, panel: PanelView) -> bool {
    &&& app.config.user is None ==> is_overview_of(app, panel, "Unregistered"@, "N/A"@)
    &&& app.config.user matches Some(user) ==> is_overview_of(app, panel, user.name, user.email)
}

/// Whether a panel is the card that shows a user of the given name and address, the
/// daemon and the database.
pub open spec fn is_overview_of(
    app: AppView,
    panel: PanelView,
    name: Seq<char>,
    email: Seq<char>,
) -> bool {
    let daemon = if app.daemon_running {
        "ACTIVE 🟢"@
    } else {
        "INACTIVE 🔴"@
    };
    let uptime = if app.daemon_uptime is Some {
        decimal(app.daemon_uptime->0 as int) + "s"@
    } else {
        "N/A"@
    };
    is_text(
        panel,
        " Overview "@,
        LOGO@ + "\n\nUser Profile:\n  Name: "@ + name + "\n  Email: "@ + email
            + "\n\nSystem Metrics:\n  Daemon status: "@ + daemon + "\n  Uptime: "@ + uptime
            + "\n  Database size: "@ + decimal(app.db_size_bytes as int) + " bytes"@,
        Color::White,
    )
}

/// Whether a panel is the card that shows the settings.
pub open spec fn is_settings(config: ConfigView, panel: PanelView) -> bool {
    let mdns = if config.sync.enable_mdns {
        "Enabled"@
    } else {
        "Disabled"@
    };
    let relay = if config.sync.enable_relay {
        "Enabled"@
    } else {
        "Disabled"@
    };
    is_text(
        panel,
        " P2P / Network Settings "@,
        "Network settings:\n  Listen port: "@ + decimal(config.network.listen_port)
            + "\n  Listen address: "@ + config.network.listen_address
            + "\n\nSync Engine configurations:\n  mDNS discovery: "@ + mdns
            + "\n  Relay support: "@ + relay + "\n  Heartbeat interval: "@ + decimal(
            config.sync.heartbeat_interval_secs as int,
        ) + "s\n  Max Message Size: "@ + decimal(config.sync.max_message_size as int)
            + " bytes\n\nBootstrap Nodes:\n"@ + bullet_list(config.network.bootstrap_nodes)
            + "\n\nRelay Servers:\n"@ + bullet_list(config.network.relay_servers),
        Color::Yellow,
    )
}

/// Whether a panel is the SQL prompt.
pub open spec fn is_prompt(app: AppView, panel: PanelView) -> bool {
    &&& panel.widget == (WidgetView::Text {
        text: app.query_input,
        style: Style { fg: None, bg: None, bold: false },
    })
    &&& panel.block == Some(
        BlockView {
            title: " SQL Query Prompt [Press Enter to run query, Esc to exit editing] "@,
            borders: Borders::All,
            border_style: Style {
                fg: if app.input_mode == InputMode::EditingQuery {
                    Some(Color::Green)
                } else {
                    None
                },
                bg: None,
                bold: false,
            },
        },
    )
}

/// Whether a panel shows how the last query ended.
pub open spec fn is_result(app: AppView, panel: PanelView) -> bool {
    match app.query_error {
        Some(error) => is_text(panel, " Query Error "@, error, Color::Red),
        None => {
            &&& is_framed(panel, " SQL Results "@)
            &&& panel.widget is Table
            &&& panel.widget->headers == app.query_headers
            &&& panel.widget->rows == app.query_results
        },
    }
}

/// Whether two panels are the dialog: a wiped area, and on it the text that has been
/// typed so far, in a green frame.
pub open spec fn is_dialog_box(app: AppView, wiped: PanelView, dialog: PanelView) -> bool {
    &&& wiped.widget is Clear
    &&& dialog.area == wiped.area
    &&& dialog.block == Some(
        BlockView {
            title: " Add Multiaddress Peer "@,
            borders: Borders::All,
            border_style: Style { fg: Some(Color::Green), bg: None, bold: false },
        },
    )
    &&& dialog.widget == (WidgetView::Text {
        text: "\nEnter Peer Multiaddress:\n(e.g., /ip4/127.0.0.1/tcp/49293/p2p/Qm...)\n\n> "@
            + app.generic_input + "\n\n[Press Enter to confirm, Esc to close]"@,
        style: Style { fg: Some(Color::White), bg: None, bold: false },
    })
}

/// The dashboard shows the user, the daemon and the database on its left card, and the
/// settings on its right one.
pub proof fn law_cards<'a>(left: Area, right: Area, app: &'a App, panels: Vec<Panel<'a>>)
    requires
        call_ensures(dashboard_cards, (left, right, app), panels),
    ensures
        panels@.len() == 2,
        panels@[0]@.area == left,
        is_overview(app@, panels@[0]@),
        panels@[1]@.area == right,
        is_settings(app@.config, panels@[1]@),
{
    let shown = panels_view(panels@);
    assert(shown.len() == panels@.len());
    assert(shown[0] == panels@[0]@ && shown[1] == panels@[1]@);
}

/// The dialog shows what has been typed so far, over a wiped area.
pub proof fn law_dialog_box<'a>(area: Area, app: &'a App, panels: Vec<Panel<'a>>)
    requires
        call_ensures(dialog_panels, (area, app), panels),
    ensures
        panels@.len() == 2,
        panels@[0]@.area == area,
        is_dialog_box(app@, panels@[0]@, panels@[1]@),
{
    let shown = panels_view(panels@);
    assert(shown.len() == panels@.len());
    assert(shown[0] == panels@[0]@ && shown[1] == panels@[1]@);
}

/// The help pane shows the help text.
pub proof fn law_help_pane<'a>(area: Area, panel: Panel<'a>)
    requires
        call_ensures(render_help, (area,), panel),
    ensures
        panel@.area == area,
        is_text(panel@, " Controls & Help "@, HELP@, Color::White),
{
}

/// The SQL pane shows the prompt and then the result.
pub proof fn law_query_panels<'a>(prompt: Area, result: Area, app: &'a App, panels: Vec<Panel<'a>>)
    requires
        call_ensures(query_panels, (prompt, result, app), panels),
    ensures
        panels@.len() == 2,
        panels@[0]@.area == prompt,
        is_prompt(app@, panels@[0]@),
        panels@[1]@.area == result,
        is_result(app@, panels@[1]@),
{
    let shown = panels_view(panels@);
    assert(shown.len() == panels@.len());
    assert(shown[0] == panels@[0]@ && shown[1] == panels@[1]@);
}

/// Whether the panels show the open tab and nothing else.
pub open spec fn show_tab(app: AppView, panels: Seq<PanelView>) -> bool {
    match app.active_tab {
        TabItem::Dashboard => {
            &&& panels.len() == 2
            &&& is_overview(app, panels[0])
            &&& is_settings(app.config, panels[1])
        },
        TabItem::Peers => panels.len() == 1 && is_peers(app, panels[0]),
        TabItem::Devices => panels.len() == 1 && is_devices(app, panels[0]),
        TabItem::OpLog => panels.len() == 1 && is_oplog(app, panels[0]),
        TabItem::DbQuery => {
            &&& panels.len() == 2
            &&& is_prompt(app, panels[0])
            &&& is_result(app, panels[1])
        },
        TabItem::LogViewer => panels.len() == 1 && is_log(app, panels[0]),
        TabItem::Help => panels.len() == 1 && is_text(
            panels[0],
            " Controls & Help "@,
            HELP@,
            Color::White,
        ),
    }
}

proof fn lemma_pane(app: AppView, area: Area, panels: Seq<PanelView>)
    requires
        app.log_scroll >= 0,
        is_pane(app, area, panels),
    ensures
        show_tab(app, panels),
{
    match app.active_tab {
        TabItem::Dashboard => {
            assert(is_dashboard(app, area, panels));
        },
        TabItem::DbQuery => {
            assert(is_query_pane(app, area, panels));
        },
        TabItem::LogViewer => {
            assert(panels[0].area == area);
            lemma_log(app, panels[0]);
        },
        _ => {},
    }
}

/// The pane shows the open tab.
pub proof fn law_pane_shows_the_open_tab<'a>(area: Area, app: &'a App, panels: Vec<Panel<'a>>)
    requires
        call_ensures(render_pane, (area, app), panels),
    ensures
        show_tab(app@, panels_view(panels@)),
{
    lemma_pane(app@, area, panels_view(panels@));
}

/// The screen shows the tab bar, the open tab and the status bar, and over them the
/// dialog exactly if it is open.
pub proof fn law_screen_shows_the_open_tab<'a>(
    screen: Area,
    app: &'a App,
    megabytes: &str,
    panels: Vec<Panel<'a>>,
)
    requires
        call_ensures(ui, (screen, app, megabytes), panels),
    ensures
        ({
            let shown = panels_view(panels@);
            let status = shown.len() - (if app.show_dialog {
                3int
            } else {
                1int
            });
            &&& status >= 2
            &&& shown[0].widget is Tabs
            &&& show_tab(app@, shown.subrange(1, status))
            &&& shown[status].block is None
            &&& shown[status].widget is Text
            &&& app.show_dialog ==> is_dialog_box(app@, shown[status + 1], shown[status + 2])
        }),
{
    let shown = panels_view(panels@);
    let (rows, pane, dialog) = lemma_screen_parts(app@, megabytes@, screen, shown);
    lemma_pane(app@, rows[1], pane);
    let status = pane.len() as int + 1;
    if app.show_dialog {
        assert(is_dialog(app@, screen, dialog));
        assert(dialog.len() == 2);
        assert(shown[status + 1] == dialog[0] && shown[status + 2] == dialog[1]);
    }
    assert(shown.subrange(1, status) == pane);
}

/// The layers come in the order in which they are drawn: the tab bar, the pane, the
/// status bar and whatever lies over them, each where it belongs.
pub proof fn law_layers_come_in_order<'a>(
    app: &'a App,
    megabytes: &str,
    tabs: Area,
    pane: Vec<Panel<'a>>,
    status: Area,
    dialog: Vec<Panel<'a>>,
    panels: Vec<Panel<'a>>,
)
    requires
        call_ensures(screen_layers, (app, megabytes, tabs, pane, status, dialog), panels),
    ensures
        ({
            let shown = panels_view(panels@);
            let below = pane@.len() as int + 1;
            &&& shown.len() == below + 1 + dialog@.len()
            &&& shown[0].area == tabs
            &&& shown[0].widget is Tabs
            &&& shown.subrange(1, below) == panels_view(pane@)
            &&& shown[below].area == status
            &&& shown[below].widget is Text
            &&& shown.skip(below + 1) == panels_view(dialog@)
        }),
{
    let shown = panels_view(panels@);
    let below = pane@.len() as int + 1;
    assert(panels_view(pane@).len() == pane@.len());
    assert(panels_view(dialog@).len() == dialog@.len());
    assert(shown.subrange(1, below) == panels_view(pane@));
    assert(shown.skip(below + 1) == panels_view(dialog@));
}

/// A centred rectangle is within one cell of the hundredths asked for, of the width and
/// of the height, and lies inside the area.
pub proof fn law_centered_rect(percent_x: u16, percent_y: u16, area: Area, inner: Area)
    requires
        percent_x <= 100,
        percent_y <= 100,
        call_ensures(centered_rect, (percent_x, percent_y, area), inner),
    ensures
        -100 <= 100 * inner.width - percent_x * room(Direction::Horizontal, area) <= 100,
        -100 <= 100 * inner.height - percent_y * room(Direction::Vertical, area) <= 100,
        area.x <= inner.x,
        inner.x + inner.width <= area.x + area.width,
        area.y <= inner.y,
        inner.y + inner.height <= area.y + area.height,
        percent_x % 2 == 0 ==> -1 <= (inner.x - area.x) - (area.x + room(Direction::Horizontal, area)
            - inner.x - inner.width) <= 1,
        percent_y % 2 == 0 ==> -1 <= (inner.y - area.y) - (area.y + room(Direction::Vertical, area)
            - inner.y - inner.height) <= 1,
{
    law_middle_is_centered(Direction::Horizontal, percent_x as int, area, inner);
    law_middle_is_centered(Direction::Vertical, percent_y as int, area, inner);
}

/// An area that is divided in two by percentages gives each part, in order, its own
/// hundredths to within one cell. Divided by a length and a least length that fit, it
/// gives the one its length and the other what is left.
pub proof fn law_split_in_two(
    direction: Direction,
    first: Constraint,
    second: Constraint,
    area: Area,
    parts: (Area, Area),
)
    requires
        call_ensures(split_in_two, (direction, first, second, area), parts),
    ensures
        lies_in(area, parts.0) && lies_in(area, parts.1),
        start(direction, parts.0) + size(direction, parts.0) <= start(direction, parts.1),
        first is Percentage && second is Percentage && first->Percentage_0 + second->Percentage_0
            <= 100 ==> {
            &&& start(direction, parts.0) == start(direction, area)
            &&& start(direction, parts.1) == start(direction, parts.0) + size(direction, parts.0)
            &&& -100 <= 100 * size(direction, parts.0) - first->Percentage_0 * room(direction, area)
                <= 100
            &&& -100 <= 100 * size(direction, parts.1) - second->Percentage_0 * room(direction, area)
                <= 100
        },
        first is Length && second is Min && first->Length_0 + second->Min_0 <= room(direction, area)
            ==> {
            &&& start(direction, parts.0) == start(direction, area)
            &&& size(direction, parts.0) == first->Length_0
            &&& start(direction, parts.1) == start(direction, parts.0) + size(direction, parts.0)
            &&& size(direction, parts.1) == room(direction, area) - first->Length_0
        },
{
    let constraints = seq![first, second];
    let shown = seq![parts.0, parts.1];
    assert(lies_in(area, shown[0]) && lies_in(area, shown[1]));
    assert(precedes(direction, shown[0], shown[1]));
    reveal_with_fuel(amounts, 3);
    if first is Percentage && second is Percentage && first->Percentage_0 + second->Percentage_0
        <= 100 {
        assert(percentages_fit(constraints));
        law_percentages_are_met(direction, constraints, area, shown, 0);
        law_percentages_are_met(direction, constraints, area, shown, 1);
        assert(share(0, room(direction, area)) == 0) by (nonlinear_arith);
        assert(start(direction, shown[0]) == start(direction, area) && start(direction, shown[1])
            == start(direction, shown[0]) + size(direction, shown[0]));
    }
    if first is Length && second is Min && first->Length_0 + second->Min_0 <= room(direction, area) {
        assert(constraints[1] is Min);
        assert(lengths_fit(constraints, room(direction, area)));
        assert(shown.last() == shown[1]);
        assert(size(direction, shown[0]) == first->Length_0);
        assert(start(direction, shown[1]) == start(direction, shown[0]) + size(direction, shown[0]));
    }
}

/// An area that is divided in three by percentages gives each part, in order, its own
/// hundredths to within one cell. Divided by a least length between two lengths that
/// fit, it gives the outer ones their lengths and the middle what is left.
pub proof fn law_split_in_three(
    direction: Direction,
    first: Constraint,
    second: Constraint,
    third: Constraint,
    area: Area,
    parts: (Area, Area, Area),
)
    requires
        call_ensures(split_in_three, (direction, first, second, third, area), parts),
    ensures
        lies_in(area, parts.0) && lies_in(area, parts.1) && lies_in(area, parts.2),
        start(direction, parts.0) + size(direction, parts.0) <= start(direction, parts.1),
        start(direction, parts.1) + size(direction, parts.1) <= start(direction, parts.2),
        first is Percentage && second is Percentage && third is Percentage && first->Percentage_0
            + second->Percentage_0 + third->Percentage_0 <= 100 ==> {
            &&& start(direction, parts.0) == start(direction, area)
            &&& -100 <= 100 * size(direction, parts.0) - first->Percentage_0 * room(direction, area)
                <= 100
            &&& -100 <= 100 * size(direction, parts.1) - second->Percentage_0 * room(direction, area)
                <= 100
            &&& -100 <= 100 * size(direction, parts.2) - third->Percentage_0 * room(direction, area)
                <= 100
        },
        first is Length && second is Min && third is Length && first->Length_0 + second->Min_0
            + third->Length_0 <= room(direction, area) ==> {
            &&& start(direction, parts.0) == start(direction, area)
            &&& size(direction, parts.0) == first->Length_0
            &&& start(direction, parts.1) == start(direction, parts.0) + size(direction, parts.0)
            &&& size(direction, parts.1) == room(direction, area) - first->Length_0
                - third->Length_0
            &&& start(direction, parts.2) == start(direction, parts.1) + size(direction, parts.1)
            &&& size(direction, parts.2) == third->Length_0
        },
{
    let constraints = seq![first, second, third];
    let shown = seq![parts.0, parts.1, parts.2];
    assert(lies_in(area, shown[0]) && lies_in(area, shown[1]) && lies_in(area, shown[2]));
    assert(precedes(direction, shown[0], shown[1]));
    assert(precedes(direction, shown[1], shown[2]));
    reveal_with_fuel(amounts, 4);
    if first is Percentage && second is Percentage && third is Percentage && first->Percentage_0
        + second->Percentage_0 + third->Percentage_0 <= 100 {
        assert(percentages_fit(constraints));
        law_percentages_are_met(direction, constraints, area, shown, 0);
        law_percentages_are_met(direction, constraints, area, shown, 1);
        law_percentages_are_met(direction, constraints, area, shown, 2);
        assert(share(0, room(direction, area)) == 0) by (nonlinear_arith);
        assert(start(direction, shown[0]) == start(direction, area));
    }
    if first is Length && second is Min && third is Length && first->Length_0 + second->Min_0
        + third->Length_0 <= room(direction, area) {
        assert(constraints[1] is Min);
        assert(lengths_fit(constraints, room(direction, area)));
        assert(shown.last() == shown[2]);
        assert(size(direction, shown[0]) == first->Length_0);
        assert(size(direction, shown[2]) == third->Length_0);
        assert(start(direction, shown[1]) == start(direction, shown[0]) + size(direction, shown[0]));
        assert(start(direction, shown[2]) == start(direction, shown[1]) + size(direction, shown[1]));
    }
}

/// The help text names every key that does something, with what it does.
pub proof fn law_help_names_the_keys()
    ensures
        occurs(HELP@, "[F1]        Go to Dashboard Panel"@),
        occurs(HELP@, "[F2]        Go to Peers Panel"@),
        occurs(HELP@, "[F3]        Go to Devices Panel"@),
        occurs(HELP@, "[F4]        Go to Oplog Panel"@),
        occurs(HELP@, "[F5]        Go to SQL Editor"@),
        occurs(HELP@, "[F6]        Go to Log Viewer"@),
        occurs(HELP@, "[F7]        Show this Help Panel"@),
        occurs(HELP@, "Press [a] to bring up dialog, input Multiaddress, and press Enter to save."@),
        occurs(HELP@, "Press [Enter] to run. Press [Esc] to exit insert mode."@),
        occurs(HELP@, "Press [Up Arrow] or [Down Arrow] keys to scroll log output."@),
        occurs(HELP@, "Press [r] to force refresh all panels manually."@),
        occurs(HELP@, "Press [q] to quit TUI app immediately."@),
{
    reveal_strlit(
        "
    AHENK SYNC ENGINE TERMINAL USER INTERFACE
    -------------------------------------------
    
    Keyboard Controls:
    
    [F1]        Go to Dashboard Panel (Overview & Networking Configs)
    [F2]        Go to Peers Panel (View & add multiaddress peers)
    [F3]        Go to Devices Panel (List authorized devices)
    [F4]        Go to Oplog Panel (Watch database changes feed)
    [F5]        Go to SQL Editor (Run SQLite queries interactively)
    [F6]        Go to Log Viewer (Tail and scroll log file output)
    [F7]        Show this Help Panel
    
    Panel-specific controls:
    
    - In Peers Panel:
      Press [a] to bring up dialog, input Multiaddress, and press Enter to save.
      
    - In SQL Editor:
      Type SQL queries directly. Press [Enter] to run. Press [Esc] to exit insert mode.
      
    - In Log Viewer:
      Press [Up Arrow] or [Down Arrow] keys to scroll log output.
      
    Global commands:
    - Press [r] to force refresh all panels manually.
    - Press [q] to quit TUI app immediately.
    
    ",
    );
    reveal_strlit("[F1]        Go to Dashboard Panel");
    assert(HELP@.subrange(132, 165) == "[F1]        Go to Dashboard Panel"@);
    assert(occurs_at(HELP@, "[F1]        Go to Dashboard Panel"@, 132));
    reveal_strlit("[F2]        Go to Peers Panel");
    assert(HELP@.subrange(202, 231) == "[F2]        Go to Peers Panel"@);
    assert(occurs_at(HELP@, "[F2]        Go to Peers Panel"@, 202));
    reveal_strlit("[F3]        Go to Devices Panel");
    assert(HELP@.subrange(268, 299) == "[F3]        Go to Devices Panel"@);
    assert(occurs_at(HELP@, "[F3]        Go to Devices Panel"@, 268));
    reveal_strlit("[F4]        Go to Oplog Panel");
    assert(HELP@.subrange(330, 359) == "[F4]        Go to Oplog Panel"@);
    assert(occurs_at(HELP@, "[F4]        Go to Oplog Panel"@, 330));
    reveal_strlit("[F5]        Go to SQL Editor");
    assert(HELP@.subrange(394, 422) == "[F5]        Go to SQL Editor"@);
    assert(occurs_at(HELP@, "[F5]        Go to SQL Editor"@, 394));
    reveal_strlit("[F6]        Go to Log Viewer");
    assert(HELP@.subrange(462, 490) == "[F6]        Go to Log Viewer"@);
    assert(occurs_at(HELP@, "[F6]        Go to Log Viewer"@, 462));
    reveal_strlit("[F7]        Show this Help Panel");
    assert(HELP@.subrange(529, 561) == "[F7]        Show this Help Panel"@);
    assert(occurs_at(HELP@, "[F7]        Show this Help Panel"@, 529));
    reveal_strlit("Press [a] to bring up dialog, input Multiaddress, and press Enter to save.");
    assert(HELP@.subrange(629, 703) == "Press [a] to bring up dialog, input Multiaddress, and press Enter to save."@);
    assert(occurs_at(HELP@, "Press [a] to bring up dialog, input Multiaddress, and press Enter to save."@, 629));
    reveal_strlit("Press [Enter] to run. Press [Esc] to exit insert mode.");
    assert(HELP@.subrange(765, 819) == "Press [Enter] to run. Press [Esc] to exit insert mode."@);
    assert(occurs_at(HELP@, "Press [Enter] to run. Press [Esc] to exit insert mode."@, 765));
    reveal_strlit("Press [Up Arrow] or [Down Arrow] keys to scroll log output.");
    assert(HELP@.subrange(854, 913) == "Press [Up Arrow] or [Down Arrow] keys to scroll log output."@);
    assert(occurs_at(HELP@, "Press [Up Arrow] or [Down Arrow] keys to scroll log output."@, 854));
    reveal_strlit("Press [r] to force refresh all panels manually.");
    assert(HELP@.subrange(948, 995) == "Press [r] to force refresh all panels manually."@);
    assert(occurs_at(HELP@, "Press [r] to force refresh all panels manually."@, 948));
    reveal_strlit("Press [q] to quit TUI app immediately.");
    assert(HELP@.subrange(1002, 1040) == "Press [q] to quit TUI app immediately."@);
    assert(occurs_at(HELP@, "Press [q] to quit TUI app immediately."@, 1002));
}

} // verus!
