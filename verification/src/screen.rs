//! What the screen shows, as a list of panels to draw one over the other.

use vstd::prelude::*;

use crate::app::{App, AppView};
use crate::config::ConfigView;
use crate::layout::{
    centered_rect, divides, is_centered, split_in_three, split_in_two, Area, Constraint, Direction,
};
use crate::tab::{InputMode, TabItem};
use crate::text::{contains, decimal, decimal_i64, decimal_u64, grid, occurs, texts};

verus! {

/// The colours in use.
#[derive(Debug, Clone, Copy, PartialEq, Eq, Structural)]
pub enum Color {
    Black,
    Red,
    Green,
    Yellow,
    Blue,
    Cyan,
    DarkGray,
    White,
}

/// How text is drawn; what is absent is left as it is.
#[derive(Debug, Clone, Copy, PartialEq, Eq, Structural)]
pub struct Style {
    pub fg: Option<Color>,
    pub bg: Option<Color>,
    pub bold: bool,
}

/// Which sides of a panel have a border.
#[derive(Debug, Clone, Copy, PartialEq, Eq, Structural)]
pub enum Borders {
    Bottom,
    All,
}

/// The frame of a panel.
#[derive(Debug)]
pub struct Block {
    pub title: String,
    pub borders: Borders,
    pub border_style: Style,
}

/// A line of text in one style.
#[derive(Debug)]
pub struct Line<'a> {
    pub text: &'a str,
    pub style: Style,
}

/// What a panel shows.
#[derive(Debug)]
pub enum Widget<'a> {
    /// Nothing: what was drawn there before is wiped off.
    Clear,
    /// A bar of tabs, one of them highlighted.
    Tabs { titles: Vec<&'a str>, selected: usize, style: Style, highlight: Style },
    /// A text, with its line breaks.
    Text { text: String, style: Style },
    /// Lines, each in its own style.
    Lines { lines: Vec<Line<'a>> },
    /// A table under a line of headers.
    Table {
        headers: Vec<&'a str>,
        header_style: Style,
        rows: &'a Vec<Vec<String>>,
        widths: Vec<Constraint>,
    },
}

/// Something to draw in a part of the screen.
#[derive(Debug)]
pub struct Panel<'a> {
    pub area: Area,
    pub block: Option<Block>,
    pub widget: Widget<'a>,
}

/// What a [`Block`] holds.
pub struct BlockView {
    pub title: Seq<char>,
    pub borders: Borders,
    pub border_style: Style,
}

/// What a [`Line`] holds.
pub struct LineView {
    pub text: Seq<char>,
    pub style: Style,
}

/// What a [`Widget`] holds.
pub enum WidgetView {
    Clear,
    Tabs { titles: Seq<Seq<char>>, selected: int, style: Style, highlight: Style },
    Text { text: Seq<char>, style: Style },
    Lines { lines: Seq<LineView> },
    Table {
        headers: Seq<Seq<char>>,
        header_style: Style,
        rows: Seq<Seq<Seq<char>>>,
        widths: Seq<Constraint>,
    },
}

/// What a [`Panel`] holds.
pub struct PanelView {
    pub area: Area,
    pub block: Option<BlockView>,
    pub widget: WidgetView,
}

/// The texts that a list of string slices holds.
pub open spec fn labels(strings: Seq<&str>) -> Seq<Seq<char>> {
    strings.map_values(|s: &str| s@)
}

impl View for Block {
    type V = BlockView;

    open spec fn view(&self) -> BlockView {
        BlockView { title: self.title@, borders: self.borders, border_style: self.border_style }
    }
}

impl<'a> View for Line<'a> {
    type V = LineView;

    open spec fn view(&self) -> LineView {
        LineView { text: self.text@, style: self.style }
    }
}

impl<'a> View for Widget<'a> {
    type V = WidgetView;

    open spec fn view(&self) -> WidgetView {
        match *self {
            Widget::Clear => WidgetView::Clear,
            Widget::Tabs { titles, selected, style, highlight } => WidgetView::Tabs {
                titles: labels(titles@),
                selected: selected as int,
                style,
                highlight,
            },
            Widget::Text { text, style } => WidgetView::Text { text: text@, style },
            Widget::Lines { lines } => WidgetView::Lines {
                lines: lines@.map_values(|l: Line<'a>| l@),
            },
            Widget::Table { headers, header_style, rows, widths } => WidgetView::Table {
                headers: labels(headers@),
                header_style,
                rows: grid(rows@),
                widths: widths@,
            },
        }
    }
}

impl<'a> View for Panel<'a> {
    type V = PanelView;

    open spec fn view(&self) -> PanelView {
        PanelView {
            area: self.area,
            block: match self.block {
                Some(block) => Some(block@),
                None => None,
            },
            widget: self.widget@,
        }
    }
}

/// What a list of panels holds.
pub open spec fn panels_view(panels: Seq<Panel<'_>>) -> Seq<PanelView> {
    panels.map_values(|p: Panel<'_>| p@)
}

/// Text drawn as what lies under it.
pub open spec fn plain() -> Style {
    Style { fg: None, bg: None, bold: false }
}

/// Text in one colour.
pub open spec fn colored(color: Color) -> Style {
    Style { fg: Some(color), bg: None, bold: false }
}

/// Table headers: bold and cyan.
pub open spec fn header_style() -> Style {
    Style { fg: Some(Color::Cyan), bg: None, bold: true }
}

/// A frame on all sides under a title.
pub open spec fn framed(title: Seq<char>) -> BlockView {
    BlockView { title, borders: Borders::All, border_style: plain() }
}

fn plain_style() -> (style: Style)
    ensures
        style == plain(),
{
    Style { fg: None, bg: None, bold: false }
}

fn colored_style(color: Color) -> (style: Style)
    ensures
        style == colored(color),
{
    Style { fg: Some(color), bg: None, bold: false }
}

fn frame(title: &str) -> (block: Block)
    ensures
        block@ == framed(title@),
{
    Block { title: title.to_owned(), borders: Borders::All, border_style: plain_style() }
}

/// The tab bar.
pub open spec fn tabs_view(app: AppView, area: Area) -> PanelView {
    PanelView {
        area,
        block: Some(
            BlockView {
                title: " Ahenk Sync Engine TUI "@,
                borders: Borders::Bottom,
                border_style: plain(),
            },
        ),
        widget: WidgetView::Tabs {
            titles: seq![
                " F1 Dashboard "@,
                " F2 Peers "@,
                " F3 Devices "@,
                " F4 OpLog "@,
                " F5 SQL Query "@,
                " F6 Log Viewer "@,
                " F7 Help "@,
            ],
            selected: app.active_tab.position(),
            style: colored(Color::Cyan),
            highlight: Style { fg: Some(Color::Black), bg: Some(Color::Cyan), bold: true },
        },
    }
}

/// The tab bar, with the open tab highlighted.
pub fn render_tabs<'a>(area: Area, app: &'a App) -> (panel: Panel<'a>)
    ensures
        panel@ == tabs_view(app@, area),
{
    let titles = vec![
        " F1 Dashboard ",
        " F2 Peers ",
        " F3 Devices ",
        " F4 OpLog ",
        " F5 SQL Query ",
        " F6 Log Viewer ",
        " F7 Help ",
    ];
    assert(labels(titles@) == tabs_view(app@, area).widget->titles);
    Panel {
        area,
        block: Some(
            Block {
                title: " Ahenk Sync Engine TUI ".to_owned(),
                borders: Borders::Bottom,
                border_style: plain_style(),
            },
        ),
        widget: Widget::Tabs {
            titles,
            selected: app.active_tab.index(),
            style: colored_style(Color::Cyan),
            highlight: Style { fg: Some(Color::Black), bg: Some(Color::Cyan), bold: true },
        },
    }
}

/// What the status bar says of the daemon.
pub open spec fn daemon_text(app: AppView) -> Seq<char> {
    if app.daemon_running {
        "Running (PID "@ + decimal(
            match app.daemon_pid {
                Some(pid) => pid as int,
                None => 0,
            },
        ) + ")"@
    } else {
        "Stopped"@
    }
}

/// The status bar; `megabytes` is the size of the database as text.
pub open spec fn status_view(app: AppView, megabytes: Seq<char>, area: Area) -> PanelView {
    PanelView {
        area,
        block: None,
        widget: WidgetView::Text {
            text: " Daemon Status: "@ + daemon_text(app) + " | SQLite DB: "@ + app.config.db_path
                + " ("@ + megabytes
                + " MB) | Refreshing automatically (5s) | Press 'q' to quit"@,
            style: Style { fg: Some(Color::White), bg: Some(Color::DarkGray), bold: false },
        },
    }
}

/// The status bar; `megabytes` is the size of the database as text.
pub fn render_status<'a>(area: Area, app: &'a App, megabytes: &str) -> (panel: Panel<'a>)
    ensures
        panel@ == status_view(app@, megabytes@, area),
{
    let daemon = if app.daemon_running {
        let mut text = "Running (PID ".to_owned();
        let pid: i32 = app.daemon_pid.unwrap_or(0);
        text.append(decimal_i64(pid as i64).as_str());
        text.append(")");
        text
    } else {
        "Stopped".to_owned()
    };
    let mut text = " Daemon Status: ".to_owned();
    text.append(daemon.as_str());
    text.append(" | SQLite DB: ");
    text.append(app.config.db_path.as_str());
    text.append(" (");
    text.append(megabytes);
    text.append(" MB) | Refreshing automatically (5s) | Press 'q' to quit");
    Panel {
        area,
        block: None,
        widget: Widget::Text {
            text,
            style: Style { fg: Some(Color::White), bg: Some(Color::DarkGray), bold: false },
        },
    }
}

/// The name of the engine in large letters.
pub const LOGO: &'static str = "
    █████╗ ██╗  ██╗███████╗███╗   ██╗██╗  ██╗
   ██╔══██╗██║  ██║██╔════╝████╗  ██║██║  ██║
   ███████║███████║█████╗  ██╔██╗ ██║███████║
   ██╔══██║██╔══██║██╔══╝  ██║╚██╗██║██╔══██║
   ██║  ██║██║  ██║███████╗██║ ╚████║██║  ██║
   ╚═╝  ╚═╝╚═╝  ╚═╝╚══════╝╚═╝  ╚═══╝╚═╝  ╚═╝
  CROSS-PLATFORM P2P DATABASE SYNCHRONIZATION
    ";

/// The name of the registered user.
pub open spec fn user_name(config: ConfigView) -> Seq<char> {
    match config.user {
        Some(user) => user.name,
        None => "Unregistered"@,
    }
}

/// The email address of the registered user.
pub open spec fn user_email(config: ConfigView) -> Seq<char> {
    match config.user {
        Some(user) => user.email,
        None => "N/A"@,
    }
}

/// The left card of the dashboard: who the user is and how the engine does.
pub open spec fn overview_text(app: AppView) -> Seq<char> {
    LOGO@ + "\n\nUser Profile:\n  Name: "@ + user_name(app.config) + "\n  Email: "@ + user_email(
        app.config,
    ) + "\n\nSystem Metrics:\n  Daemon status: "@ + (if app.daemon_running {
        "ACTIVE 🟢"@
    } else {
        "INACTIVE 🔴"@
    }) + "\n  Uptime: "@ + (match app.daemon_uptime {
        Some(seconds) => decimal(seconds as int) + "s"@,
        None => "N/A"@,
    }) + "\n  Database size: "@ + decimal(app.db_size_bytes as int) + " bytes"@
}

/// A list with one item to a line.
pub open spec fn bullets(items: Seq<Seq<char>>) -> Seq<char>
    decreases items.len(),
{
    if items.len() == 0 {
        Seq::empty()
    } else if items.len() == 1 {
        "  - "@ + items[0]
    } else {
        bullets(items.drop_last()) + "\n"@ + "  - "@ + items.last()
    }
}

/// A list with one item to a line, or a line that says that it is empty.
pub open spec fn bullet_list(items: Seq<Seq<char>>) -> Seq<char> {
    if items.len() == 0 {
        "  None configured"@
    } else {
        bullets(items)
    }
}

/// Whether something is switched on.
pub open spec fn switch_text(on: bool) -> Seq<char> {
    if on {
        "Enabled"@
    } else {
        "Disabled"@
    }
}

/// The right card of the dashboard: the network settings.
pub open spec fn settings_text(config: ConfigView) -> Seq<char> {
    "Network settings:\n  Listen port: "@ + decimal(config.network.listen_port)
        + "\n  Listen address: "@ + config.network.listen_address
        + "\n\nSync Engine configurations:\n  mDNS discovery: "@ + switch_text(
        config.sync.enable_mdns,
    ) + "\n  Relay support: "@ + switch_text(config.sync.enable_relay)
        + "\n  Heartbeat interval: "@ + decimal(config.sync.heartbeat_interval_secs as int)
        + "s\n  Max Message Size: "@ + decimal(config.sync.max_message_size as int)
        + " bytes\n\nBootstrap Nodes:\n"@ + bullet_list(config.network.bootstrap_nodes)
        + "\n\nRelay Servers:\n"@ + bullet_list(config.network.relay_servers)
}

/// The two cards of the dashboard.
pub open spec fn dashboard_view(app: AppView, left: Area, right: Area) -> Seq<PanelView> {
    seq![
        PanelView {
            area: left,
            block: Some(framed(" Overview "@)),
            widget: WidgetView::Text { text: overview_text(app), style: colored(Color::White) },
        },
        PanelView {
            area: right,
            block: Some(framed(" P2P / Network Settings "@)),
            widget: WidgetView::Text {
                text: settings_text(app.config),
                style: colored(Color::Yellow),
            },
        },
    ]
}

fn overview(app: &App) -> (text: String)
    ensures
        text@ == overview_text(app@),
{
    let mut text = LOGO.to_owned();
    text.append("\n\nUser Profile:\n  Name: ");
    match &app.config.user {
        Some(user) => text.append(user.name.as_str()),
        None => text.append("Unregistered"),
    }
    text.append("\n  Email: ");
    match &app.config.user {
        Some(user) => text.append(user.email.as_str()),
        None => text.append("N/A"),
    }
    text.append("\n\nSystem Metrics:\n  Daemon status: ");
    text.append(if app.daemon_running { "ACTIVE 🟢" } else { "INACTIVE 🔴" });
    text.append("\n  Uptime: ");
    let uptime = match app.daemon_uptime {
        Some(seconds) => {
            let mut uptime = decimal_u64(seconds);
            uptime.append("s");
            uptime
        },
        None => "N/A".to_owned(),
    };
    text.append(uptime.as_str());
    text.append("\n  Database size: ");
    text.append(decimal_u64(app.db_size_bytes).as_str());
    text.append(" bytes");
    text
}

fn list_items(items: &Vec<String>) -> (text: String)
    ensures
        text@ == bullet_list(texts(items@)),
{
    if items.len() == 0 {
        return "  None configured".to_owned();
    }
    let mut text = "  - ".to_owned();
    text.append(items[0].as_str());
    let ghost all = texts(items@);
    let mut i: usize = 1;
    while i < items.len()
        invariant
            1 <= i <= items@.len(),
            all == texts(items@),
            text@ == bullets(all.take(i as int)),
        decreases items@.len() - i,
    {
        proof {
            let done = all.take(i + 1);
            assert(done.drop_last() == all.take(i as int));
            assert(done.last() == items@[i as int]@);
        }
        text.append("\n");
        text.append("  - ");
        text.append(items[i].as_str());
        i += 1;
    }
    assert(all.take(all.len() as int) == all);
    text
}

fn switch(on: bool) -> (text: &'static str)
    ensures
        text@ == switch_text(on),
{
    if on {
        "Enabled"
    } else {
        "Disabled"
    }
}

fn settings(app: &App) -> (text: String)
    ensures
        text@ == settings_text(app@.config),
{
    let network = &app.config.network;
    let sync = &app.config.sync;
    let mut text = "Network settings:\n  Listen port: ".to_owned();
    text.append(decimal_u64(network.listen_port as u64).as_str());
    text.append("\n  Listen address: ");
    text.append(network.listen_address.as_str());
    text.append("\n\nSync Engine configurations:\n  mDNS discovery: ");
    text.append(switch(sync.enable_mdns));
    text.append("\n  Relay support: ");
    text.append(switch(sync.enable_relay));
    text.append("\n  Heartbeat interval: ");
    text.append(decimal_u64(sync.heartbeat_interval_secs).as_str());
    text.append("s\n  Max Message Size: ");
    text.append(decimal_u64(sync.max_message_size).as_str());
    text.append(" bytes\n\nBootstrap Nodes:\n");
    text.append(list_items(&network.bootstrap_nodes).as_str());
    text.append("\n\nRelay Servers:\n");
    text.append(list_items(&network.relay_servers).as_str());
    text
}

/// The two cards of the dashboard.
pub fn dashboard_cards<'a>(left: Area, right: Area, app: &'a App) -> (panels: Vec<Panel<'a>>)
    ensures
        panels_view(panels@) == dashboard_view(app@, left, right),
{
    let panels = vec![
        Panel {
            area: left,
            block: Some(frame(" Overview ")),
            widget: Widget::Text { text: overview(app), style: colored_style(Color::White) },
        },
        Panel {
            area: right,
            block: Some(frame(" P2P / Network Settings ")),
            widget: Widget::Text { text: settings(app), style: colored_style(Color::Yellow) },
        },
    ];
    assert(panels_view(panels@) == dashboard_view(app@, left, right));
    panels
}

/// The widths of the two cards of the dashboard.
pub open spec fn card_widths() -> Seq<Constraint> {
    seq![Constraint::Percentage(55), Constraint::Percentage(45)]
}

/// Whether `panels` is the dashboard in `area`: two cards side by side.
pub open spec fn is_dashboard(app: AppView, area: Area, panels: Seq<PanelView>) -> bool {
    exists|cards: Seq<Area>|
        {
            &&& #[trigger] divides(Direction::Horizontal, card_widths(), area, cards)
            &&& panels == dashboard_view(app, cards[0], cards[1])
        }
}

/// The dashboard: two cards side by side.
pub fn render_dashboard<'a>(area: Area, app: &'a App) -> (panels: Vec<Panel<'a>>)
    ensures
        is_dashboard(app@, area, panels_view(panels@)),
{
    let cards = split_in_two(
        Direction::Horizontal,
        Constraint::Percentage(55),
        Constraint::Percentage(45),
        area,
    );
    let panels = dashboard_cards(cards.0, cards.1, app);
    proof {
        let areas = seq![cards.0, cards.1];
        assert(divides(Direction::Horizontal, card_widths(), area, areas));
        assert(panels_view(panels@) == dashboard_view(app@, areas[0], areas[1]));
    }
    panels
}

/// A table of loaded records.
pub open spec fn table_view(
    area: Area,
    title: Seq<char>,
    headers: Seq<Seq<char>>,
    widths: Seq<Constraint>,
    rows: Seq<Seq<Seq<char>>>,
) -> PanelView {
    PanelView {
        area,
        block: Some(framed(title)),
        widget: WidgetView::Table { headers, header_style: header_style(), rows, widths },
    }
}

fn table<'a>(
    area: Area,
    title: &str,
    headers: Vec<&'a str>,
    widths: Vec<Constraint>,
    rows: &'a Vec<Vec<String>>,
) -> (panel: Panel<'a>)
    ensures
        panel@ == table_view(area, title@, labels(headers@), widths@, grid(rows@)),
{
    Panel {
        area,
        block: Some(frame(title)),
        widget: Widget::Table {
            headers,
            header_style: Style { fg: Some(Color::Cyan), bg: None, bold: true },
            rows,
            widths,
        },
    }
}

/// The table of the known peers.
pub open spec fn peers_view(app: AppView, area: Area) -> PanelView {
    table_view(
        area,
        " Connected Peers [Press 'a' to add a peer] "@,
        seq!["Peer ID"@, "Multiaddress"@, "Last Seen"@],
        seq![Constraint::Percentage(30), Constraint::Percentage(50), Constraint::Percentage(20)],
        app.peers,
    )
}

/// The table of the known peers.
pub fn render_peers<'a>(area: Area, app: &'a App) -> (panel: Panel<'a>)
    ensures
        panel@ == peers_view(app@, area),
{
    let headers = vec!["Peer ID", "Multiaddress", "Last Seen"];
    let widths = vec![
        Constraint::Percentage(30),
        Constraint::Percentage(50),
        Constraint::Percentage(20),
    ];
    assert(labels(headers@) == peers_view(app@, area).widget->headers);
    assert(widths@ == peers_view(app@, area).widget->widths);
    table(area, " Connected Peers [Press 'a' to add a peer] ", headers, widths, &app.peers)
}

/// The table of the authorized devices.
pub open spec fn devices_view(app: AppView, area: Area) -> PanelView {
    table_view(
        area,
        " Authorized Devices "@,
        seq!["Device ID"@, "Type"@, "Name"@, "Authorized At"@],
        seq![
            Constraint::Percentage(30),
            Constraint::Percentage(20),
            Constraint::Percentage(25),
            Constraint::Percentage(25),
        ],
        app.devices,
    )
}

/// The table of the authorized devices.
pub fn render_devices<'a>(area: Area, app: &'a App) -> (panel: Panel<'a>)
    ensures
        panel@ == devices_view(app@, area),
{
    let headers = vec!["Device ID", "Type", "Name", "Authorized At"];
    let widths = vec![
        Constraint::Percentage(30),
        Constraint::Percentage(20),
        Constraint::Percentage(25),
        Constraint::Percentage(25),
    ];
    assert(labels(headers@) == devices_view(app@, area).widget->headers);
    assert(widths@ == devices_view(app@, area).widget->widths);
    table(area, " Authorized Devices ", headers, widths, &app.devices)
}

/// The table of the latest operations.
pub open spec fn oplog_view(app: AppView, area: Area) -> PanelView {
    table_view(
        area,
        " Recent Operation Logs (OpLog) "@,
        seq!["Op ID"@, "Table"@, "Operation"@, "Timestamp"@],
        seq![
            Constraint::Percentage(15),
            Constraint::Percentage(35),
            Constraint::Percentage(20),
            Constraint::Percentage(30),
        ],
        app.oplog_entries,
    )
}

/// The table of the latest operations.
pub fn render_oplog<'a>(area: Area, app: &'a App) -> (panel: Panel<'a>)
    ensures
        panel@ == oplog_view(app@, area),
{
    let headers = vec!["Op ID", "Table", "Operation", "Timestamp"];
    let widths = vec![
        Constraint::Percentage(15),
        Constraint::Percentage(35),
        Constraint::Percentage(20),
        Constraint::Percentage(30),
    ];
    assert(labels(headers@) == oplog_view(app@, area).widget->headers);
    assert(widths@ == oplog_view(app@, area).widget->widths);
    table(area, " Recent Operation Logs (OpLog) ", headers, widths, &app.oplog_entries)
}

/// The SQL prompt; its frame is green while it has the keyboard.
pub open spec fn prompt_view(app: AppView, area: Area) -> PanelView {
    PanelView {
        area,
        block: Some(
            BlockView {
                title: " SQL Query Prompt [Press Enter to run query, Esc to exit editing] "@,
                borders: Borders::All,
                border_style: if app.input_mode == InputMode::EditingQuery {
                    colored(Color::Green)
                } else {
                    plain()
                },
            },
        ),
        widget: WidgetView::Text { text: app.query_input, style: plain() },
    }
}

/// As many columns as there are headers, each with an equal share of the width.
pub open spec fn equal_widths(columns: nat) -> Seq<Constraint> {
    Seq::new(columns, |i: int| Constraint::Percentage((100int / columns as int) as u16))
}

/// What the last query gave: its error, or else its rows.
pub open spec fn result_view(app: AppView, area: Area) -> PanelView {
    match app.query_error {
        Some(error) => PanelView {
            area,
            block: Some(framed(" Query Error "@)),
            widget: WidgetView::Text { text: error, style: colored(Color::Red) },
        },
        None => table_view(
            area,
            " SQL Results "@,
            app.query_headers,
            equal_widths(app.query_headers.len()),
            app.query_results,
        ),
    }
}

/// The SQL prompt; its frame is green while it has the keyboard.
pub fn render_prompt<'a>(area: Area, app: &'a App) -> (panel: Panel<'a>)
    ensures
        panel@ == prompt_view(app@, area),
{
    let border_style = if app.input_mode == InputMode::EditingQuery {
        colored_style(Color::Green)
    } else {
        plain_style()
    };
    Panel {
        area,
        block: Some(
            Block {
                title: " SQL Query Prompt [Press Enter to run query, Esc to exit editing] ".to_owned(),
                borders: Borders::All,
                border_style,
            },
        ),
        widget: Widget::Text { text: app.query_input.clone(), style: plain_style() },
    }
}

/// What the last query gave: its error, or else its rows.
pub fn render_result<'a>(area: Area, app: &'a App) -> (panel: Panel<'a>)
    ensures
        panel@ == result_view(app@, area),
{
    if let Some(error) = &app.query_error {
        return Panel {
            area,
            block: Some(frame(" Query Error ")),
            widget: Widget::Text { text: error.clone(), style: colored_style(Color::Red) },
        };
    }
    let columns: usize = app.query_headers.len();
    let share: u16 = if columns == 0 { 100 } else { (100 / columns) as u16 };
    let mut headers: Vec<&'a str> = Vec::new();
    let mut widths: Vec<Constraint> = Vec::new();
    let mut i: usize = 0;
    while i < columns
        invariant
            i <= columns,
            columns == app.query_headers@.len(),
            columns > 0 ==> share == (100int / columns as int) as u16,
            headers@.len() == i,
            widths@.len() == i,
            forall|j: int| 0 <= j < i ==> (#[trigger] headers@[j])@ == app.query_headers@[j]@,
            forall|j: int| 0 <= j < i ==> #[trigger] widths@[j] == Constraint::Percentage(share),
        decreases columns - i,
    {
        headers.push(app.query_headers[i].as_str());
        widths.push(Constraint::Percentage(share));
        i += 1;
    }
    assert(labels(headers@) == app@.query_headers);
    assert(widths@ == equal_widths(columns as nat));
    table(area, " SQL Results ", headers, widths, &app.query_results)
}

/// The heights of the SQL prompt and of the result below it.
pub open spec fn query_heights() -> Seq<Constraint> {
    seq![Constraint::Length(3), Constraint::Min(5)]
}

/// The SQL prompt and the result of the last query.
pub fn query_panels<'a>(prompt: Area, result: Area, app: &'a App) -> (panels: Vec<Panel<'a>>)
    ensures
        panels_view(panels@) == seq![prompt_view(app@, prompt), result_view(app@, result)],
{
    let panels = vec![render_prompt(prompt, app), render_result(result, app)];
    assert(panels_view(panels@) == seq![prompt_view(app@, prompt), result_view(app@, result)]);
    panels
}

/// Whether `panels` is the SQL pane in `area`: the prompt above the result.
pub open spec fn is_query_pane(app: AppView, area: Area, panels: Seq<PanelView>) -> bool {
    exists|rows: Seq<Area>|
        {
            &&& #[trigger] divides(Direction::Vertical, query_heights(), area, rows)
            &&& panels == seq![prompt_view(app, rows[0]), result_view(app, rows[1])]
        }
}

/// The SQL pane: the prompt above the result.
pub fn render_query_pane<'a>(area: Area, app: &'a App) -> (panels: Vec<Panel<'a>>)
    ensures
        is_query_pane(app@, area, panels_view(panels@)),
{
    let rows = split_in_two(Direction::Vertical, Constraint::Length(3), Constraint::Min(5), area);
    let panels = query_panels(rows.0, rows.1, app);
    proof {
        let areas = seq![rows.0, rows.1];
        assert(divides(Direction::Vertical, query_heights(), area, areas));
        assert(panels_view(panels@) == seq![
            prompt_view(app@, areas[0]),
            result_view(app@, areas[1]),
        ]);
    }
    panels
}

/// The colour of a log line, by the level it mentions; an error outranks a
/// warning, and so on down.
pub open spec fn level_color(line: Seq<char>) -> Color {
    if occurs(line, "ERROR"@) || occurs(line, "err"@) {
        Color::Red
    } else if occurs(line, "WARN"@) {
        Color::Yellow
    } else if occurs(line, "INFO"@) {
        Color::Green
    } else if occurs(line, "DEBUG"@) {
        Color::Blue
    } else {
        Color::White
    }
}

/// The colour of a log line, by the level it mentions.
pub fn line_color(line: &str) -> (color: Color)
    ensures
        color == level_color(line@),
{
    if contains(line, "ERROR") || contains(line, "err") {
        Color::Red
    } else if contains(line, "WARN") {
        Color::Yellow
    } else if contains(line, "INFO") {
        Color::Green
    } else if contains(line, "DEBUG") {
        Color::Blue
    } else {
        Color::White
    }
}

/// The log lines from the scroll position on, each in the colour of its level.
pub open spec fn log_lines_view(app: AppView) -> Seq<LineView> {
    let hidden = if app.log_scroll < app.log_lines.len() {
        app.log_scroll
    } else {
        app.log_lines.len() as int
    };
    app.log_lines.skip(hidden).map_values(
        |line: Seq<char>| LineView { text: line, style: colored(level_color(line)) },
    )
}

/// The log viewer.
pub open spec fn log_viewer_view(app: AppView, area: Area) -> PanelView {
    PanelView {
        area,
        block: Some(
            framed(
                " Live Tail: "@ + app.config.log_file + " [Press Up/Down keys to scroll] "@,
            ),
        ),
        widget: WidgetView::Lines { lines: log_lines_view(app) },
    }
}

/// The log viewer.
pub fn render_log_viewer<'a>(area: Area, app: &'a App) -> (panel: Panel<'a>)
    ensures
        panel@ == log_viewer_view(app@, area),
{
    let mut title = " Live Tail: ".to_owned();
    title.append(app.config.log_file.as_str());
    title.append(" [Press Up/Down keys to scroll] ");
    let total: usize = app.log_lines.len();
    let hidden: usize = if app.log_scroll < total { app.log_scroll } else { total };
    let mut lines: Vec<Line<'a>> = Vec::new();
    let mut i: usize = hidden;
    while i < total
        invariant
            hidden <= i <= total,
            total == app.log_lines@.len(),
            lines@.len() == i - hidden,
            forall|j: int|
                0 <= j < lines@.len() ==> (#[trigger] lines@[j])@ == (LineView {
                    text: app.log_lines@[hidden + j]@,
                    style: colored(level_color(app.log_lines@[hidden + j]@)),
                }),
        decreases total - i,
    {
        let text = app.log_lines[i].as_str();
        lines.push(Line { text, style: colored_style(line_color(text)) });
        i += 1;
    }
    assert(lines@.map_values(|l: Line<'a>| l@) == log_lines_view(app@));
    Panel {
        area,
        block: Some(Block { title, borders: Borders::All, border_style: plain_style() }),
        widget: Widget::Lines { lines },
    }
}

/// What the keys do.
pub const HELP: &'static str = "
    AHENK SYNC ENGINE TERMINAL USER INTERFACE
    -------------------------------------------
    
    Keyboard Controls:
    
    [F1]        Go to Dashboard Panel (Overview & Networking Configs)
    [F2]        Go to Peers Panel (View & add multiaddress peers)
    [F3]        Go to Devices Panel (List authorized devices)
    [F4]        Go to Oplog Panel (Watch database changes feed)
    [F5]        Go to SQL Editor (Run SQLite queries interactively)
    [F6]        Go to Log Viewer (Tail and scroll log file output)
    [F7]        Show this Help Panel
    
    Panel-specific controls:
    
    - In Peers Panel:
      Press [a] to bring up dialog, input Multiaddress, and press Enter to save.
      
    - In SQL Editor:
      Type SQL queries directly. Press [Enter] to run. Press [Esc] to exit insert mode.
      
    - In Log Viewer:
      Press [Up Arrow] or [Down Arrow] keys to scroll log output.
      
    Global commands:
    - Press [r] to force refresh all panels manually.
    - Press [q] to quit TUI app immediately.
    
    ";

/// The help pane.
pub open spec fn help_view(area: Area) -> PanelView {
    PanelView {
        area,
        block: Some(framed(" Controls & Help "@)),
        widget: WidgetView::Text { text: HELP@, style: colored(Color::White) },
    }
}

/// The help pane.
pub fn render_help<'a>(area: Area) -> (panel: Panel<'a>)
    ensures
        panel@ == help_view(area),
{
    Panel {
        area,
        block: Some(frame(" Controls & Help ")),
        widget: Widget::Text { text: HELP.to_owned(), style: colored_style(Color::White) },
    }
}

/// The dialog that asks for a multiaddress, over a wiped area.
pub open spec fn dialog_view(app: AppView, area: Area) -> Seq<PanelView> {
    seq![
        PanelView { area, block: None, widget: WidgetView::Clear },
        PanelView {
            area,
            block: Some(
                BlockView {
                    title: " Add Multiaddress Peer "@,
                    borders: Borders::All,
                    border_style: colored(Color::Green),
                },
            ),
            widget: WidgetView::Text {
                text: "\nEnter Peer Multiaddress:\n(e.g., /ip4/127.0.0.1/tcp/49293/p2p/Qm...)\n\n> "@
                    + app.generic_input + "\n\n[Press Enter to confirm, Esc to close]"@,
                style: colored(Color::White),
            },
        },
    ]
}

/// The dialog that asks for a multiaddress, over a wiped area.
pub fn dialog_panels<'a>(area: Area, app: &'a App) -> (panels: Vec<Panel<'a>>)
    ensures
        panels_view(panels@) == dialog_view(app@, area),
{
    let mut text =
        "\nEnter Peer Multiaddress:\n(e.g., /ip4/127.0.0.1/tcp/49293/p2p/Qm...)\n\n> ".to_owned();
    text.append(app.generic_input.as_str());
    text.append("\n\n[Press Enter to confirm, Esc to close]");
    let panels = vec![
        Panel { area, block: None, widget: Widget::Clear },
        Panel {
            area,
            block: Some(
                Block {
                    title: " Add Multiaddress Peer ".to_owned(),
                    borders: Borders::All,
                    border_style: colored_style(Color::Green),
                },
            ),
            widget: Widget::Text { text, style: colored_style(Color::White) },
        },
    ];
    assert(panels_view(panels@) == dialog_view(app@, area));
    panels
}

/// Whether `panels` is the dialog in the middle of the screen.
pub open spec fn is_dialog(app: AppView, screen: Area, panels: Seq<PanelView>) -> bool {
    exists|area: Area|
        #[trigger] is_centered(60, 20, screen, area) && panels == dialog_view(app, area)
}

/// The dialog in the middle of the screen.
pub fn render_dialog<'a>(screen: Area, app: &'a App) -> (panels: Vec<Panel<'a>>)
    ensures
        is_dialog(app@, screen, panels_view(panels@)),
{
    let area = centered_rect(60, 20, screen);
    dialog_panels(area, app)
}

/// Whether `panels` is the pane of the open tab in `area`.
pub open spec fn is_pane(app: AppView, area: Area, panels: Seq<PanelView>) -> bool {
    match app.active_tab {
        TabItem::Dashboard => is_dashboard(app, area, panels),
        TabItem::Peers => panels == seq![peers_view(app, area)],
        TabItem::Devices => panels == seq![devices_view(app, area)],
        TabItem::OpLog => panels == seq![oplog_view(app, area)],
        TabItem::DbQuery => is_query_pane(app, area, panels),
        TabItem::LogViewer => panels == seq![log_viewer_view(app, area)],
        TabItem::Help => panels == seq![help_view(area)],
    }
}

/// The pane of the open tab.
pub fn render_pane<'a>(area: Area, app: &'a App) -> (panels: Vec<Panel<'a>>)
    ensures
        is_pane(app@, area, panels_view(panels@)),
{
    let panel = match app.active_tab {
        TabItem::Dashboard => {
            return render_dashboard(area, app);
        },
        TabItem::DbQuery => {
            return render_query_pane(area, app);
        },
        TabItem::Peers => render_peers(area, app),
        TabItem::Devices => render_devices(area, app),
        TabItem::OpLog => render_oplog(area, app),
        TabItem::LogViewer => render_log_viewer(area, app),
        TabItem::Help => render_help(area),
    };
    let panels = vec![panel];
    assert(panels_view(panels@) == seq![panel@]);
    panels
}

/// The heights of the tab bar, of the open pane and of the status bar.
pub open spec fn screen_heights() -> Seq<Constraint> {
    seq![Constraint::Length(3), Constraint::Min(10), Constraint::Length(2)]
}

/// The layers of the screen, in the order in which they are drawn.
pub open spec fn layers(
    app: AppView,
    megabytes: Seq<char>,
    tabs: Area,
    pane: Seq<PanelView>,
    status: Area,
    dialog: Seq<PanelView>,
) -> Seq<PanelView> {
    seq![tabs_view(app, tabs)] + pane + seq![status_view(app, megabytes, status)] + dialog
}

/// The layers of the screen, in the order in which they are drawn.
pub fn screen_layers<'a>(
    app: &'a App,
    megabytes: &str,
    tabs: Area,
    mut pane: Vec<Panel<'a>>,
    status: Area,
    mut dialog: Vec<Panel<'a>>,
) -> (panels: Vec<Panel<'a>>)
    ensures
        panels_view(panels@) == layers(
            app@,
            megabytes@,
            tabs,
            panels_view(pane@),
            status,
            panels_view(dialog@),
        ),
{
    let ghost pane_view = panels_view(pane@);
    let ghost dialog_view = panels_view(dialog@);
    let mut panels = vec![render_tabs(tabs, app)];
    panels.append(&mut pane);
    panels.push(render_status(status, app, megabytes));
    panels.append(&mut dialog);
    assert(panels_view(panels@) == layers(
        app@,
        megabytes@,
        tabs,
        pane_view,
        status,
        dialog_view,
    ));
    panels
}

/// Whether `panels` is the whole screen: the tab bar above the open pane above
/// the status bar, and the dialog over them if it is open.
pub open spec fn is_screen(
    app: AppView,
    megabytes: Seq<char>,
    screen: Area,
    panels: Seq<PanelView>,
) -> bool {
    exists|rows: Seq<Area>, pane: Seq<PanelView>, dialog: Seq<PanelView>|
        {
            &&& #[trigger] divides(Direction::Vertical, screen_heights(), screen, rows)
            &&& #[trigger] is_pane(app, rows[1], pane)
            &&& if app.show_dialog {
                is_dialog(app, screen, dialog)
            } else {
                dialog.len() == 0
            }
            &&& panels == #[trigger] layers(app, megabytes, rows[0], pane, rows[2], dialog)
        }
}

/// The whole screen; `megabytes` is the size of the database as text.
pub fn ui<'a>(screen: Area, app: &'a App, megabytes: &str) -> (panels: Vec<Panel<'a>>)
    ensures
        is_screen(app@, megabytes@, screen, panels_view(panels@)),
{
    let rows = split_in_three(
        Direction::Vertical,
        Constraint::Length(3),
        Constraint::Min(10),
        Constraint::Length(2),
        screen,
    );
    let pane = render_pane(rows.1, app);
    let mut dialog: Vec<Panel<'a>> = Vec::new();
    if app.show_dialog {
        dialog = render_dialog(screen, app);
    }
    let ghost pane_view = panels_view(pane@);
    let ghost dialog_view = panels_view(dialog@);
    let panels = screen_layers(app, megabytes, rows.0, pane, rows.2, dialog);
    proof {
        let areas = seq![rows.0, rows.1, rows.2];
        assert(divides(Direction::Vertical, screen_heights(), screen, areas));
        assert(is_pane(app@, areas[1], pane_view));
        assert(panels_view(panels@) == layers(
            app@,
            megabytes@,
            areas[0],
            pane_view,
            areas[2],
            dialog_view,
        ));
    }
    panels
}

} // verus!
