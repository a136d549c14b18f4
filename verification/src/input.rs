//! What keys do, and when data is loaded again.

use vstd::prelude::*;

use crate::app::{App, AppView, LOG_MARGIN, REFRESH_INTERVAL};
use crate::peer::{multiaddr_from, typed_multiaddr};
use crate::tab::{InputMode, TabItem};

verus! {

/// The keys that the dashboard tells apart.
#[derive(Debug, Clone, Copy, PartialEq, Eq, Structural)]
pub enum Key {
    Char(char),
    /// A function key by its number.
    F(u8),
    Up,
    Down,
    Enter,
    Esc,
    Backspace,
    /// Any other key.
    Other,
}

/// What happened to a key.
#[derive(Debug, Clone, Copy, PartialEq, Eq, Structural)]
pub enum KeyKind {
    Press,
    Repeat,
    Release,
}

/// Something that happened to a key.
#[derive(Debug, Clone, Copy, PartialEq, Eq, Structural)]
pub struct KeyEvent {
    pub key: Key,
    pub kind: KeyKind,
}

/// What the caller has to do once a key has been handled.
#[derive(Debug)]
pub enum Action {
    /// Nothing.
    Nothing,
    /// Leave the dashboard.
    Quit,
    /// Look up the log file for [`App::read_logs`].
    ReadLogs,
    /// Load data for [`App::refresh_data`], then the log file.
    RefreshAll,
    /// Run the query in the prompt for [`App::execute_sql_query`].
    RunQuery,
    /// Save the peer at this multiaddress for [`App::execute_add_peer`].
    AddPeer(String),
}

/// What an [`Action`] asks for.
pub enum ActionView {
    Nothing,
    Quit,
    ReadLogs,
    RefreshAll,
    RunQuery,
    AddPeer(Seq<char>),
}

impl View for Action {
    type V = ActionView;

    open spec fn view(&self) -> ActionView {
        match *self {
            Action::Nothing => ActionView::Nothing,
            Action::Quit => ActionView::Quit,
            Action::ReadLogs => ActionView::ReadLogs,
            Action::RefreshAll => ActionView::RefreshAll,
            Action::RunQuery => ActionView::RunQuery,
            Action::AddPeer(multiaddr) => ActionView::AddPeer(multiaddr@),
        }
    }
}

/// What has to be loaded before the next frame is drawn.
#[derive(Debug, Clone, Copy, PartialEq, Eq, Structural)]
pub enum Reload {
    Nothing,
    Data,
    DataAndLogs,
}

/// The text without its last character.
pub open spec fn backspaced(text: Seq<char>) -> Seq<char> {
    if text.len() == 0 {
        text
    } else {
        text.drop_last()
    }
}

impl AppView {
    /// Whether the data is so old at time `now` that it has to be loaded again.
    pub open spec fn stale(self, now: int) -> bool {
        now - self.last_refresh > REFRESH_INTERVAL
    }

    /// What has to be loaded before the next frame is drawn at time `now`.
    pub open spec fn reload_at(self, now: int) -> Reload {
        if !self.stale(now) {
            Reload::Nothing
        } else if self.active_tab == TabItem::LogViewer {
            Reload::DataAndLogs
        } else {
            Reload::Data
        }
    }

    /// The state with another tab open.
    pub open spec fn on_tab(self, tab: TabItem) -> AppView {
        AppView { active_tab: tab, ..self }
    }

    /// How far the log can be scrolled.
    pub open spec fn scroll_limit(self) -> int {
        if self.log_lines.len() > LOG_MARGIN {
            self.log_lines.len() - LOG_MARGIN
        } else {
            0
        }
    }

    /// The state after a key while no text field has the keyboard, and what is
    /// to be done.
    pub open spec fn after_normal_key(self, key: Key) -> (AppView, ActionView) {
        match key {
            Key::Char(c) => if c == 'q' {
                (self, ActionView::Quit)
            } else if c == 'r' {
                (
                    AppView { info_message: Some("Data manually refreshed!"@), ..self },
                    ActionView::RefreshAll,
                )
            } else if c == 'a' && self.active_tab == TabItem::Peers {
                (
                    AppView {
                        show_dialog: true,
                        input_mode: InputMode::EditingAddPeer,
                        generic_input: Seq::empty(),
                        ..self
                    },
                    ActionView::Nothing,
                )
            } else {
                (self, ActionView::Nothing)
            },
            Key::F(n) => if n == 1 {
                (self.on_tab(TabItem::Dashboard), ActionView::Nothing)
            } else if n == 2 {
                (self.on_tab(TabItem::Peers), ActionView::Nothing)
            } else if n == 3 {
                (self.on_tab(TabItem::Devices), ActionView::Nothing)
            } else if n == 4 {
                (self.on_tab(TabItem::OpLog), ActionView::Nothing)
            } else if n == 5 {
                (
                    AppView {
                        input_mode: InputMode::EditingQuery,
                        ..self.on_tab(TabItem::DbQuery)
                    },
                    ActionView::Nothing,
                )
            } else if n == 6 {
                (self.on_tab(TabItem::LogViewer), ActionView::ReadLogs)
            } else if n == 7 {
                (self.on_tab(TabItem::Help), ActionView::Nothing)
            } else {
                (self, ActionView::Nothing)
            },
            Key::Up => if self.active_tab == TabItem::LogViewer && self.log_scroll > 0 {
                (AppView { log_scroll: self.log_scroll - 1, ..self }, ActionView::Nothing)
            } else {
                (self, ActionView::Nothing)
            },
            Key::Down => if self.active_tab == TabItem::LogViewer && self.log_scroll
                < self.scroll_limit() {
                (AppView { log_scroll: self.log_scroll + 1, ..self }, ActionView::Nothing)
            } else {
                (self, ActionView::Nothing)
            },
            _ => (self, ActionView::Nothing),
        }
    }

    /// The state after a key while the SQL prompt has the keyboard, and what is
    /// to be done.
    pub open spec fn after_query_key(self, key: Key) -> (AppView, ActionView) {
        match key {
            Key::Esc => (AppView { input_mode: InputMode::Normal, ..self }, ActionView::Nothing),
            Key::Enter => (self, ActionView::RunQuery),
            Key::Backspace => (
                AppView { query_input: backspaced(self.query_input), ..self },
                ActionView::Nothing,
            ),
            Key::Char(c) => (
                AppView { query_input: self.query_input.push(c), ..self },
                ActionView::Nothing,
            ),
            _ => (self, ActionView::Nothing),
        }
    }

    /// The state after a key while the dialog is open, and what is to be done.
    /// Enter always submits what has been typed, however often it was pressed
    /// before.
    pub open spec fn after_dialog_key(self, key: Key) -> (AppView, ActionView) {
        match key {
            Key::Esc => (
                AppView { show_dialog: false, input_mode: InputMode::Normal, ..self },
                ActionView::Nothing,
            ),
            Key::Enter => (
                AppView { input_mode: InputMode::Normal, ..self },
                match typed_multiaddr(self.generic_input) {
                    Some(multiaddr) => ActionView::AddPeer(multiaddr),
                    None => ActionView::Nothing,
                },
            ),
            Key::Backspace => (
                AppView { generic_input: backspaced(self.generic_input), ..self },
                ActionView::Nothing,
            ),
            Key::Char(c) => (
                AppView { generic_input: self.generic_input.push(c), ..self },
                ActionView::Nothing,
            ),
            _ => (self, ActionView::Nothing),
        }
    }

    /// The state after something happened to a key, and what is to be done. Only
    /// a press counts; it goes to the dialog if that is open, else to the text
    /// field that has the keyboard.
    pub open spec fn after_key(self, event: KeyEvent) -> (AppView, ActionView) {
        if event.kind != KeyKind::Press {
            (self, ActionView::Nothing)
        } else if self.show_dialog {
            self.after_dialog_key(event.key)
        } else if self.input_mode == InputMode::Normal {
            self.after_normal_key(event.key)
        } else if self.input_mode == InputMode::EditingQuery {
            self.after_query_key(event.key)
        } else {
            (self, ActionView::Nothing)
        }
    }
}

/// Handles a key while no text field has the keyboard.
pub fn handle_normal_input(key: Key, app: &mut App) -> (action: Action)
    ensures
        final(app)@ == old(app)@.after_normal_key(key).0,
        action@ == old(app)@.after_normal_key(key).1,
{
    match key {
        Key::Char('q') => {
            return Action::Quit;
        },
        Key::F(1) => {
            app.active_tab = TabItem::Dashboard;
        },
        Key::F(2) => {
            app.active_tab = TabItem::Peers;
        },
        Key::F(3) => {
            app.active_tab = TabItem::Devices;
        },
        Key::F(4) => {
            app.active_tab = TabItem::OpLog;
        },
        Key::F(5) => {
            app.active_tab = TabItem::DbQuery;
            app.input_mode = InputMode::EditingQuery;
        },
        Key::F(6) => {
            app.active_tab = TabItem::LogViewer;
            return Action::ReadLogs;
        },
        Key::F(7) => {
            app.active_tab = TabItem::Help;
        },
        Key::Char('r') => {
            app.info_message = Some("Data manually refreshed!".to_owned());
            return Action::RefreshAll;
        },
        Key::Char('a') => {
            if app.active_tab == TabItem::Peers {
                app.show_dialog = true;
                app.input_mode = InputMode::EditingAddPeer;
                app.generic_input = String::new();
            }
        },
        Key::Up => {
            if app.active_tab == TabItem::LogViewer && app.log_scroll > 0 {
                app.log_scroll -= 1;
            }
        },
        Key::Down => {
            if app.active_tab == TabItem::LogViewer && app.log_scroll
                < app.log_lines.len().saturating_sub(LOG_MARGIN) {
                app.log_scroll += 1;
            }
        },
        _ => {},
    }
    Action::Nothing
}

/// Handles a key while the SQL prompt has the keyboard.
pub fn handle_query_input(key: Key, app: &mut App) -> (action: Action)
    ensures
        final(app)@ == old(app)@.after_query_key(key).0,
        action@ == old(app)@.after_query_key(key).1,
{
    match key {
        Key::Esc => {
            app.input_mode = InputMode::Normal;
        },
        Key::Enter => {
            return Action::RunQuery;
        },
        Key::Backspace => {
            app.query_input.pop();
        },
        Key::Char(c) => {
            app.query_input.push(c);
        },
        _ => {},
    }
    Action::Nothing
}

/// Handles a key while the dialog is open.
pub fn handle_dialog_input(key: Key, app: &mut App) -> (action: Action)
    ensures
        final(app)@ == old(app)@.after_dialog_key(key).0,
        action@ == old(app)@.after_dialog_key(key).1,
{
    match key {
        Key::Esc => {
            app.show_dialog = false;
            app.input_mode = InputMode::Normal;
        },
        Key::Enter => {
            app.input_mode = InputMode::Normal;
            if let Some(multiaddr) = multiaddr_from(app.generic_input.as_str()) {
                return Action::AddPeer(multiaddr);
            }
        },
        Key::Backspace => {
            app.generic_input.pop();
        },
        Key::Char(c) => {
            app.generic_input.push(c);
        },
        _ => {},
    }
    Action::Nothing
}

/// Handles something that happened to a key.
pub fn handle_key(event: KeyEvent, app: &mut App) -> (action: Action)
    ensures
        final(app)@ == old(app)@.after_key(event).0,
        action@ == old(app)@.after_key(event).1,
{
    if event.kind != KeyKind::Press {
        return Action::Nothing;
    }
    if app.show_dialog {
        return handle_dialog_input(event.key, app);
    }
    match app.input_mode {
        InputMode::Normal => handle_normal_input(event.key, app),
        InputMode::EditingQuery => handle_query_input(event.key, app),
        _ => Action::Nothing,
    }
}

/// What has to be loaded before the next frame is drawn at time `now`.
pub fn reload_due(app: &App, now: i64) -> (reload: Reload)
    ensures
        reload == app@.reload_at(now as int),
{
    if now as i128 - app.last_refresh as i128 > REFRESH_INTERVAL as i128 {
        if app.active_tab == TabItem::LogViewer {
            Reload::DataAndLogs
        } else {
            Reload::Data
        }
    } else {
        Reload::Nothing
    }
}

} // verus!
