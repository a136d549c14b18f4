//! The state of the dashboard, and how loaded data changes it.

use vstd::prelude::*;

use crate::config::{Config, ConfigView};
use crate::records::{
    device_row_view, device_rows, op_row_view, op_rows, peer_row_view, peer_rows, result_row_view,
    result_rows, DeviceRecord, OpRecord, PeerRecord,
};
use crate::tab::{InputMode, TabItem};
use crate::text::{grid, keep_present, opt_text, present, texts};

verus! {

/// How long data counts as fresh, in nanoseconds.
pub const REFRESH_INTERVAL: i64 = 5_000_000_000;

/// How far back the last refresh of a new dashboard is dated, in nanoseconds, so
/// that its data is loaded at once.
pub const INITIAL_AGE: i64 = 10_000_000_000;

/// How many operations are selected from the database, and shown at most.
pub const OPLOG_LIMIT: usize = 50;

/// How many lines of the log file are kept.
pub const LOG_TAIL: usize = 100;

/// How many lines of the log stay in sight when it is scrolled to its end.
pub const LOG_MARGIN: usize = 10;

/// The state of the dashboard.
#[derive(Debug)]
pub struct App {
    pub config: Config,
    pub active_tab: TabItem,
    pub input_mode: InputMode,
    /// Whether the daemon runs, under which process id and for how many seconds.
    pub daemon_running: bool,
    pub daemon_pid: Option<i32>,
    pub daemon_uptime: Option<u64>,
    pub db_size_bytes: u64,
    /// Loaded lists, as table rows.
    pub peers: Vec<Vec<String>>,
    pub devices: Vec<Vec<String>>,
    pub oplog_entries: Vec<Vec<String>>,
    /// The SQL query being edited, and what the last one that ran gave.
    pub query_input: String,
    pub query_error: Option<String>,
    pub query_results: Vec<Vec<String>>,
    pub query_headers: Vec<String>,
    /// The text of the dialog, and the messages it leaves.
    pub generic_input: String,
    pub info_message: Option<String>,
    pub error_message: Option<String>,
    pub show_dialog: bool,
    /// The tail of the log file, and how many of its lines are scrolled past.
    pub log_lines: Vec<String>,
    pub log_scroll: usize,
    /// When data was last loaded, in nanoseconds of a monotonic clock.
    pub last_refresh: i64,
}

/// What an [`App`] holds.
#[verifier::ext_equal]
pub struct AppView {
    pub config: ConfigView,
    pub active_tab: TabItem,
    pub input_mode: InputMode,
    pub daemon_running: bool,
    pub daemon_pid: Option<i32>,
    pub daemon_uptime: Option<u64>,
    pub db_size_bytes: u64,
    pub peers: Seq<Seq<Seq<char>>>,
    pub devices: Seq<Seq<Seq<char>>>,
    pub oplog_entries: Seq<Seq<Seq<char>>>,
    pub query_input: Seq<char>,
    pub query_error: Option<Seq<char>>,
    pub query_results: Seq<Seq<Seq<char>>>,
    pub query_headers: Seq<Seq<char>>,
    pub generic_input: Seq<char>,
    pub info_message: Option<Seq<char>>,
    pub error_message: Option<Seq<char>>,
    pub show_dialog: bool,
    pub log_lines: Seq<Seq<char>>,
    pub log_scroll: int,
    pub last_refresh: int,
}

impl View for App {
    type V = AppView;

    open spec fn view(&self) -> AppView {
        AppView {
            config: self.config@,
            active_tab: self.active_tab,
            input_mode: self.input_mode,
            daemon_running: self.daemon_running,
            daemon_pid: self.daemon_pid,
            daemon_uptime: self.daemon_uptime,
            db_size_bytes: self.db_size_bytes,
            peers: grid(self.peers@),
            devices: grid(self.devices@),
            oplog_entries: grid(self.oplog_entries@),
            query_input: self.query_input@,
            query_error: opt_text(self.query_error),
            query_results: grid(self.query_results@),
            query_headers: texts(self.query_headers@),
            generic_input: self.generic_input@,
            info_message: opt_text(self.info_message),
            error_message: opt_text(self.error_message),
            show_dialog: self.show_dialog,
            log_lines: texts(self.log_lines@),
            log_scroll: self.log_scroll as int,
            last_refresh: self.last_refresh as int,
        }
    }
}

/// What is known of the daemon and the database file.
#[derive(Debug, Clone, Copy)]
pub struct Status {
    pub daemon_running: bool,
    pub daemon_pid: Option<i32>,
    pub daemon_uptime: Option<u64>,
    /// Size of the database file, where it can be told.
    pub db_size_bytes: Option<u64>,
}

/// What was read from an open database. A list is absent where its query
/// failed, and a record where its row could not be read.
#[derive(Debug)]
pub struct Snapshot {
    pub peers: Option<Vec<Option<PeerRecord>>>,
    pub devices: Option<Vec<Option<DeviceRecord>>>,
    pub oplog: Option<Vec<Option<OpRecord>>>,
}

/// How an SQL query ended.
#[derive(Debug)]
pub enum QueryOutcome {
    /// The database could not be opened.
    OpenFailed(String),
    /// The query could not be prepared.
    PrepareFailed(String),
    /// The query was prepared but could not be run.
    RunFailed { headers: Vec<String>, error: String },
    /// The query ran and gave rows with a column for each header. A row is absent
    /// where it could not be read, and a cell where it holds no text.
    Finished { headers: Vec<String>, rows: Vec<Option<Vec<Option<String>>>> },
}

/// What was found of the log file.
#[derive(Debug)]
pub enum LogFile {
    /// There is no such file.
    Missing,
    /// The file could not be opened.
    Unreadable,
    /// The lines of the file; one that could not be read is absent.
    Lines(Vec<Option<String>>),
}

/// How an attempt to save a new peer ended.
#[derive(Debug)]
pub enum AddPeerOutcome {
    /// The database could not be opened.
    OpenFailed(String),
    /// The peer could not be written.
    SaveFailed(String),
    /// The peer was written under this id.
    Saved(String),
}

/// The size, or zero where it cannot be told.
pub open spec fn size_or_zero(size: Option<u64>) -> u64 {
    match size {
        Some(bytes) => bytes,
        None => 0,
    }
}

/// The first `count` items, or all of them if there are fewer.
pub open spec fn first_items<T>(items: Seq<T>, count: int) -> Seq<T> {
    if items.len() > count {
        items.take(count)
    } else {
        items
    }
}

/// The last `count` items of a list.
pub open spec fn last_items<T>(items: Seq<T>, count: int) -> Seq<T> {
    if items.len() > count {
        items.skip(items.len() - count)
    } else {
        items
    }
}

/// What a new dashboard holds.
pub open spec fn initial(config: ConfigView, db_size: Option<u64>, now: int) -> AppView {
    AppView {
        config,
        active_tab: TabItem::Dashboard,
        input_mode: InputMode::Normal,
        daemon_running: false,
        daemon_pid: None,
        daemon_uptime: None,
        db_size_bytes: size_or_zero(db_size),
        peers: Seq::empty(),
        devices: Seq::empty(),
        oplog_entries: Seq::empty(),
        query_input: "SELECT * FROM users;"@,
        query_error: None,
        query_results: Seq::empty(),
        query_headers: Seq::empty(),
        generic_input: Seq::empty(),
        info_message: None,
        error_message: None,
        show_dialog: false,
        log_lines: Seq::empty(),
        log_scroll: 0,
        last_refresh: now - INITIAL_AGE,
    }
}

impl AppView {
    /// The state once the status has been looked up.
    pub open spec fn with_status(self, status: Status) -> AppView {
        AppView {
            daemon_running: status.daemon_running,
            daemon_pid: status.daemon_pid,
            daemon_uptime: status.daemon_uptime,
            db_size_bytes: size_or_zero(status.db_size_bytes),
            ..self
        }
    }

    /// The state once the lists that could be read have been replaced. Of the
    /// operations, only as many count as are selected.
    pub open spec fn with_lists(self, snapshot: Snapshot) -> AppView {
        AppView {
            peers: match snapshot.peers {
                Some(records) => present(records@).map_values(|r: PeerRecord| peer_row_view(r)),
                None => self.peers,
            },
            devices: match snapshot.devices {
                Some(records) => present(records@).map_values(
                    |r: DeviceRecord| device_row_view(r),
                ),
                None => self.devices,
            },
            oplog_entries: match snapshot.oplog {
                Some(records) => present(first_items(records@, OPLOG_LIMIT as int)).map_values(
                    |r: OpRecord| op_row_view(r),
                ),
                None => self.oplog_entries,
            },
            ..self
        }
    }

    /// The state once data has been loaded at time `now`. Without a database
    /// only the status changes, and the data stays as old as it was.
    pub open spec fn refreshed(self, status: Status, database: Option<Snapshot>, now: int) -> AppView {
        match database {
            Some(snapshot) => AppView {
                last_refresh: now,
                ..self.with_status(status).with_lists(snapshot)
            },
            None => self.with_status(status),
        }
    }

    /// The state once an SQL query has ended.
    pub open spec fn queried(self, outcome: QueryOutcome) -> AppView {
        match outcome {
            QueryOutcome::OpenFailed(error) => AppView {
                query_error: Some("Database error: "@ + error@),
                ..self
            },
            QueryOutcome::PrepareFailed(error) => AppView { query_error: Some(error@), ..self },
            QueryOutcome::RunFailed { headers, error } => AppView {
                query_headers: texts(headers@),
                query_error: Some(error@),
                ..self
            },
            QueryOutcome::Finished { headers, rows } => AppView {
                query_headers: texts(headers@),
                query_error: None,
                query_results: present(rows@).map_values(
                    |r: Vec<Option<String>>| result_row_view(r@, headers@.len()),
                ),
                ..self
            },
        }
    }

    /// The state once the log file has been looked up.
    pub open spec fn with_log(self, file: LogFile) -> AppView {
        match file {
            LogFile::Missing => AppView {
                log_lines: seq!["Log file not found at: "@ + self.config.log_file],
                ..self
            },
            LogFile::Unreadable => self,
            LogFile::Lines(lines) => AppView {
                log_lines: last_items(texts(present(lines@)), LOG_TAIL as int),
                ..self
            },
        }
    }

    /// The state once an attempt to save a new peer has ended. Where the
    /// database could not be opened the dialog stays as it is.
    pub open spec fn peer_added(self, outcome: AddPeerOutcome) -> AppView {
        match outcome {
            AddPeerOutcome::OpenFailed(error) => AppView {
                error_message: Some("Database error: "@ + error@),
                ..self
            },
            AddPeerOutcome::SaveFailed(error) => AppView {
                error_message: Some("Error: "@ + error@),
                show_dialog: false,
                generic_input: Seq::empty(),
                ..self
            },
            AddPeerOutcome::Saved(peer_id) => AppView {
                info_message: Some("Successfully added peer: "@ + peer_id@),
                show_dialog: false,
                generic_input: Seq::empty(),
                ..self
            },
        }
    }
}

/// `prefix` and `rest`, one after the other.
fn prefixed(prefix: &str, rest: &str) -> (text: String)
    ensures
        text@ == prefix@ + rest@,
{
    let mut text = prefix.to_owned();
    text.append(rest);
    text
}

impl App {
    /// A new dashboard at time `now`, with nothing loaded yet and dated back so
    /// that everything is loaded at once.
    pub fn new(config: Config, db_size: Option<u64>, now: i64) -> (app: Self)
        requires
            i64::MIN + INITIAL_AGE <= now,
        ensures
            app@ == initial(config@, db_size, now as int),
    {
        let app = App {
            config,
            active_tab: TabItem::Dashboard,
            input_mode: InputMode::Normal,
            daemon_running: false,
            daemon_pid: None,
            daemon_uptime: None,
            db_size_bytes: db_size.unwrap_or(0),
            peers: Vec::new(),
            devices: Vec::new(),
            oplog_entries: Vec::new(),
            query_input: "SELECT * FROM users;".to_owned(),
            query_error: None,
            query_results: Vec::new(),
            query_headers: Vec::new(),
            generic_input: String::new(),
            info_message: None,
            error_message: None,
            show_dialog: false,
            log_lines: Vec::new(),
            log_scroll: 0,
            last_refresh: now - INITIAL_AGE,
        };
        assert(app@ =~= initial(config@, db_size, now as int));
        app
    }

    /// Takes over what is known of the daemon and the database file.
    pub fn refresh_status(&mut self, status: Status)
        ensures
            final(self)@ == old(self)@.with_status(status),
    {
        self.daemon_running = status.daemon_running;
        self.daemon_pid = status.daemon_pid;
        self.daemon_uptime = status.daemon_uptime;
        self.db_size_bytes = status.db_size_bytes.unwrap_or(0);
    }

    /// Takes over the status and, where the database could be opened, what was
    /// read from it; the data then dates from `now`.
    pub fn refresh_data(&mut self, status: Status, database: Option<Snapshot>, now: i64)
        ensures
            final(self)@ == old(self)@.refreshed(status, database, now as int),
    {
        self.refresh_status(status);
        if let Some(snapshot) = database {
            if let Some(records) = snapshot.peers {
                self.peers = peer_rows(records);
            }
            if let Some(records) = snapshot.devices {
                self.devices = device_rows(records);
            }
            if let Some(mut records) = snapshot.oplog {
                let ghost selected = first_items(records@, OPLOG_LIMIT as int);
                records.truncate(OPLOG_LIMIT);
                assert(records@ == selected);
                self.oplog_entries = op_rows(records);
            }
            self.last_refresh = now;
        }
    }

    /// Takes over how the SQL query ended.
    pub fn execute_sql_query(&mut self, outcome: QueryOutcome)
        ensures
            final(self)@ == old(self)@.queried(outcome),
    {
        match outcome {
            QueryOutcome::OpenFailed(error) => {
                self.query_error = Some(prefixed("Database error: ", error.as_str()));
            },
            QueryOutcome::PrepareFailed(error) => {
                self.query_error = Some(error);
            },
            QueryOutcome::RunFailed { headers, error } => {
                self.query_headers = headers;
                self.query_error = Some(error);
            },
            QueryOutcome::Finished { headers, rows } => {
                self.query_results = result_rows(rows, headers.len());
                self.query_headers = headers;
                self.query_error = None;
            },
        }
    }

    /// Takes over the last lines of the log file.
    pub fn read_logs(&mut self, file: LogFile)
        ensures
            final(self)@ == old(self)@.with_log(file),
    {
        match file {
            LogFile::Missing => {
                let message = prefixed("Log file not found at: ", self.config.log_file.as_str());
                self.log_lines = vec![message];
                assert(texts(self.log_lines@) == seq![message@]);
            },
            LogFile::Unreadable => {},
            LogFile::Lines(lines) => {
                let mut kept = keep_present(lines);
                let ghost all = kept@;
                if kept.len() > LOG_TAIL {
                    let start: usize = kept.len() - LOG_TAIL;
                    self.log_lines = kept.split_off(start);
                    assert(texts(self.log_lines@) == texts(all).skip(start as int));
                } else {
                    self.log_lines = kept;
                }
            },
        }
    }

    /// Takes over how the attempt to save a new peer ended. Returns whether the
    /// lists have to be loaded again.
    pub fn execute_add_peer(&mut self, outcome: AddPeerOutcome) -> (reload: bool)
        ensures
            final(self)@ == old(self)@.peer_added(outcome),
            reload == (outcome is Saved),
    {
        match outcome {
            AddPeerOutcome::OpenFailed(error) => {
                self.error_message = Some(prefixed("Database error: ", error.as_str()));
                false
            },
            AddPeerOutcome::SaveFailed(error) => {
                self.error_message = Some(prefixed("Error: ", error.as_str()));
                self.show_dialog = false;
                self.generic_input = String::new();
                false
            },
            AddPeerOutcome::Saved(peer_id) => {
                self.info_message = Some(prefixed("Successfully added peer: ", peer_id.as_str()));
                self.show_dialog = false;
                self.generic_input = String::new();
                true
            },
        }
    }
}

} // verus!
