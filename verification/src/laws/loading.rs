//! What loaded data does to the dashboard, and when it is loaded.

use vstd::prelude::*;

use crate::app::{
    AddPeerOutcome, App, AppView, LogFile, QueryOutcome, Snapshot, Status,
};
use crate::config::Config;
use crate::input::{reload_due, Reload};
use crate::laws::words::{
    lemma_present_is_readable, lemma_record_rows, readable, same_texts, shows_device,
    shows_operation, shows_peer, shows_result,
};
use crate::records::{
    device_row_view, device_rows, op_row_view, op_rows, peer_row_view, peer_rows, result_row_view,
    result_rows, DeviceRecord, OpRecord, PeerRecord,
};
use crate::tab::{InputMode, TabItem};
use crate::text::{grid, present, texts};

verus! {

/// Whether every row shows the peer at the same place in a list.
pub open spec fn show_peers(rows: Seq<Seq<Seq<char>>>, records: Seq<PeerRecord>) -> bool {
    &&& rows.len() == records.len()
    &&& forall|i: int| 0 <= i < records.len() ==> shows_peer(#[trigger] rows[i], records[i])
}

/// Whether every row shows the device at the same place in a list.
pub open spec fn show_devices(rows: Seq<Seq<Seq<char>>>, records: Seq<DeviceRecord>) -> bool {
    &&& rows.len() == records.len()
    &&& forall|i: int| 0 <= i < records.len() ==> shows_device(#[trigger] rows[i], records[i])
}

/// Whether every row shows the operation at the same place in a list.
pub open spec fn show_operations(rows: Seq<Seq<Seq<char>>>, records: Seq<OpRecord>) -> bool {
    &&& rows.len() == records.len()
    &&& forall|i: int| 0 <= i < records.len() ==> shows_operation(#[trigger] rows[i], records[i])
}

/// Whether every row shows the row at the same place in a query result.
pub open spec fn show_results(
    rows: Seq<Seq<Seq<char>>>,
    read: Seq<Vec<Option<String>>>,
    columns: nat,
) -> bool {
    &&& rows.len() == read.len()
    &&& forall|i: int| 0 <= i < read.len() ==> shows_result(#[trigger] rows[i], read[i]@, columns)
}

proof fn lemma_peer_rows(records: Seq<Option<PeerRecord>>)
    ensures
        show_peers(
            present(records).map_values(|r: PeerRecord| peer_row_view(r)),
            readable(records),
        ),
{
    lemma_present_is_readable(records);
    let rows = present(records).map_values(|r: PeerRecord| peer_row_view(r));
    assert forall|i: int| 0 <= i < readable(records).len() implies shows_peer(
        #[trigger] rows[i],
        readable(records)[i],
    ) by {
        lemma_record_rows(readable(records)[i], arbitrary(), arbitrary());
    }
}

proof fn lemma_device_rows(records: Seq<Option<DeviceRecord>>)
    ensures
        show_devices(
            present(records).map_values(|r: DeviceRecord| device_row_view(r)),
            readable(records),
        ),
{
    lemma_present_is_readable(records);
    let rows = present(records).map_values(|r: DeviceRecord| device_row_view(r));
    assert forall|i: int| 0 <= i < readable(records).len() implies shows_device(
        #[trigger] rows[i],
        readable(records)[i],
    ) by {
        lemma_record_rows(arbitrary(), readable(records)[i], arbitrary());
    }
}

proof fn lemma_op_rows(records: Seq<Option<OpRecord>>)
    ensures
        show_operations(
            present(records).map_values(|r: OpRecord| op_row_view(r)),
            readable(records),
        ),
{
    lemma_present_is_readable(records);
    let rows = present(records).map_values(|r: OpRecord| op_row_view(r));
    assert forall|i: int| 0 <= i < readable(records).len() implies shows_operation(
        #[trigger] rows[i],
        readable(records)[i],
    ) by {
        lemma_record_rows(arbitrary(), arbitrary(), readable(records)[i]);
    }
}

/// A list of peers has one row for each record that could be read, in order.
pub proof fn law_peer_rows(records: Vec<Option<PeerRecord>>, rows: Vec<Vec<String>>)
    requires
        call_ensures(peer_rows, (records,), rows),
    ensures
        show_peers(grid(rows@), readable(records@)),
{
    lemma_peer_rows(records@);
}

/// A list of devices has one row for each record that could be read, in order.
pub proof fn law_device_rows(records: Vec<Option<DeviceRecord>>, rows: Vec<Vec<String>>)
    requires
        call_ensures(device_rows, (records,), rows),
    ensures
        show_devices(grid(rows@), readable(records@)),
{
    lemma_device_rows(records@);
}

/// A list of operations has one row for each record that could be read, in order.
pub proof fn law_op_rows(records: Vec<Option<OpRecord>>, rows: Vec<Vec<String>>)
    requires
        call_ensures(op_rows, (records,), rows),
    ensures
        show_operations(grid(rows@), readable(records@)),
{
    lemma_op_rows(records@);
}

/// A query result has one row for each row that could be read, in order.
pub proof fn law_result_rows(
    read: Vec<Option<Vec<Option<String>>>>,
    columns: usize,
    rows: Vec<Vec<String>>,
)
    requires
        call_ensures(result_rows, (read, columns), rows),
    ensures
        show_results(grid(rows@), readable(read@), columns as nat),
{
    lemma_present_is_readable(read@);
}

/// After the status has been looked up, the daemon and the size of the database are
/// as they were found, whatever they were before; nothing else has changed.
pub proof fn law_status_is_what_was_found(app: &mut App, status: Status)
    requires
        call_ensures(App::refresh_status, (app, status), ()),
    ensures
        final(app).daemon_running == status.daemon_running,
        final(app).daemon_pid == status.daemon_pid,
        final(app).daemon_uptime == status.daemon_uptime,
        status.db_size_bytes matches Some(bytes) ==> final(app).db_size_bytes == bytes,
        status.db_size_bytes is None ==> final(app).db_size_bytes == 0,
        same_but_status(old(app)@, final(app)@),
        final(app)@.peers == old(app)@.peers,
        final(app)@.devices == old(app)@.devices,
        final(app)@.oplog_entries == old(app)@.oplog_entries,
        final(app).last_refresh == old(app).last_refresh,
{
    assert(final(app)@.daemon_running == final(app).daemon_running);
    assert(final(app)@.last_refresh == final(app).last_refresh);
    assert(old(app)@.last_refresh == old(app).last_refresh);
}

/// Whether two states agree in everything that loading data leaves alone.
pub open spec fn same_but_status(a: AppView, b: AppView) -> bool {
    &&& a.config == b.config
    &&& a.active_tab == b.active_tab
    &&& a.input_mode == b.input_mode
    &&& a.query_input == b.query_input
    &&& a.query_error == b.query_error
    &&& a.query_results == b.query_results
    &&& a.query_headers == b.query_headers
    &&& a.generic_input == b.generic_input
    &&& a.info_message == b.info_message
    &&& a.error_message == b.error_message
    &&& a.show_dialog == b.show_dialog
    &&& a.log_lines == b.log_lines
    &&& a.log_scroll == b.log_scroll
}

/// Whether two states agree in the lists that were loaded and in when they were.
pub open spec fn same_lists(a: AppView, b: AppView) -> bool {
    &&& a.peers == b.peers
    &&& a.devices == b.devices
    &&& a.oplog_entries == b.oplog_entries
    &&& a.last_refresh == b.last_refresh
}

/// After a refresh, with a database or without one, the daemon and the size of the
/// database are as they were found, whatever they were before.
pub proof fn law_refresh_takes_over_the_status(
    app: &mut App,
    status: Status,
    database: Option<Snapshot>,
    now: i64,
)
    requires
        call_ensures(App::refresh_data, (app, status, database, now), ()),
    ensures
        final(app).daemon_running == status.daemon_running,
        final(app).daemon_pid == status.daemon_pid,
        final(app).daemon_uptime == status.daemon_uptime,
        status.db_size_bytes matches Some(bytes) ==> final(app).db_size_bytes == bytes,
        status.db_size_bytes is None ==> final(app).db_size_bytes == 0,
        same_but_status(old(app)@, final(app)@),
        database is Some ==> final(app).last_refresh == now,
        database is None ==> same_lists(old(app)@, final(app)@),
{
    assert(final(app)@.daemon_running == final(app).daemon_running);
    assert(final(app)@.last_refresh == final(app).last_refresh);
}

/// After a refresh, a list whose query succeeded holds exactly what was read, one row
/// for each record that could be read and in the same order, whatever it held before;
/// of the operations, the first fifty count. A list whose query failed stays.
pub proof fn law_refresh_replaces_the_lists(
    app: &mut App,
    status: Status,
    snapshot: Snapshot,
    now: i64,
)
    requires
        call_ensures(App::refresh_data, (app, status, Some(snapshot), now), ()),
    ensures
        snapshot.peers matches Some(records) ==> show_peers(
            grid(final(app).peers@),
            readable(records@),
        ),
        snapshot.devices matches Some(records) ==> show_devices(
            grid(final(app).devices@),
            readable(records@),
        ),
        snapshot.oplog matches Some(records) ==> show_operations(
            grid(final(app).oplog_entries@),
            readable(
                records@.take(
                    if records@.len() < 50 {
                        records@.len() as int
                    } else {
                        50
                    },
                ),
            ),
        ),
        snapshot.peers is None ==> grid(final(app).peers@) == grid(old(app).peers@),
        snapshot.devices is None ==> grid(final(app).devices@) == grid(old(app).devices@),
        snapshot.oplog is None ==> grid(final(app).oplog_entries@) == grid(
            old(app).oplog_entries@,
        ),
{
    assert(final(app)@.peers == grid(final(app).peers@));
    assert(old(app)@.peers == grid(old(app).peers@));
    if let Some(records) = snapshot.peers {
        lemma_peer_rows(records@);
    }
    if let Some(records) = snapshot.devices {
        lemma_device_rows(records@);
    }
    if let Some(records) = snapshot.oplog {
        if records@.len() < 50 {
            assert(records@.take(records@.len() as int) == records@);
        } else {
            assert(records@.take(records@.len() as int) == records@);
        }
        lemma_op_rows(records@);
        lemma_op_rows(records@.take(50));
    }
}

/// What a refresh lists does not depend on what was listed before, and loading the
/// same data again changes nothing.
pub proof fn law_refresh_forgets_what_was_listed(
    a: AppView,
    b: AppView,
    status: Status,
    other: Status,
    snapshot: Snapshot,
    now: int,
    later: int,
)
    ensures
        snapshot.peers is Some ==> a.refreshed(status, Some(snapshot), now).peers == b.refreshed(
            other,
            Some(snapshot),
            later,
        ).peers,
        snapshot.devices is Some ==> a.refreshed(status, Some(snapshot), now).devices
            == b.refreshed(other, Some(snapshot), later).devices,
        snapshot.oplog is Some ==> a.refreshed(status, Some(snapshot), now).oplog_entries
            == b.refreshed(other, Some(snapshot), later).oplog_entries,
        a.refreshed(status, Some(snapshot), now).refreshed(status, Some(snapshot), now)
            == a.refreshed(status, Some(snapshot), now),
        a.refreshed(status, Some(snapshot), now).refreshed(other, Some(snapshot), later).peers
            == a.refreshed(status, Some(snapshot), now).peers,
        a.refreshed(status, None, now).refreshed(status, Some(snapshot), later) == a.refreshed(
            status,
            Some(snapshot),
            later,
        ),
{
}

/// Loading the same data twice, whatever time lies between, lists the same rows as
/// loading it once.
pub proof fn law_refreshing_twice(
    first: &mut App,
    second: &mut App,
    status: Status,
    snapshot: Snapshot,
    now: i64,
    later: i64,
)
    requires
        call_ensures(App::refresh_data, (first, status, Some(snapshot), now), ()),
        call_ensures(App::refresh_data, (second, status, Some(snapshot), later), ()),
        *second == *final(first),
    ensures
        grid(final(second).peers@) == grid(final(first).peers@),
        grid(final(second).devices@) == grid(final(first).devices@),
        grid(final(second).oplog_entries@) == grid(final(first).oplog_entries@),
        snapshot.peers matches Some(records) ==> final(second).peers@.len() == readable(
            records@,
        ).len(),
{
    assert(final(second)@.peers == grid(final(second).peers@));
    assert(final(first)@.peers == grid(final(first).peers@));
    if let Some(records) = snapshot.peers {
        lemma_peer_rows(records@);
        assert(grid(final(second).peers@).len() == final(second).peers@.len());
    }
}

/// After a query has ended, the state shows how: its headers and rows, with one cell
/// for each column, or its error. A query that could not be prepared leaves headers
/// and rows, and one that could not be run leaves the rows.
pub proof fn law_query_gives_what_was_read(app: &mut App, outcome: QueryOutcome)
    requires
        call_ensures(App::execute_sql_query, (app, outcome), ()),
    ensures
        outcome matches QueryOutcome::Finished { headers, rows } ==> {
            &&& final(app).query_error is None
            &&& same_texts(texts(final(app).query_headers@), headers@)
            &&& show_results(grid(final(app).query_results@), readable(rows@), headers@.len())
        },
        outcome matches QueryOutcome::RunFailed { headers, error } ==> {
            &&& final(app).query_error matches Some(shown) && shown@ == error@
            &&& same_texts(texts(final(app).query_headers@), headers@)
            &&& grid(final(app).query_results@) == grid(old(app).query_results@)
        },
        outcome matches QueryOutcome::PrepareFailed(error) ==> {
            &&& final(app).query_error matches Some(shown) && shown@ == error@
            &&& texts(final(app).query_headers@) == texts(old(app).query_headers@)
            &&& grid(final(app).query_results@) == grid(old(app).query_results@)
        },
        outcome matches QueryOutcome::OpenFailed(error) ==> {
            &&& final(app).query_error matches Some(shown) && shown@ == "Database error: "@
                + error@
            &&& texts(final(app).query_headers@) == texts(old(app).query_headers@)
            &&& grid(final(app).query_results@) == grid(old(app).query_results@)
        },
        same_but_query(old(app)@, final(app)@),
{
    assert(final(app)@.query_results == grid(final(app).query_results@));
    assert(old(app)@.query_results == grid(old(app).query_results@));
    if let QueryOutcome::Finished { headers, rows } = outcome {
        lemma_present_is_readable(rows@);
        assert(final(app)@.query_results.len() == readable(rows@).len());
    }
}

/// Whether two states agree in everything but the result of the last query.
pub open spec fn same_but_query(a: AppView, b: AppView) -> bool {
    b == (AppView {
        query_error: b.query_error,
        query_results: b.query_results,
        query_headers: b.query_headers,
        ..a
    })
}

/// After the log file has been looked up, the state holds its last hundred lines, or
/// all that could be read where there are fewer, in their order. Where there is no
/// such file it holds one line that says so, with the path. A file that cannot be
/// opened changes nothing.
pub proof fn law_log_is_what_was_read(app: &mut App, file: LogFile)
    requires
        call_ensures(App::read_logs, (app, file), ()),
    ensures
        file matches LogFile::Lines(lines) ==> {
            let read = readable(lines@);
            let shown = final(app).log_lines@;
            &&& read.len() <= 100 ==> shown.len() == read.len()
            &&& read.len() > 100 ==> shown.len() == 100
            &&& forall|i: int|
                0 <= i < shown.len() ==> (#[trigger] shown[i])@ == read[read.len() - shown.len()
                    + i]@
        },
        file is Missing ==> {
            &&& final(app).log_lines@.len() == 1
            &&& final(app).log_lines@[0]@ == "Log file not found at: "@ + old(app).config.log_file@
        },
        file is Unreadable ==> final(app)@ == old(app)@,
        final(app)@ == (AppView { log_lines: final(app)@.log_lines, ..old(app)@ }),
{
    let shown = final(app).log_lines@;
    assert(final(app)@.log_lines == texts(shown));
    assert(texts(shown).len() == shown.len());
    assert(old(app)@.config.log_file == old(app).config.log_file@);
    if let LogFile::Lines(lines) = file {
        lemma_present_is_readable(lines@);
        let read = readable(lines@);
        assert forall|i: int| 0 <= i < shown.len() implies (#[trigger] shown[i])@ == read[read.len()
            - shown.len() + i]@ by {
            assert(texts(shown)[i] == shown[i]@);
        }
    }
    if file is Missing {
        assert(texts(shown)[0] == shown[0]@);
    }
}

/// After an attempt to save a peer, the state says how it ended: a peer that was saved
/// is named, and only then are the lists loaded again; an error is shown. Unless the
/// database could not be opened, the dialog is closed and its text cleared.
pub proof fn law_adding_ends_as_it_ended(app: &mut App, outcome: AddPeerOutcome, reload: bool)
    requires
        call_ensures(App::execute_add_peer, (app, outcome), reload),
    ensures
        reload <==> outcome is Saved,
        outcome matches AddPeerOutcome::Saved(peer_id) ==> final(app)@ == (AppView {
            info_message: Some("Successfully added peer: "@ + peer_id@),
            show_dialog: false,
            generic_input: Seq::empty(),
            ..old(app)@
        }),
        outcome matches AddPeerOutcome::SaveFailed(error) ==> final(app)@ == (AppView {
            error_message: Some("Error: "@ + error@),
            show_dialog: false,
            generic_input: Seq::empty(),
            ..old(app)@
        }),
        outcome matches AddPeerOutcome::OpenFailed(error) ==> final(app)@ == (AppView {
            error_message: Some("Database error: "@ + error@),
            ..old(app)@
        }),
{
}

/// A new dashboard opens on the first tab and takes commands; it has loaded nothing,
/// knows of no daemon, holds a first query, and its data is ten seconds old.
pub proof fn law_new_dashboard_is_empty(config: Config, db_size: Option<u64>, now: i64, app: App)
    requires
        call_ensures(App::new, (config, db_size, now), app),
    ensures
        app@.config == config@,
        app.active_tab == TabItem::Dashboard,
        app.input_mode == InputMode::Normal,
        !app.show_dialog,
        !app.daemon_running,
        app.daemon_pid is None,
        app.daemon_uptime is None,
        db_size matches Some(bytes) ==> app.db_size_bytes == bytes,
        db_size is None ==> app.db_size_bytes == 0,
        app.peers@.len() == 0,
        app.devices@.len() == 0,
        app.oplog_entries@.len() == 0,
        app.query_input@ == "SELECT * FROM users;"@,
        app.query_error is None,
        app.query_results@.len() == 0,
        app.query_headers@.len() == 0,
        app.generic_input@.len() == 0,
        app.info_message is None,
        app.error_message is None,
        app.log_lines@.len() == 0,
        app.log_scroll == 0,
        app.last_refresh == now - 10_000_000_000,
{
    assert(app@.active_tab == app.active_tab);
    assert(app@.peers.len() == app.peers@.len());
    assert(app@.devices.len() == app.devices@.len());
    assert(app@.oplog_entries.len() == app.oplog_entries@.len());
    assert(app@.query_results.len() == app.query_results@.len());
    assert(app@.query_headers.len() == app.query_headers@.len());
    assert(app@.log_lines.len() == app.log_lines@.len());
}

/// Data is loaded again exactly if it is more than five seconds old, whatever tab is
/// open, and the log with it exactly if the log viewer is open.
pub proof fn law_data_is_loaded_every_five_seconds(app: &App, now: i64, reload: Reload)
    requires
        call_ensures(reload_due, (app, now), reload),
    ensures
        reload == Reload::Nothing <==> now - app.last_refresh <= 5_000_000_000,
        reload == Reload::DataAndLogs <==> now - app.last_refresh > 5_000_000_000
            && app.active_tab == TabItem::LogViewer,
        reload == Reload::Data <==> now - app.last_refresh > 5_000_000_000 && app.active_tab
            != TabItem::LogViewer,
{
}

/// What is loaded before a frame depends on the age of the data and on whether the log
/// viewer is open, and on nothing else.
pub proof fn law_reload_depends_on_age(a: AppView, b: AppView, now: int, later: int)
    requires
        now - a.last_refresh == later - b.last_refresh,
    ensures
        a.reload_at(now) == Reload::Nothing <==> b.reload_at(later) == Reload::Nothing,
        (a.active_tab == TabItem::LogViewer <==> b.active_tab == TabItem::LogViewer)
            ==> a.reload_at(now) == b.reload_at(later),
        a.reload_at(now) == Reload::Nothing <==> now - a.last_refresh <= 5_000_000_000,
{
}

/// Once a refresh has found a database, nothing is due for five seconds, whatever the
/// tab; after that everything is.
pub proof fn law_refresh_puts_the_next_one_off(
    s: AppView,
    status: Status,
    snapshot: Snapshot,
    loaded: int,
    now: int,
)
    ensures
        s.refreshed(status, Some(snapshot), loaded).reload_at(now) == Reload::Nothing <==> now
            <= loaded + 5_000_000_000,
{
}

} // verus!
