//! What holds of the dashboard as a whole, whatever is typed and loaded.

use vstd::prelude::*;

use crate::app::{
    first_items, initial, AddPeerOutcome, AppView, LogFile, QueryOutcome, Snapshot, Status, LOG_MARGIN,
    LOG_TAIL, OPLOG_LIMIT, REFRESH_INTERVAL,
};
use crate::clock::{has_date, rfc3339_text};
use crate::config::ConfigView;
use crate::input::{ActionView, Key, KeyEvent, KeyKind, Reload};
use crate::peer::{peer_id_in, typed_multiaddr, NewPeer};
use crate::records::{peer_row_view, PeerRecord};
use crate::layout::{
    amount, amounts, divides, is_centered, lengths_fit, lies_in, middle, percentages_fit, precedes,
    room, share, size, spans, start, takes_middle, Area, Constraint, Direction,
};
use crate::screen::{
    card_widths, dashboard_view, dialog_view, equal_widths, is_dashboard, is_dialog, is_pane,
    is_query_pane, is_screen, layers, log_lines_view, prompt_view, query_heights, result_view,
    screen_heights, status_view, tabs_view, PanelView,
};
use crate::tab::{tab_at, InputMode, TabItem, TAB_COUNT};
use crate::text::{
    digits, is_white_space, last_position, lemma_last_position_up_to, occurs, occurs_at, present,
    texts, trimmed, trimmed_end, trimmed_start,
};

pub mod display;
pub mod keys;
pub mod loading;
pub mod words;

verus! {

/// A key that is pressed.
pub open spec fn press(key: Key) -> KeyEvent {
    KeyEvent { key, kind: KeyKind::Press }
}

/// Whether every row has the given number of cells.
pub open spec fn have_cells(rows: Seq<Seq<Seq<char>>>, cells: nat) -> bool {
    forall|i: int| 0 <= i < rows.len() ==> (#[trigger] rows[i]).len() == cells
}

impl AppView {
    /// What every reachable state satisfies. The dialog is only open over the
    /// peers; a text field has the keyboard only while it is on the screen, so
    /// that no key press is lost; the scroll position stays within the longest log
    /// that is kept; no more operations are kept than are selected; every row of a
    /// table has a cell for each of its columns.
    pub open spec fn consistent(self) -> bool {
        &&& self.show_dialog ==> self.active_tab == TabItem::Peers
        &&& self.input_mode == InputMode::EditingAddPeer ==> self.show_dialog
        &&& self.input_mode == InputMode::EditingQuery ==> self.active_tab == TabItem::DbQuery
        &&& self.input_mode != InputMode::EditingPairDevice
        &&& self.input_mode != InputMode::EditingAuthorizeDevice
        &&& self.log_lines.len() <= LOG_TAIL
        &&& 0 <= self.log_scroll <= LOG_TAIL - LOG_MARGIN
        &&& self.oplog_entries.len() <= OPLOG_LIMIT
        &&& self.lists_shaped()
        &&& self.result_shaped()
    }

    /// Whether every peer is shown in three cells, and every device and operation
    /// in four.
    pub open spec fn lists_shaped(self) -> bool {
        &&& have_cells(self.peers, 3)
        &&& have_cells(self.devices, 4)
        &&& have_cells(self.oplog_entries, 4)
    }

    /// Whether every row of the result that is shown has one cell per header.
    /// While an error is shown there is no such result.
    pub open spec fn result_shaped(self) -> bool {
        self.query_error is None ==> have_cells(self.query_results, self.query_headers.len())
    }

    /// The state after `text` has been typed, character by character.
    pub open spec fn after_typing(self, text: Seq<char>) -> AppView
        decreases text.len(),
    {
        if text.len() == 0 {
            self
        } else {
            self.after_typing(text.drop_last()).after_key(press(Key::Char(text.last()))).0
        }
    }

    /// Whether a key press reaches the commands: no dialog is open and no text
    /// field has the keyboard.
    pub open spec fn takes_commands(self) -> bool {
        !self.show_dialog && self.input_mode == InputMode::Normal
    }
}

/// A new dashboard is consistent, takes commands, and loads its data at once.
pub proof fn law_new_dashboard(config: ConfigView, db_size: Option<u64>, start: int, now: int)
    requires
        start <= now,
    ensures
        initial(config, db_size, start).consistent(),
        initial(config, db_size, start).takes_commands(),
        initial(config, db_size, start).reload_at(now) == Reload::Data,
{
}

/// Whatever happens to a key, the state stays consistent. A peer is only ever
/// submitted with the keyboard given back.
pub proof fn law_keys_keep_consistency(s: AppView, event: KeyEvent)
    requires
        s.consistent(),
    ensures
        s.after_key(event).0.consistent(),
        s.after_key(event).1 is AddPeer ==> s.after_key(event).0.input_mode == InputMode::Normal,
{
}

/// Whatever is loaded, the state stays consistent.
pub proof fn law_loading_keeps_consistency(
    s: AppView,
    status: Status,
    database: Option<Snapshot>,
    now: int,
    outcome: QueryOutcome,
    file: LogFile,
)
    requires
        s.consistent(),
    ensures
        s.refreshed(status, database, now).consistent(),
        s.queried(outcome).consistent(),
        s.with_log(file).consistent(),
{
    law_oplog_limit(s, status, database, now);
}

/// However an attempt to add a peer ends, the state that it was submitted from
/// leads to a consistent one.
pub proof fn law_adding_keeps_consistency(s: AppView, event: KeyEvent, outcome: AddPeerOutcome)
    requires
        s.consistent(),
        s.after_key(event).1 is AddPeer,
    ensures
        s.after_key(event).0.peer_added(outcome).consistent(),
{
}

/// Something that happens to the dashboard.
pub enum Step {
    /// Something happened to a key.
    Key(KeyEvent),
    /// Something happened to a key; if it asked for a peer to be added, that ended
    /// as given.
    Submit(KeyEvent, AddPeerOutcome),
    /// Data was loaded at a time.
    Refresh(Status, Option<Snapshot>, int),
    /// A query ended.
    Query(QueryOutcome),
    /// The log file was looked up.
    Log(LogFile),
}

impl AppView {
    /// The state after one step.
    pub open spec fn after_step(self, step: Step) -> AppView {
        match step {
            Step::Key(event) => self.after_key(event).0,
            Step::Submit(event, outcome) => if self.after_key(event).1 is AddPeer {
                self.after_key(event).0.peer_added(outcome)
            } else {
                self.after_key(event).0
            },
            Step::Refresh(status, database, now) => self.refreshed(status, database, now),
            Step::Query(outcome) => self.queried(outcome),
            Step::Log(file) => self.with_log(file),
        }
    }

    /// The state after a number of steps.
    pub open spec fn after_steps(self, steps: Seq<Step>) -> AppView
        decreases steps.len(),
    {
        if steps.len() == 0 {
            self
        } else {
            self.after_steps(steps.drop_last()).after_step(steps.last())
        }
    }
}

/// Every state that a new dashboard can reach is consistent.
pub proof fn law_reachable_states_are_consistent(
    config: ConfigView,
    db_size: Option<u64>,
    start: int,
    steps: Seq<Step>,
)
    ensures
        initial(config, db_size, start).after_steps(steps).consistent(),
    decreases steps.len(),
{
    if steps.len() > 0 {
        law_reachable_states_are_consistent(config, db_size, start, steps.drop_last());
        let before = initial(config, db_size, start).after_steps(steps.drop_last());
        match steps.last() {
            Step::Key(event) => {
                law_keys_keep_consistency(before, event);
            },
            Step::Submit(event, outcome) => {
                law_keys_keep_consistency(before, event);
                if before.after_key(event).1 is AddPeer {
                    law_adding_keeps_consistency(before, event, outcome);
                }
            },
            Step::Refresh(status, database, now) => {
                law_oplog_limit(before, status, database, now);
            },
            _ => {},
        }
    }
}

/// In a consistent state every key press is taken by the commands, the SQL
/// prompt or the dialog, and Esc always leads back to the commands.
pub proof fn law_escape_gives_commands_back(s: AppView)
    requires
        s.consistent(),
    ensures
        s.after_key(press(Key::Esc)).0.takes_commands(),
        s.after_key(press(Key::Esc)).0.active_tab == s.active_tab,
        s.after_key(press(Key::Esc)).1 is Nothing,
{
}

/// Only `q`, pressed where commands are taken, leaves the dashboard, and it
/// leaves it at once.
pub proof fn law_quit(s: AppView, event: KeyEvent)
    ensures
        s.after_key(event).1 is Quit <==> event == press(Key::Char('q')) && s.takes_commands(),
        s.after_key(event).1 is Quit ==> s.after_key(event).0 == s,
{
}

/// Function keys one to seven open the tabs in the order of the tab bar; no
/// other key opens a tab.
pub proof fn law_function_keys(s: AppView, n: u8, event: KeyEvent)
    requires
        s.takes_commands(),
    ensures
        1 <= n <= 7 ==> s.after_key(press(Key::F(n))).0.active_tab == tab_at(n - 1),
        s.after_key(event).0.active_tab != s.active_tab ==> event.key is F,
{
}

/// `r` asks for everything to be loaded again, and says so; it changes nothing
/// else.
pub proof fn law_manual_refresh(s: AppView)
    requires
        s.takes_commands(),
    ensures
        s.after_key(press(Key::Char('r'))).1 is RefreshAll,
        s.after_key(press(Key::Char('r'))).0 == (AppView {
            info_message: Some("Data manually refreshed!"@),
            ..s
        }),
{
}

/// While a dialog is open or a text field has the keyboard, no key opens a tab,
/// loads data by hand or leaves the dashboard.
pub proof fn law_editing_shields_commands(s: AppView, event: KeyEvent)
    requires
        !s.takes_commands(),
    ensures
        s.after_key(event).0.active_tab == s.active_tab,
        s.after_key(event).0.log_scroll == s.log_scroll,
        !(s.after_key(event).1 is Quit),
        !(s.after_key(event).1 is RefreshAll),
        !(s.after_key(event).1 is ReadLogs),
{
}

/// What is typed at the SQL prompt is appended to the query, every character of
/// it, and changes nothing else.
pub proof fn law_query_takes_what_is_typed(s: AppView, text: Seq<char>)
    requires
        !s.show_dialog,
        s.input_mode == InputMode::EditingQuery,
    ensures
        s.after_typing(text) == (AppView { query_input: s.query_input + text, ..s }),
    decreases text.len(),
{
    if text.len() == 0 {
        assert(s.query_input + text == s.query_input);
    } else {
        law_query_takes_what_is_typed(s, text.drop_last());
        assert((s.query_input + text.drop_last()).push(text.last()) == s.query_input + text);
    }
}

/// What is typed in the dialog is appended to its text, every character of it,
/// and changes nothing else.
pub proof fn law_dialog_takes_what_is_typed(s: AppView, text: Seq<char>)
    requires
        s.show_dialog,
    ensures
        s.after_typing(text) == (AppView { generic_input: s.generic_input + text, ..s }),
    decreases text.len(),
{
    if text.len() == 0 {
        assert(s.generic_input + text == s.generic_input);
    } else {
        law_dialog_takes_what_is_typed(s, text.drop_last());
        assert((s.generic_input + text.drop_last()).push(text.last()) == s.generic_input + text);
    }
}

/// Backspace takes back the character typed before it.
pub proof fn law_backspace_undoes_typing(s: AppView, c: char)
    requires
        s.show_dialog || s.input_mode == InputMode::EditingQuery,
    ensures
        s.after_key(press(Key::Char(c))).0.after_key(press(Key::Backspace)).0 == s,
{
    assert(s.query_input.push(c).drop_last() == s.query_input);
    assert(s.generic_input.push(c).drop_last() == s.generic_input);
}

/// A peer is added from the peers tab: `a` opens the dialog on an empty text,
/// the multiaddress is typed, and Enter submits it, without the white space
/// around it, and gives the keyboard back.
pub proof fn law_adding_a_peer(s: AppView, multiaddr: Seq<char>)
    requires
        s.takes_commands(),
        s.active_tab == TabItem::Peers,
        typed_multiaddr(multiaddr) is Some,
    ensures
        ({
            let dialog = s.after_key(press(Key::Char('a'))).0.after_typing(multiaddr);
            &&& dialog.show_dialog
            &&& dialog.generic_input == multiaddr
            &&& dialog.after_key(press(Key::Enter)).1 == ActionView::AddPeer(trimmed(multiaddr))
            &&& dialog.after_key(press(Key::Enter)).0 == (AppView {
                input_mode: InputMode::Normal,
                ..dialog
            })
        }),
{
    let open = s.after_key(press(Key::Char('a'))).0;
    law_dialog_takes_what_is_typed(open, multiaddr);
    assert(Seq::<char>::empty() + multiaddr == multiaddr);
}

/// Esc takes back the opening of the dialog, but for the text that opening it
/// cleared.
pub proof fn law_escape_undoes_opening(s: AppView)
    requires
        s.takes_commands(),
        s.active_tab == TabItem::Peers,
    ensures
        s.after_key(press(Key::Char('a'))).0.after_key(press(Key::Esc)).0 == (AppView {
            generic_input: Seq::empty(),
            ..s
        }),
{
}

/// As long as the dialog is open Enter submits what has been typed, without the
/// white space around it: in whatever mode the keyboard is, and however often
/// Enter was pressed before.
pub proof fn law_enter_submits_what_is_typed(s: AppView)
    requires
        s.show_dialog,
        typed_multiaddr(s.generic_input) is Some,
    ensures
        s.after_key(press(Key::Enter)).1 == ActionView::AddPeer(trimmed(s.generic_input)),
        s.after_key(press(Key::Enter)).0.after_key(press(Key::Enter)) == s.after_key(
            press(Key::Enter),
        ),
{
}

/// After Enter on blank text the dialog still takes an address: once it is typed
/// Enter submits it.
pub proof fn law_adding_after_blank_input(s: AppView, blank: Seq<char>, multiaddr: Seq<char>)
    requires
        s.takes_commands(),
        s.active_tab == TabItem::Peers,
        forall|i: int| 0 <= i < blank.len() ==> is_white_space(#[trigger] blank[i]),
        typed_multiaddr(multiaddr) is Some,
    ensures
        ({
            let opened = s.after_key(press(Key::Char('a'))).0.after_typing(blank);
            let dialog = opened.after_key(press(Key::Enter)).0.after_typing(multiaddr);
            &&& opened.after_key(press(Key::Enter)).1 is Nothing
            &&& dialog.show_dialog
            &&& dialog.after_key(press(Key::Enter)).1 == ActionView::AddPeer(trimmed(multiaddr))
        }),
{
    let empty = s.after_key(press(Key::Char('a'))).0;
    law_dialog_takes_what_is_typed(empty, blank);
    assert(Seq::<char>::empty() + blank == blank);
    let opened = empty.after_typing(blank);
    lemma_blank_is_trimmed_away(blank);
    law_dialog_takes_what_is_typed(opened.after_key(press(Key::Enter)).0, multiaddr);
    lemma_leading_blank_is_trimmed_away(blank, multiaddr);
}

/// Where the database could not be opened the dialog stays open on its text, and
/// Enter submits it again; so it does once more has been typed.
pub proof fn law_adding_after_failed_open(s: AppView, error: String, more: Seq<char>)
    requires
        s.show_dialog,
        typed_multiaddr(s.generic_input) is Some,
    ensures
        ({
            let failed = s.after_key(press(Key::Enter)).0.peer_added(
                AddPeerOutcome::OpenFailed(error),
            );
            let dialog = failed.after_typing(more);
            &&& failed.show_dialog
            &&& failed.generic_input == s.generic_input
            &&& failed.after_key(press(Key::Enter)).1 == ActionView::AddPeer(
                trimmed(s.generic_input),
            )
            &&& dialog.show_dialog
            &&& dialog.after_key(press(Key::Enter)).1 == ActionView::AddPeer(
                trimmed(s.generic_input + more),
            )
        }),
{
    let failed = s.after_key(press(Key::Enter)).0.peer_added(AddPeerOutcome::OpenFailed(error));
    law_dialog_takes_what_is_typed(failed, more);
    let longer = s.generic_input + more;
    if trimmed(longer).len() == 0 {
        law_trim(longer);
        assert forall|i: int| 0 <= i < s.generic_input.len() implies is_white_space(
            #[trigger] s.generic_input[i],
        ) by {
            assert(longer[i] == s.generic_input[i]);
        }
        lemma_blank_is_trimmed_away(s.generic_input);
    }
}

/// However a submitted address is saved or refused by an open database, the
/// dialog closes and its text is cleared.
pub proof fn law_saving_closes_the_dialog(s: AppView, outcome: AddPeerOutcome)
    requires
        !(outcome is OpenFailed),
    ensures
        !s.peer_added(outcome).show_dialog,
        s.peer_added(outcome).generic_input == Seq::<char>::empty(),
        outcome is Saved ==> s.peer_added(outcome).info_message == Some(
            "Successfully added peer: "@ + outcome->Saved_0@,
        ),
{
}

/// Where only white space was typed, Enter submits nothing and leaves the dialog
/// open on its text.
pub proof fn law_blank_input_is_not_submitted(s: AppView)
    requires
        s.show_dialog,
        forall|i: int| 0 <= i < s.generic_input.len() ==> is_white_space(#[trigger] s.generic_input[i]),
    ensures
        s.after_key(press(Key::Enter)).1 is Nothing,
        s.after_key(press(Key::Enter)).0 == (AppView { input_mode: InputMode::Normal, ..s }),
{
    lemma_blank_is_trimmed_away(s.generic_input);
}

proof fn lemma_blank_is_trimmed_away(s: Seq<char>)
    requires
        forall|i: int| 0 <= i < s.len() ==> is_white_space(#[trigger] s[i]),
    ensures
        trimmed_start(s).len() == 0,
        trimmed(s).len() == 0,
    decreases s.len(),
{
    if s.len() > 0 {
        assert(is_white_space(s[0]));
        assert forall|i: int| 0 <= i < s.drop_first().len() implies is_white_space(
            #[trigger] s.drop_first()[i],
        ) by {
            assert(s.drop_first()[i] == s[i + 1]);
        }
        lemma_blank_is_trimmed_away(s.drop_first());
    }
}

proof fn lemma_leading_blank_is_trimmed_away(blank: Seq<char>, rest: Seq<char>)
    requires
        forall|i: int| 0 <= i < blank.len() ==> is_white_space(#[trigger] blank[i]),
    ensures
        trimmed_start(blank + rest) == trimmed_start(rest),
    decreases blank.len(),
{
    if blank.len() == 0 {
        assert(blank + rest == rest);
    } else {
        let fewer = blank.drop_first();
        assert(is_white_space(blank[0]));
        assert((blank + rest).drop_first() == fewer + rest);
        assert forall|i: int| 0 <= i < fewer.len() implies is_white_space(#[trigger] fewer[i]) by {
            assert(fewer[i] == blank[i + 1]);
        }
        lemma_leading_blank_is_trimmed_away(fewer, rest);
    }
}

/// Up takes back a Down that scrolled the log, and Down an Up.
pub proof fn law_scrolling_is_undone(s: AppView)
    requires
        s.takes_commands(),
        s.active_tab == TabItem::LogViewer,
        s.log_scroll >= 0,
    ensures
        s.log_scroll < s.scroll_limit() ==> s.after_key(press(Key::Down)).0.after_key(
            press(Key::Up),
        ).0 == s,
        0 < s.log_scroll <= s.scroll_limit() ==> s.after_key(press(Key::Up)).0.after_key(
            press(Key::Down),
        ).0 == s,
{
}

/// Once loaded, data is loaded again only after the refresh interval, and
/// always after it.
pub proof fn law_refresh_interval(
    s: AppView,
    status: Status,
    snapshot: Snapshot,
    loaded: int,
    now: int,
)
    ensures
        s.refreshed(status, Some(snapshot), loaded).stale(now) <==> now > loaded + REFRESH_INTERVAL,
{
}

/// Where the database cannot be opened the lists stay, and loading them stays as
/// due as it was.
pub proof fn law_unavailable_database(s: AppView, status: Status, loaded: int, now: int)
    ensures
        s.refreshed(status, None, loaded).peers == s.peers,
        s.refreshed(status, None, loaded).devices == s.devices,
        s.refreshed(status, None, loaded).oplog_entries == s.oplog_entries,
        s.refreshed(status, None, loaded).reload_at(now) == s.reload_at(now),
{
}

/// Loading data, log lines or query results never disturbs what the user is
/// doing: tab, keyboard, dialog, texts, messages and scroll position stay.
pub proof fn law_loading_keeps_the_users_work(
    s: AppView,
    status: Status,
    database: Option<Snapshot>,
    now: int,
    outcome: QueryOutcome,
    file: LogFile,
)
    ensures
        same_work(s, s.refreshed(status, database, now)),
        same_work(s, s.queried(outcome)),
        same_work(s, s.with_log(file)),
{
}

/// Whether two states agree in everything the user does by hand.
pub open spec fn same_work(a: AppView, b: AppView) -> bool {
    &&& a.config == b.config
    &&& a.active_tab == b.active_tab
    &&& a.input_mode == b.input_mode
    &&& a.query_input == b.query_input
    &&& a.generic_input == b.generic_input
    &&& a.info_message == b.info_message
    &&& a.error_message == b.error_message
    &&& a.show_dialog == b.show_dialog
    &&& a.log_scroll == b.log_scroll
}

/// Loading data and taking over the end of an attempt to add a peer, or the
/// lines of the log, can be done in any order.
pub proof fn law_loading_commutes(
    s: AppView,
    status: Status,
    database: Option<Snapshot>,
    now: int,
    added: AddPeerOutcome,
    file: LogFile,
)
    ensures
        s.peer_added(added).refreshed(status, database, now) == s.refreshed(
            status,
            database,
            now,
        ).peer_added(added),
        s.with_log(file).refreshed(status, database, now) == s.refreshed(
            status,
            database,
            now,
        ).with_log(file),
{
}

/// The log shows the last lines of those that could be read, in their order, as
/// many as there are up to the limit.
pub proof fn law_log_tail(s: AppView, lines: Vec<Option<String>>)
    ensures
        ({
            let read = texts(present(lines@));
            let shown = s.with_log(LogFile::Lines(lines)).log_lines;
            &&& shown.len() == if read.len() < LOG_TAIL {
                read.len() as int
            } else {
                LOG_TAIL as int
            }
            &&& forall|i: int|
                0 <= i < shown.len() ==> #[trigger] shown[i] == read[read.len() - shown.len() + i]
        }),
{
}

/// Whatever is loaded, and whether it could be loaded or not, every peer keeps
/// three cells, and every device and operation four.
pub proof fn law_loading_keeps_row_shapes(
    s: AppView,
    status: Status,
    database: Option<Snapshot>,
    now: int,
)
    requires
        s.lists_shaped(),
    ensures
        s.refreshed(status, database, now).lists_shaped(),
{
}

/// However many operations were read, no more are kept than are selected.
pub proof fn law_oplog_limit(s: AppView, status: Status, database: Option<Snapshot>, now: int)
    requires
        s.oplog_entries.len() <= OPLOG_LIMIT,
    ensures
        s.refreshed(status, database, now).oplog_entries.len() <= OPLOG_LIMIT,
{
    if let Some(snapshot) = database {
        if let Some(records) = snapshot.oplog {
            lemma_present_len(first_items(records@, OPLOG_LIMIT as int));
        }
    }
}

proof fn lemma_present_len<T>(items: Seq<Option<T>>)
    ensures
        present(items).len() <= items.len(),
    decreases items.len(),
{
    if items.len() > 0 {
        lemma_present_len(items.drop_last());
    }
}

/// A query that ran leaves no error and, whatever it read, a result with one cell
/// per header in every row. A query that failed keeps that so.
pub proof fn law_query_result_shape(s: AppView, outcome: QueryOutcome)
    requires
        s.result_shaped(),
    ensures
        s.queried(outcome).result_shaped(),
        s.queried(outcome).query_error is None <==> outcome is Finished,
{
}

/// After any number of queries, whether they ran or failed, a result that is
/// shown has one cell per header in every row.
pub proof fn law_query_results_keep_their_shape(s: AppView, outcomes: Seq<QueryOutcome>)
    requires
        s.result_shaped(),
    ensures
        s.after_steps(outcomes.map_values(|o: QueryOutcome| Step::Query(o))).result_shaped(),
    decreases outcomes.len(),
{
    let steps = outcomes.map_values(|o: QueryOutcome| Step::Query(o));
    if outcomes.len() > 0 {
        let before = outcomes.drop_last();
        assert(before.map_values(|o: QueryOutcome| Step::Query(o)) == steps.drop_last());
        law_query_results_keep_their_shape(s, before);
        law_query_result_shape(s.after_steps(steps.drop_last()), outcomes.last());
        assert(steps.last() == Step::Query(outcomes.last()));
    }
}

/// A query that failed leaves the rows of the one before it, and an error.
pub proof fn law_failed_query_keeps_rows(s: AppView, outcome: QueryOutcome)
    requires
        !(outcome is Finished),
    ensures
        s.queried(outcome).query_results == s.query_results,
        s.queried(outcome).query_error is Some,
{
}

/// A peer that is written and read back is shown under its id and multiaddress
/// with the date it was seen.
pub proof fn law_new_peer_is_shown(peer: NewPeer, record: PeerRecord)
    requires
        has_date(peer.last_seen),
        record.peer_id == Some(peer.peer_id),
        record.multiaddr == Some(peer.multiaddr),
        record.last_seen == Some(peer.last_seen),
    ensures
        peer_row_view(record) == seq![
            peer.peer_id@,
            peer.multiaddr@,
            rfc3339_text(peer.last_seen),
        ],
{
}

/// A multiaddress that ends in `/p2p/` and an id names that id.
pub proof fn law_multiaddr_names_its_peer(prefix: Seq<char>, id: Seq<char>)
    requires
        !id.contains('/'),
    ensures
        peer_id_in(prefix + "/p2p/"@ + id) == Some(id),
{
    reveal_strlit("/p2p/");
    let marker = "/p2p/"@;
    let whole = prefix + marker + id;
    let at = prefix.len() as int;
    assert(whole.subrange(at, at + 5) == marker);
    assert(occurs_at(whole, marker, at));
    lemma_last_position_up_to(whole, marker, whole.len() - 5);
    assert forall|later: int| at < later implies !occurs_at(whole, marker, later) by {
        if occurs_at(whole, marker, later) {
            assert(whole.subrange(later, later + 5)[4] == '/');
            assert(whole[later + 4] == id[later + 4 - at - 5]);
        }
    }
    assert(last_position(whole, marker) == Some(at));
    assert(whole.skip(at + 5) == id);
}

/// The id that a multiaddress names ends it, right after a `/p2p/` that is the
/// last one; a multiaddress names none only if it holds no `/p2p/`.
pub proof fn law_peer_id_follows_the_last_marker(multiaddr: Seq<char>)
    ensures
        peer_id_in(multiaddr) is None <==> !occurs(multiaddr, "/p2p/"@),
        peer_id_in(multiaddr) matches Some(id) ==> {
            &&& id.len() + 5 <= multiaddr.len()
            &&& multiaddr == multiaddr.take(multiaddr.len() - id.len() - 5) + "/p2p/"@ + id
            &&& !occurs(multiaddr.skip(multiaddr.len() - id.len() - 4), "/p2p/"@)
        },
{
    reveal_strlit("/p2p/");
    let marker = "/p2p/"@;
    lemma_last_position_up_to(multiaddr, marker, multiaddr.len() - 5);
    if let Some(at) = last_position(multiaddr, marker) {
        let id = multiaddr.skip(at + 5);
        assert(multiaddr == multiaddr.take(at) + multiaddr.subrange(at, at + 5) + id);
        let after = multiaddr.skip(at + 1);
        assert forall|i: int| !occurs_at(after, marker, i) by {
            if occurs_at(after, marker, i) {
                assert(after.subrange(i, i + 5) == multiaddr.subrange(at + 1 + i, at + 1 + i + 5));
                assert(occurs_at(multiaddr, marker, at + 1 + i));
            }
        }
    } else {
        assert forall|i: int| !occurs_at(multiaddr, marker, i) by {}
    }
}

/// Trimming takes off white space at both ends and nothing else, and what is
/// left has none there; trimming it again changes nothing.
pub proof fn law_trim(s: Seq<char>)
    ensures
        trimmed(trimmed(s)) == trimmed(s),
        trimmed(s).len() > 0 ==> !is_white_space(trimmed(s)[0]) && !is_white_space(
            trimmed(s).last(),
        ),
        exists|from: int, to: int|
            {
                &&& 0 <= from <= to <= s.len()
                &&& #[trigger] s.subrange(from, to) == trimmed(s)
                &&& forall|i: int| 0 <= i < from ==> is_white_space(#[trigger] s[i])
                &&& forall|i: int| to <= i < s.len() ==> is_white_space(#[trigger] s[i])
            },
{
    let from = lemma_trimmed_start(s);
    let front = trimmed_start(s);
    let count = lemma_trimmed_end(front);
    let inner = trimmed(s);
    let to = from + count;
    assert(s.subrange(from, to) == inner);
    assert forall|i: int| to <= i < s.len() implies is_white_space(#[trigger] s[i]) by {
        assert(front[i - from] == s[i]);
    }
    if inner.len() > 0 {
        assert(inner[0] == front[0]);
    }
}

/// Returns how many characters `trimmed_start` takes off.
proof fn lemma_trimmed_start(s: Seq<char>) -> (from: int)
    ensures
        0 <= from <= s.len(),
        trimmed_start(s) == s.skip(from),
        forall|i: int| 0 <= i < from ==> is_white_space(#[trigger] s[i]),
        trimmed_start(s).len() > 0 ==> !is_white_space(trimmed_start(s)[0]),
    decreases s.len(),
{
    if s.len() > 0 && is_white_space(s[0]) {
        let rest = s.drop_first();
        let from = lemma_trimmed_start(rest) + 1;
        assert(s.skip(from) == rest.skip(from - 1));
        assert forall|i: int| 0 <= i < from implies is_white_space(#[trigger] s[i]) by {
            if i > 0 {
                assert(rest[i - 1] == s[i]);
            }
        }
        from
    } else {
        assert(s.skip(0) == s);
        0
    }
}

/// Returns how many characters `trimmed_end` leaves.
proof fn lemma_trimmed_end(s: Seq<char>) -> (count: int)
    ensures
        0 <= count <= s.len(),
        trimmed_end(s) == s.take(count),
        forall|i: int| count <= i < s.len() ==> is_white_space(#[trigger] s[i]),
        trimmed_end(s).len() > 0 ==> !is_white_space(trimmed_end(s).last()),
        trimmed_end(s).len() == count,
    decreases s.len(),
{
    if s.len() > 0 && is_white_space(s.last()) {
        let rest = s.drop_last();
        let count = lemma_trimmed_end(rest);
        assert(s.take(count) == rest.take(count));
        assert forall|i: int| count <= i < s.len() implies is_white_space(#[trigger] s[i]) by {
            if i < s.len() - 1 {
                assert(rest[i] == s[i]);
            }
        }
        count
    } else {
        assert(s.take(s.len() as int) == s);
        s.len() as int
    }
}

/// Returns the rows of the screen, the open pane and the dialog.
pub proof fn lemma_screen_parts(
    app: AppView,
    megabytes: Seq<char>,
    screen: Area,
    panels: Seq<PanelView>,
) -> (parts: (Seq<Area>, Seq<PanelView>, Seq<PanelView>))
    requires
        is_screen(app, megabytes, screen, panels),
    ensures
        divides(Direction::Vertical, screen_heights(), screen, parts.0),
        is_pane(app, parts.0[1], parts.1),
        app.show_dialog ==> is_dialog(app, screen, parts.2),
        !app.show_dialog ==> parts.2.len() == 0,
        panels == layers(app, megabytes, parts.0[0], parts.1, parts.0[2], parts.2),
{
    choose|rows: Seq<Area>, pane: Seq<PanelView>, dialog: Seq<PanelView>|
        {
            &&& #[trigger] divides(Direction::Vertical, screen_heights(), screen, rows)
            &&& #[trigger] is_pane(app, rows[1], pane)
            &&& if app.show_dialog {
                is_dialog(app, screen, dialog)
            } else {
                dialog.len() == 0
            }
            &&& panels == #[trigger] layers(app, megabytes, rows[0], pane, rows[2], dialog)
        }
}

proof fn lemma_pane_lies_in(app: AppView, area: Area, panels: Seq<PanelView>)
    requires
        is_pane(app, area, panels),
    ensures
        panels.len() > 0,
        forall|i: int| 0 <= i < panels.len() ==> lies_in(area, (#[trigger] panels[i]).area),
{
    match app.active_tab {
        TabItem::Dashboard => {
            let cards = choose|cards: Seq<Area>|
                {
                    &&& #[trigger] divides(Direction::Horizontal, card_widths(), area, cards)
                    &&& panels == dashboard_view(app, cards[0], cards[1])
                };
            assert(lies_in(area, cards[0]) && lies_in(area, cards[1]));
        },
        TabItem::DbQuery => {
            let rows = choose|rows: Seq<Area>|
                {
                    &&& #[trigger] divides(Direction::Vertical, query_heights(), area, rows)
                    &&& panels == seq![prompt_view(app, rows[0]), result_view(app, rows[1])]
                };
            assert(lies_in(area, rows[0]) && lies_in(area, rows[1]));
        },
        _ => {},
    }
}

proof fn lemma_centered_lies_in(percent_x: int, percent_y: int, area: Area, inner: Area)
    requires
        is_centered(percent_x, percent_y, area, inner),
    ensures
        lies_in(area, inner),
{
    let (rows, columns) = choose|rows: Seq<Area>, columns: Seq<Area>|
        {
            &&& #[trigger] divides(Direction::Vertical, middle(percent_y), area, rows)
            &&& #[trigger] divides(Direction::Horizontal, middle(percent_x), rows[1], columns)
            &&& inner == columns[1]
        };
    assert(lies_in(area, rows[1]));
    assert(lies_in(rows[1], columns[1]));
}

/// Everything that is drawn lies on the screen. The tab bar ends where the open
/// pane begins or above it, and so does the pane where the status bar begins.
pub proof fn law_panels_lie_on_the_screen(
    app: AppView,
    megabytes: Seq<char>,
    screen: Area,
    panels: Seq<PanelView>,
)
    requires
        is_screen(app, megabytes, screen, panels),
    ensures
        forall|i: int| 0 <= i < panels.len() ==> lies_in(screen, (#[trigger] panels[i]).area),
        ({
            let status = panels.len() - (if app.show_dialog {
                3int
            } else {
                1int
            });
            forall|i: int|
                0 < i < status ==> {
                    &&& precedes(Direction::Vertical, panels[0].area, (#[trigger] panels[i]).area)
                    &&& precedes(Direction::Vertical, panels[i].area, panels[status].area)
                }
        }),
{
    let (rows, pane, dialog) = lemma_screen_parts(app, megabytes, screen, panels);
    lemma_pane_lies_in(app, rows[1], pane);
    assert(rows.len() == 3);
    assert(lies_in(screen, rows[0]) && lies_in(screen, rows[1]) && lies_in(screen, rows[2]));
    assert(precedes(Direction::Vertical, rows[0], rows[1]));
    assert(precedes(Direction::Vertical, rows[1], rows[2]));
    if app.show_dialog {
        let area = choose|area: Area|
            #[trigger] is_centered(60, 20, screen, area) && dialog == dialog_view(app, area);
        lemma_centered_lies_in(60, 20, screen, area);
        assert(dialog.len() == 2);
    }
    assert forall|i: int| 0 <= i < panels.len() implies lies_in(
        screen,
        (#[trigger] panels[i]).area,
    ) by {
        if 0 < i <= pane.len() {
            assert(panels[i] == pane[i - 1]);
        } else if i > pane.len() + 1 {
            assert(panels[i] == dialog[i - pane.len() - 2]);
        }
    }
    assert forall|i: int| 0 < i <= pane.len() implies {
        &&& precedes(Direction::Vertical, panels[0].area, (#[trigger] panels[i]).area)
        &&& precedes(Direction::Vertical, panels[i].area, panels[pane.len() as int + 1].area)
    } by {
        assert(panels[i] == pane[i - 1]);
    }
}

/// Where percentages make up no more than the whole, every part is within one cell of
/// its hundredths.
pub proof fn law_percentages_are_met(
    direction: Direction,
    constraints: Seq<Constraint>,
    area: Area,
    parts: Seq<Area>,
    i: int,
)
    requires
        divides(direction, constraints, area, parts),
        percentages_fit(constraints),
        0 <= i < parts.len(),
    ensures
        -100 <= 100 * size(direction, parts[i]) - amount(constraints[i]) * room(direction, area)
            <= 100,
{
    let whole = room(direction, area);
    let before = amounts(constraints, i);
    let own = amount(constraints[i]);
    assert(amounts(constraints, i + 1) == before + own);
    assert((before + own) * whole == before * whole + own * whole) by (nonlinear_arith);
    assert(size(direction, parts[i]) == share(before + own, whole) - share(before, whole));
}

/// The two cards of the dashboard stand side by side and fill its width: the border
/// between them is the cell nearest to 55 hundredths.
pub proof fn law_cards_fill_the_width(app: AppView, area: Area, panels: Seq<PanelView>)
    requires
        is_dashboard(app, area, panels),
    ensures
        ({
            let whole = room(Direction::Horizontal, area);
            let left = panels[0].area;
            let right = panels[1].area;
            &&& panels == dashboard_view(app, left, right)
            &&& left.x == area.x
            &&& left.width == share(55, whole)
            &&& right.x == left.x + left.width
            &&& left.width + right.width == whole
            &&& spans(Direction::Horizontal, area, left)
            &&& spans(Direction::Horizontal, area, right)
        }),
{
    let cards = choose|cards: Seq<Area>|
        {
            &&& #[trigger] divides(Direction::Horizontal, card_widths(), area, cards)
            &&& panels == dashboard_view(app, cards[0], cards[1])
        };
    reveal_with_fuel(amounts, 3);
    assert(percentages_fit(card_widths()));
    assert(amounts(card_widths(), 1) == 55);
    assert(amounts(card_widths(), 2) == 100);
    assert(panels[0].area == cards[0] && panels[1].area == cards[1]);
    let whole = room(Direction::Horizontal, area);
    assert(share(0, whole) == 0) by (nonlinear_arith);
    assert(share(100, whole) == whole) by (nonlinear_arith);
}

/// The SQL prompt is three rows high, at the top of its pane, and the result takes the
/// rows below it, wherever both have the height they ask for.
pub proof fn law_prompt_stands_above_the_result(app: AppView, area: Area, panels: Seq<PanelView>)
    requires
        is_query_pane(app, area, panels),
        room(Direction::Vertical, area) >= 8,
    ensures
        ({
            let prompt = panels[0].area;
            let result = panels[1].area;
            &&& panels == seq![prompt_view(app, prompt), result_view(app, result)]
            &&& prompt.y == area.y
            &&& prompt.height == 3
            &&& result.y == area.y + 3
            &&& result.height == room(Direction::Vertical, area) - 3
            &&& spans(Direction::Vertical, area, prompt)
            &&& spans(Direction::Vertical, area, result)
        }),
{
    let rows = choose|rows: Seq<Area>|
        {
            &&& #[trigger] divides(Direction::Vertical, query_heights(), area, rows)
            &&& panels == seq![prompt_view(app, rows[0]), result_view(app, rows[1])]
        };
    reveal_with_fuel(amounts, 3);
    assert(query_heights()[1] is Min);
    assert(lengths_fit(query_heights(), room(Direction::Vertical, area)));
    assert(panels[0].area == rows[0] && panels[1].area == rows[1]);
}

/// On a screen of at least fifteen rows the tab bar takes the first three, the status
/// bar the last two, and the open pane all rows between them.
pub proof fn law_screen_rows(
    app: AppView,
    megabytes: Seq<char>,
    screen: Area,
    panels: Seq<PanelView>,
)
    requires
        is_screen(app, megabytes, screen, panels),
        room(Direction::Vertical, screen) >= 15,
    ensures
        ({
            let rows = room(Direction::Vertical, screen);
            let status = panels.len() - (if app.show_dialog {
                3int
            } else {
                1int
            });
            &&& panels[0].area == (Area { height: 3, ..screen })
            &&& panels[status].area == (Area {
                y: (screen.y + rows - 2) as u16,
                height: 2,
                ..screen
            })
            &&& is_pane(
                app,
                Area { y: (screen.y + 3) as u16, height: (rows - 5) as u16, ..screen },
                panels.subrange(1, status),
            )
        }),
{
    let (rows, pane, dialog) = lemma_screen_parts(app, megabytes, screen, panels);
    lemma_pane_lies_in(app, rows[1], pane);
    reveal_with_fuel(amounts, 4);
    assert(screen_heights()[1] is Min);
    assert(lengths_fit(screen_heights(), room(Direction::Vertical, screen)));
    assert(rows.len() == 3);
    assert(spans(Direction::Vertical, screen, rows[0]));
    assert(spans(Direction::Vertical, screen, rows[1]));
    assert(spans(Direction::Vertical, screen, rows[2]));
    if app.show_dialog {
        assert(dialog.len() == 2);
    }
    let status = pane.len() as int + 1;
    assert(panels.subrange(1, status) == pane);
    assert(panels[status] == status_view(app, megabytes, rows[2]));
}

/// What stands in the middle of an area is within one cell of its hundredths, and,
/// where the hundredths left over halve, what is left over on one side differs by at
/// most one cell from what is left over on the other.
pub proof fn law_middle_is_centered(direction: Direction, percent: int, area: Area, inner: Area)
    requires
        takes_middle(direction, percent, area, inner),
    ensures
        ({
            let whole = room(direction, area);
            let before = start(direction, inner) - start(direction, area);
            let after = whole - before - size(direction, inner);
            &&& -100 <= 100 * size(direction, inner) - percent * whole <= 100
            &&& percent % 2 == 0 ==> -1 <= before - after <= 1
        }),
{
    let whole = room(direction, area);
    let before = (100 - percent) / 2;
    assert((before + percent) * whole == before * whole + percent * whole) by (nonlinear_arith);
    if percent % 2 == 0 {
        assert(2 * (before * whole) + percent * whole == 100 * whole) by (nonlinear_arith)
            requires
                2 * before + percent == 100,
        ;
    }
}

/// The dialog stands in the middle of the screen: what is left over on one side
/// differs by at most one cell from what is left over on the other, and it is within
/// one cell of 60 hundredths of the width and 20 hundredths of the height.
pub proof fn law_dialog_stands_in_the_middle(app: AppView, screen: Area, panels: Seq<PanelView>)
    requires
        is_dialog(app, screen, panels),
    ensures
        ({
            let area = panels[0].area;
            let columns = room(Direction::Horizontal, screen);
            let rows = room(Direction::Vertical, screen);
            let left = area.x - screen.x;
            let above = area.y - screen.y;
            &&& panels == dialog_view(app, area)
            &&& left == share(20, columns)
            &&& above == share(40, rows)
            &&& -1 <= left - (columns - left - area.width) <= 1
            &&& -1 <= above - (rows - above - area.height) <= 1
            &&& -100 <= 100 * area.width - 60 * columns <= 100
            &&& -100 <= 100 * area.height - 20 * rows <= 100
        }),
{
    let area = choose|area: Area|
        #[trigger] is_centered(60, 20, screen, area) && panels == dialog_view(app, area);
    assert(panels[0].area == area);
    law_middle_is_centered(Direction::Horizontal, 60, screen, area);
    law_middle_is_centered(Direction::Vertical, 20, screen, area);
}

/// The screen is layered: the tab bar comes first and spans the width, with one
/// of its tabs highlighted; the status bar follows the open pane and spans the
/// width too; the dialog comes last, over a wiped area, exactly if it is open.
pub proof fn law_screen_layers(
    app: AppView,
    megabytes: Seq<char>,
    screen: Area,
    panels: Seq<PanelView>,
)
    requires
        is_screen(app, megabytes, screen, panels),
    ensures
        ({
            let status = panels.len() - (if app.show_dialog {
                3int
            } else {
                1int
            });
            &&& status >= 2
            &&& panels[0] == tabs_view(app, panels[0].area)
            &&& spans(Direction::Vertical, screen, panels[0].area)
            &&& panels[status] == status_view(app, megabytes, panels[status].area)
            &&& spans(Direction::Vertical, screen, panels[status].area)
            &&& app.show_dialog ==> {
                &&& is_centered(60, 20, screen, panels[status + 1].area)
                &&& panels.skip(status + 1) == dialog_view(app, panels[status + 1].area)
            }
        }),
{
    let (rows, pane, dialog) = lemma_screen_parts(app, megabytes, screen, panels);
    assert(pane.len() >= 1);
    let status = pane.len() as int + 1;
    assert(panels[0] == tabs_view(app, rows[0]));
    assert(panels[status] == status_view(app, megabytes, rows[2]));
    assert(rows.len() == 3);
    assert(spans(Direction::Vertical, screen, rows[0]));
    assert(spans(Direction::Vertical, screen, rows[2]));
    if app.show_dialog {
        assert(dialog.len() == 2);
        assert(panels.skip(status + 1) == dialog);
        assert(panels[status + 1] == dialog[0]);
    }
}

/// The highlighted tab is the open one, and the tab bar has a title for it.
pub proof fn law_highlighted_tab(app: AppView, area: Area)
    ensures
        tabs_view(app, area).widget->selected == app.active_tab.position(),
        tabs_view(app, area).widget->titles.len() == TAB_COUNT,
        0 <= tabs_view(app, area).widget->selected < TAB_COUNT,
{
}

/// The columns of a query result fit side by side, one for each header, and all
/// are equally wide.
pub proof fn law_columns_fit(columns: nat)
    requires
        columns > 0,
    ensures
        equal_widths(columns).len() == columns,
        exists|share: int|
            {
                &&& 0 <= share
                &&& #[trigger] (share * columns) <= 100
                &&& forall|i: int|
                    0 <= i < columns ==> #[trigger] equal_widths(columns)[i]
                        == Constraint::Percentage(share as u16)
            },
{
    let share = 100int / columns as int;
    assert(0 <= share && share * columns <= 100) by (nonlinear_arith)
        requires
            columns > 0,
            share == 100int / columns as int,
    ;
    assert forall|i: int| 0 <= i < columns implies #[trigger] equal_widths(columns)[i]
        == Constraint::Percentage(share as u16) by {}
}

/// No key moves the scroll position past the limit where it was within it.
pub proof fn law_keys_keep_the_scroll_limit(s: AppView, event: KeyEvent)
    requires
        0 <= s.log_scroll <= s.scroll_limit(),
    ensures
        0 <= s.after_key(event).0.log_scroll <= s.after_key(event).0.scroll_limit(),
{
}

/// The log viewer shows the lines from the scroll position on. While that is
/// within the scroll limit, the last lines are in sight.
pub proof fn law_log_stays_in_sight(app: AppView)
    requires
        0 <= app.log_scroll <= app.scroll_limit(),
    ensures
        log_lines_view(app).len() == app.log_lines.len() - app.log_scroll,
        log_lines_view(app).len() >= LOG_MARGIN || app.log_scroll == 0,
        forall|i: int|
            0 <= i < log_lines_view(app).len() ==> (#[trigger] log_lines_view(app)[i]).text
                == app.log_lines[app.log_scroll + i],
{
}

/// The number that a sequence of decimal digits stands for.
pub open spec fn number_in(s: Seq<char>) -> int
    decreases s.len(),
{
    if s.len() == 0 {
        0
    } else {
        number_in(s.drop_last()) * 10 + (s.last() as int - '0' as int)
    }
}

/// A number in decimal is made of digits, has no needless zero in front, and
/// reads back as the number.
pub proof fn law_digits_read_back(n: nat)
    ensures
        digits(n).len() > 0,
        forall|i: int| 0 <= i < digits(n).len() ==> '0' <= #[trigger] digits(n)[i] <= '9',
        n > 0 ==> digits(n)[0] != '0',
        number_in(digits(n)) == n,
    decreases n,
{
    if n < 10 {
        reveal_with_fuel(number_in, 2);
    } else {
        law_digits_read_back(n / 10);
        assert(digits(n).drop_last() == digits(n / 10));
    }
}

} // verus!
