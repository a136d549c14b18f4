//! What each key does.

use vstd::prelude::*;

use crate::app::{App, AppView};
use crate::input::{
    handle_dialog_input, handle_key, handle_normal_input, handle_query_input, Action, ActionView,
    Key, KeyEvent, KeyKind,
};
use crate::laws::press;
use crate::laws::words::{lemma_typed_address, stripped, white_space_codes};
use crate::tab::{InputMode, TabItem};

verus! {

/// Function keys open the tab of their number and change nothing else, but that the
/// SQL prompt gets the keyboard and that the log is read.
pub proof fn law_function_keys_open_their_tab(n: u8, app: &mut App, action: Action)
    requires
        call_ensures(handle_normal_input, (Key::F(n), app), action),
    ensures
        n == 1 ==> final(app)@ == (AppView { active_tab: TabItem::Dashboard, ..old(app)@ }),
        n == 2 ==> final(app)@ == (AppView { active_tab: TabItem::Peers, ..old(app)@ }),
        n == 3 ==> final(app)@ == (AppView { active_tab: TabItem::Devices, ..old(app)@ }),
        n == 4 ==> final(app)@ == (AppView { active_tab: TabItem::OpLog, ..old(app)@ }),
        n == 5 ==> final(app)@ == (AppView {
            active_tab: TabItem::DbQuery,
            input_mode: InputMode::EditingQuery,
            ..old(app)@
        }),
        n == 6 ==> final(app)@ == (AppView { active_tab: TabItem::LogViewer, ..old(app)@ }),
        n == 7 ==> final(app)@ == (AppView { active_tab: TabItem::Help, ..old(app)@ }),
        n < 1 || n > 7 ==> final(app)@ == old(app)@,
        n == 6 ==> action@ is ReadLogs,
        n != 6 ==> action@ is Nothing,
{
}

/// As commands, `q` quits, `r` loads everything again and says so, and `a` opens the
/// dialog on an empty text where the peers are shown. No other character is a command.
pub proof fn law_character_commands(c: char, app: &mut App, action: Action)
    requires
        call_ensures(handle_normal_input, (Key::Char(c), app), action),
    ensures
        action@ is Quit <==> c == 'q',
        action@ is RefreshAll <==> c == 'r',
        c != 'q' && c != 'r' ==> action@ is Nothing,
        c == 'r' ==> final(app)@ == (AppView {
            info_message: Some("Data manually refreshed!"@),
            ..old(app)@
        }),
        c == 'a' && old(app).active_tab == TabItem::Peers ==> final(app)@ == (AppView {
            show_dialog: true,
            input_mode: InputMode::EditingAddPeer,
            generic_input: Seq::empty(),
            ..old(app)@
        }),
        c == 'a' && old(app).active_tab != TabItem::Peers ==> final(app)@ == old(app)@,
        c != 'r' && c != 'a' ==> final(app)@ == old(app)@,
{
    assert(old(app)@.active_tab == old(app).active_tab);
}

/// Where the log is shown, Down scrolls one line further exactly if more than ten
/// lines are left, Up scrolls one line back exactly if one has been scrolled past;
/// everywhere else both do nothing. The other keys are no commands.
pub proof fn law_scrolling(key: Key, app: &mut App, action: Action)
    requires
        call_ensures(handle_normal_input, (key, app), action),
        !(key is Char),
        !(key is F),
    ensures
        action@ is Nothing,
        key == Key::Down && old(app).active_tab == TabItem::LogViewer ==> {
            &&& old(app).log_scroll + 10 < old(app).log_lines@.len() ==> final(app).log_scroll
                == old(app).log_scroll + 1
            &&& old(app).log_scroll + 10 >= old(app).log_lines@.len() ==> final(app).log_scroll
                == old(app).log_scroll
        },
        key == Key::Up && old(app).active_tab == TabItem::LogViewer ==> {
            &&& old(app).log_scroll > 0 ==> final(app).log_scroll == old(app).log_scroll - 1
            &&& old(app).log_scroll == 0 ==> final(app).log_scroll == 0
        },
        old(app).active_tab != TabItem::LogViewer || !(key is Up || key is Down) ==> final(app).log_scroll == old(app).log_scroll,
        final(app)@ == (AppView { log_scroll: final(app)@.log_scroll, ..old(app)@ }),
{
    assert(old(app)@.active_tab == old(app).active_tab);
    assert(old(app)@.log_scroll == old(app).log_scroll);
    assert(final(app)@.log_scroll == final(app).log_scroll);
    assert(old(app)@.log_lines.len() == old(app).log_lines@.len());
}

/// At the SQL prompt every character is typed, Backspace takes the last one back, Enter
/// runs the query and Esc gives the keyboard back; other keys do nothing.
pub proof fn law_prompt_keys(key: Key, app: &mut App, action: Action)
    requires
        call_ensures(handle_query_input, (key, app), action),
    ensures
        key matches Key::Char(c) ==> final(app)@ == (AppView {
            query_input: old(app)@.query_input.push(c),
            ..old(app)@
        }),
        key == Key::Backspace && old(app).query_input@.len() > 0 ==> final(app)@ == (AppView {
            query_input: old(app)@.query_input.take(old(app)@.query_input.len() - 1),
            ..old(app)@
        }),
        key == Key::Backspace && old(app).query_input@.len() == 0 ==> final(app)@ == old(app)@,
        key == Key::Esc ==> final(app)@ == (AppView { input_mode: InputMode::Normal, ..old(app)@ }),
        !(key is Char || key is Backspace || key is Esc) ==> final(app)@ == old(app)@,
        action@ is RunQuery <==> key == Key::Enter,
        action@ is RunQuery || action@ is Nothing,
{
    let typed = old(app)@.query_input;
    if typed.len() > 0 {
        assert(typed.drop_last() == typed.take(typed.len() - 1));
    }
}

/// In the dialog every character is typed, Backspace takes the last one back, Esc
/// closes it, and Enter gives the keyboard back; other keys do nothing. Enter submits
/// what was typed unless it is all white space.
pub proof fn law_dialog_keys(key: Key, app: &mut App, action: Action)
    requires
        call_ensures(handle_dialog_input, (key, app), action),
    ensures
        key matches Key::Char(c) ==> final(app)@ == (AppView {
            generic_input: old(app)@.generic_input.push(c),
            ..old(app)@
        }),
        key == Key::Backspace && old(app).generic_input@.len() > 0 ==> final(app)@ == (AppView {
            generic_input: old(app)@.generic_input.take(old(app)@.generic_input.len() - 1),
            ..old(app)@
        }),
        key == Key::Backspace && old(app).generic_input@.len() == 0 ==> final(app)@ == old(app)@,
        key == Key::Esc ==> final(app)@ == (AppView {
            show_dialog: false,
            input_mode: InputMode::Normal,
            ..old(app)@
        }),
        key == Key::Enter ==> final(app)@ == (AppView { input_mode: InputMode::Normal, ..old(app)@ }),
        !(key is Char || key is Backspace || key is Esc || key is Enter) ==> final(app)@ == old(app)@,
        action@ is AddPeer || action@ is Nothing,
        action@ is AddPeer <==> key == Key::Enter && exists|i: int|
            0 <= i < old(app).generic_input@.len() && !white_space_codes().contains(
                #[trigger] old(app).generic_input@[i] as int,
            ),
        action@ matches ActionView::AddPeer(multiaddr) ==> stripped(
            old(app).generic_input@,
            multiaddr,
        ),
{
    let typed = old(app)@.generic_input;
    assert(typed == old(app).generic_input@);
    if typed.len() > 0 {
        assert(typed.drop_last() == typed.take(typed.len() - 1));
    }
    lemma_typed_address(typed);
}

/// A key counts only when it is pressed. It goes to the dialog while that is open, else
/// to the text field that has the keyboard, else to the commands.
pub proof fn law_keys_go_where_they_belong(event: KeyEvent, app: &mut App, action: Action)
    requires
        call_ensures(handle_key, (event, app), action),
    ensures
        event.kind != KeyKind::Press ==> final(app)@ == old(app)@ && action@ is Nothing,
        event.kind == KeyKind::Press && old(app).show_dialog ==> (final(app)@, action@) == old(app)@.after_dialog_key(event.key),
        event.kind == KeyKind::Press && !old(app).show_dialog && old(app).input_mode
            == InputMode::Normal ==> (final(app)@, action@) == old(app)@.after_normal_key(event.key),
        event.kind == KeyKind::Press && !old(app).show_dialog && old(app).input_mode
            == InputMode::EditingQuery ==> (final(app)@, action@) == old(app)@.after_query_key(
            event.key,
        ),
        event.kind == KeyKind::Press && !old(app).show_dialog && old(app).input_mode
            != InputMode::Normal && old(app).input_mode != InputMode::EditingQuery ==> final(app)@
            == old(app)@ && action@ is Nothing,
{
    assert(old(app)@.show_dialog == old(app).show_dialog);
    assert(old(app)@.input_mode == old(app).input_mode);
}

impl AppView {
    /// The state after a key has been pressed a number of times.
    pub open spec fn after_presses(self, key: Key, times: nat) -> AppView
        decreases times,
    {
        if times == 0 {
            self
        } else {
            self.after_presses(key, (times - 1) as nat).after_key(press(key)).0
        }
    }
}

/// In the log viewer every Down scrolls one line, until the last ten lines are left:
/// enough of them lead there from anywhere above, and no further.
pub proof fn law_down_leads_to_the_last_lines(s: AppView, times: nat)
    requires
        s.takes_commands(),
        s.active_tab == TabItem::LogViewer,
        s.log_lines.len() > 10,
        0 <= s.log_scroll <= s.log_lines.len() - 10,
    ensures
        s.after_presses(Key::Down, times) == (AppView {
            log_scroll: if s.log_scroll + times < s.log_lines.len() - 10 {
                s.log_scroll + times
            } else {
                s.log_lines.len() - 10
            },
            ..s
        }),
    decreases times,
{
    if times > 0 {
        law_down_leads_to_the_last_lines(s, (times - 1) as nat);
    }
}

/// In the log viewer every Up scrolls one line back, until the first line is reached.
pub proof fn law_up_leads_to_the_first_line(s: AppView, times: nat)
    requires
        s.takes_commands(),
        s.active_tab == TabItem::LogViewer,
        s.log_scroll >= 0,
    ensures
        s.after_presses(Key::Up, times) == (AppView {
            log_scroll: if s.log_scroll >= times {
                s.log_scroll - times
            } else {
                0
            },
            ..s
        }),
    decreases times,
{
    if times > 0 {
        law_up_leads_to_the_first_line(s, (times - 1) as nat);
    }
}

/// Backspace takes back one character each time it is pressed, until none is left.
pub proof fn law_backspace_empties_the_prompt(s: AppView, times: nat)
    requires
        !s.show_dialog,
        s.input_mode == InputMode::EditingQuery,
    ensures
        s.after_presses(Key::Backspace, times) == (AppView {
            query_input: s.query_input.take(
                if times < s.query_input.len() {
                    s.query_input.len() - times
                } else {
                    0
                },
            ),
            ..s
        }),
    decreases times,
{
    let typed = s.query_input;
    if times == 0 {
        assert(typed.take(typed.len() as int) == typed);
    } else {
        law_backspace_empties_the_prompt(s, (times - 1) as nat);
        if times <= typed.len() {
            let left = typed.take(typed.len() - times + 1);
            assert(left.drop_last() == typed.take(typed.len() - times));
        } else {
            assert(typed.take(0).len() == 0);
        }
    }
}

/// A tab can be opened from every other one, and opening it is all that counts: what
/// was open before makes no difference.
pub proof fn law_opening_a_tab_forgets_the_last(s: AppView, n: u8, m: u8)
    requires
        s.takes_commands(),
        1 <= n <= 7,
        n != 5,
        1 <= m <= 7,
    ensures
        s.after_key(press(Key::F(n))).0.after_key(press(Key::F(m))) == s.after_key(
            press(Key::F(m)),
        ),
{
}

} // verus!
