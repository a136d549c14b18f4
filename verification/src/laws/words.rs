//! What holds of texts, numbers and the rows that are made of them.

use vstd::prelude::*;

use crate::app::App;
use crate::clock::{rfc3339_text, FIRST_TIMESTAMP, LAST_TIMESTAMP};
use crate::config::Config;
use crate::input::Action;
use crate::laws::{
    law_digits_read_back, law_peer_id_follows_the_last_marker, law_trim, number_in,
};
use crate::peer::{is_random_uuid, multiaddr_from, new_peer, peer_at, typed_multiaddr, NewPeer};
use crate::records::{
    device_row, device_row_view, format_timestamp, op_row, op_row_view, peer_row, peer_row_view,
    result_row, result_row_view, shown_date, DeviceRecord, OpRecord, PeerRecord,
};
use crate::tab::TabItem;
use crate::text::{
    contains, decimal, decimal_i64, decimal_u64, digits, grid, is_white, is_white_space,
    keep_present, lemma_last_position_up_to, occurs, occurs_at, present, rfind, texts, trim,
    trimmed,
};

verus! {

/// The values that are there, in their order.
pub open spec fn readable<T>(items: Seq<Option<T>>) -> Seq<T> {
    items.filter(|item: Option<T>| item is Some).map_values(|item: Option<T>| item->0)
}

pub proof fn lemma_present_is_readable<T>(items: Seq<Option<T>>)
    ensures
        present(items) == readable(items),
    decreases items.len(),
{
    reveal(Seq::filter);
    if items.len() > 0 {
        lemma_present_is_readable(items.drop_last());
    }
    assert(present(items) =~= readable(items));
}

/// What is kept of a list is what could be read of it, in the same order; nothing is
/// made up and nothing is lost.
pub proof fn law_keep_present<T>(items: Vec<Option<T>>, kept: Vec<T>)
    requires
        call_ensures(keep_present::<T>, (items,), kept),
    ensures
        kept@ == readable(items@),
        kept@.len() <= items@.len(),
        (forall|i: int| 0 <= i < items@.len() ==> (#[trigger] items@[i]) is Some) ==> kept@.len()
            == items@.len() && forall|i: int|
            0 <= i < items@.len() ==> Some(#[trigger] kept@[i]) == items@[i],
{
    lemma_present_is_readable(items@);
    lemma_all_present(items@);
}

proof fn lemma_all_present<T>(items: Seq<Option<T>>)
    ensures
        present(items).len() <= items.len(),
        (forall|i: int| 0 <= i < items.len() ==> (#[trigger] items[i]) is Some) ==> present(
            items,
        ).len() == items.len() && forall|i: int|
            0 <= i < items.len() ==> Some(#[trigger] present(items)[i]) == items[i],
    decreases items.len(),
{
    if items.len() > 0 {
        let fewer = items.drop_last();
        lemma_all_present(fewer);
        if forall|i: int| 0 <= i < items.len() ==> (#[trigger] items[i]) is Some {
            assert forall|i: int| 0 <= i < fewer.len() implies (#[trigger] fewer[i]) is Some by {
                assert(fewer[i] == items[i]);
            }
            assert(items[items.len() - 1] is Some);
            assert forall|i: int| 0 <= i < items.len() implies Some(#[trigger] present(items)[i])
                == items[i] by {
                if i < fewer.len() {
                    assert(Some(present(fewer)[i]) == fewer[i]);
                }
            }
        }
    }
}

/// The cells of two tables that hold the same texts agree one by one.
pub proof fn lemma_same_cells(a: Seq<Vec<String>>, b: Seq<Vec<String>>)
    requires
        grid(a) == grid(b),
    ensures
        a.len() == b.len(),
        forall|i: int| 0 <= i < a.len() ==> (#[trigger] a[i])@.len() == b[i]@.len(),
        forall|i: int, j: int|
            0 <= i < a.len() && 0 <= j < a[i]@.len() ==> (#[trigger] a[i]@[j])@ == b[i]@[j]@,
{
    assert(grid(a).len() == a.len() && grid(b).len() == b.len());
    assert forall|i: int| 0 <= i < a.len() implies (#[trigger] a[i])@.len() == b[i]@.len() by {
        assert(grid(a)[i] == texts(a[i]@) && grid(b)[i] == texts(b[i]@));
        assert(texts(a[i]@).len() == texts(b[i]@).len());
    }
    assert forall|i: int, j: int| 0 <= i < a.len() && 0 <= j < a[i]@.len() implies (
    #[trigger] a[i]@[j])@ == b[i]@[j]@ by {
        assert(grid(a)[i] == texts(a[i]@) && grid(b)[i] == texts(b[i]@));
        assert(texts(a[i]@)[j] == texts(b[i]@)[j]);
    }
}

/// Whether `text` is the number `n` in decimal: digits without a needless zero in
/// front that stand for `n`, behind a minus sign if `n` is negative.
pub open spec fn writes(text: Seq<char>, n: int) -> bool {
    if n < 0 {
        text.len() > 0 && text[0] == '-' && writes_digits(text.skip(1), -n)
    } else {
        writes_digits(text, n)
    }
}

/// Whether `text` is made of digits that stand for `n`, without a needless zero in
/// front.
pub open spec fn writes_digits(text: Seq<char>, n: int) -> bool {
    &&& text.len() > 0
    &&& forall|i: int| 0 <= i < text.len() ==> '0' <= #[trigger] text[i] <= '9'
    &&& text.len() > 1 ==> text[0] != '0'
    &&& number_in(text) == n
}

pub proof fn lemma_decimal_writes(n: int)
    ensures
        writes(decimal(n), n),
{
    let size = if n < 0 {
        (-n) as nat
    } else {
        n as nat
    };
    law_digits_read_back(size);
    if digits(size).len() > 1 {
        assert(size >= 10);
    }
    if n < 0 {
        assert(decimal(n).skip(1) == digits(size));
    }
}

/// A number is shown in decimal, as people write it.
pub proof fn law_numbers_are_written_in_decimal(n: i64, signed: String, m: u64, unsigned: String)
    requires
        call_ensures(decimal_i64, (n,), signed),
        call_ensures(decimal_u64, (m,), unsigned),
    ensures
        writes(signed@, n as int),
        writes(unsigned@, m as int),
{
    lemma_decimal_writes(n as int);
    lemma_decimal_writes(m as int);
}

/// A pattern is found exactly where the text is made of something, the pattern and
/// something more.
pub proof fn law_occurs(s: Seq<char>, pattern: Seq<char>)
    ensures
        occurs(s, pattern) <==> exists|before: Seq<char>, after: Seq<char>|
            s == #[trigger] (before + pattern + after),
        forall|before: Seq<char>, after: Seq<char>|
            s == #[trigger] (before + pattern + after) ==> occurs_at(
                s,
                pattern,
                before.len() as int,
            ),
{
    if occurs(s, pattern) {
        let at = choose|at: int| occurs_at(s, pattern, at);
        let before = s.take(at);
        let after = s.skip(at + pattern.len());
        assert(s == before + s.subrange(at, at + pattern.len()) + after);
        assert(s == before + pattern + after);
    }
    assert forall|before: Seq<char>, after: Seq<char>|
        s == #[trigger] (before + pattern + after) implies occurs_at(
        s,
        pattern,
        before.len() as int,
    ) by {
        let at = before.len() as int;
        assert(s.subrange(at, at + pattern.len()) == pattern);
    }
}

/// Searching a text tells whether the pattern stands anywhere in it.
pub proof fn law_contains(s: &str, pattern: &str, found: bool)
    requires
        call_ensures(contains, (s, pattern), found),
    ensures
        found <==> exists|before: Seq<char>, after: Seq<char>|
            s@ == #[trigger] (before + pattern@ + after),
{
    law_occurs(s@, pattern@);
}

/// Searching from the end gives the last place at which the pattern stands.
pub proof fn law_rfind(s: &str, pattern: &str, found: Option<usize>)
    requires
        call_ensures(rfind, (s, pattern), found),
    ensures
        found matches Some(at) ==> {
            &&& at + pattern@.len() <= s@.len()
            &&& s@ == s@.take(at as int) + pattern@ + s@.skip(at + pattern@.len())
            &&& forall|before: Seq<char>, after: Seq<char>|
                s@ == #[trigger] (before + pattern@ + after) ==> before.len() <= at
        },
        found is None ==> forall|before: Seq<char>, after: Seq<char>|
            s@ != #[trigger] (before + pattern@ + after),
{
    let bound = s@.len() - pattern@.len();
    lemma_last_position_up_to(s@, pattern@, bound);
    law_occurs(s@, pattern@);
    if let Some(at) = found {
        assert(s@ == s@.take(at as int) + s@.subrange(at as int, at + pattern@.len()) + s@.skip(
            at + pattern@.len(),
        ));
        assert forall|before: Seq<char>, after: Seq<char>|
            s@ == #[trigger] (before + pattern@ + after) implies before.len() <= at by {
            assert(occurs_at(s@, pattern@, before.len() as int));
        }
    }
}

/// The code points that Unicode calls white space.
pub open spec fn white_space_codes() -> Seq<int> {
    seq![
        9, 10, 11, 12, 13, 32, 133, 160, 5760, 8192, 8193, 8194, 8195, 8196, 8197, 8198, 8199, 8200,
        8201, 8202, 8232, 8233, 8239, 8287, 12288,
    ]
}

/// A character is white space exactly if its code point is listed.
pub proof fn law_white_space(c: char, white: bool)
    requires
        call_ensures(is_white, (c,), white),
    ensures
        white <==> white_space_codes().contains(c as int),
        is_white_space(c) <==> white_space_codes().contains(c as int),
{
    lemma_white_space(c);
}

/// Whether `inner` is `text` from its first character that is not white space to its
/// last.
pub open spec fn stripped(text: Seq<char>, inner: Seq<char>) -> bool {
    &&& inner.len() > 0
    &&& !white_space_codes().contains(inner[0] as int)
    &&& !white_space_codes().contains(inner.last() as int)
    &&& exists|from: int, to: int|
        {
            &&& 0 <= from <= to <= text.len()
            &&& inner == #[trigger] text.subrange(from, to)
            &&& forall|i: int|
                0 <= i < from || to <= i < text.len() ==> white_space_codes().contains(
                    #[trigger] text[i] as int,
                )
        }
}

/// Trimming leaves a text from its first character that is not white space to its last,
/// and nothing of a text that is all white space.
pub proof fn law_trim_strips(s: &str, inner: &str)
    requires
        call_ensures(trim, (s,), inner),
    ensures
        inner@.len() > 0 ==> stripped(s@, inner@),
        inner@.len() == 0 <==> forall|i: int|
            0 <= i < s@.len() ==> white_space_codes().contains(#[trigger] s@[i] as int),
{
    lemma_typed_address(s@);
}

/// What was typed counts as an address unless it is all white space. The address is
/// what was typed from its first character that is not white space to its last.
pub proof fn law_typed_address(input: &str, multiaddr: Option<String>)
    requires
        call_ensures(multiaddr_from, (input,), multiaddr),
    ensures
        multiaddr is Some <==> exists|i: int|
            0 <= i < input@.len() && !white_space_codes().contains(#[trigger] input@[i] as int),
        multiaddr matches Some(text) ==> stripped(input@, text@),
{
    lemma_typed_address(input@);
}

pub proof fn lemma_typed_address(s: Seq<char>)
    ensures
        typed_multiaddr(s) is Some <==> exists|i: int|
            0 <= i < s.len() && !white_space_codes().contains(#[trigger] s[i] as int),
        typed_multiaddr(s) matches Some(inner) ==> stripped(s, inner),
{
    law_trim(s);
    assert forall|c: char| #[trigger] is_white_space(c) <==> white_space_codes().contains(
        c as int,
    ) by {
        lemma_white_space(c);
    }
    let (from, to) = choose|from: int, to: int|
        {
            &&& 0 <= from <= to <= s.len()
            &&& #[trigger] s.subrange(from, to) == trimmed(s)
            &&& forall|i: int| 0 <= i < from ==> is_white_space(#[trigger] s[i])
            &&& forall|i: int| to <= i < s.len() ==> is_white_space(#[trigger] s[i])
        };
    assert forall|i: int| 0 <= i < from || to <= i < s.len() implies white_space_codes().contains(
        #[trigger] s[i] as int,
    ) by {
        assert(is_white_space(s[i]));
    }
    if trimmed(s).len() > 0 {
        assert(s.subrange(from, to)[0] == s[from]);
        assert(!is_white_space(trimmed(s)[0]));
        assert(!is_white_space(trimmed(s).last()));
        assert(!white_space_codes().contains(s[from] as int));
    }
}

proof fn lemma_white_space(c: char)
    ensures
        is_white_space(c) <==> white_space_codes().contains(c as int),
{
    let codes = white_space_codes();
    let code = c as int;
    if is_white_space(c) {
        if 9 <= code <= 13 {
            assert(codes[code - 9] == code);
        } else if code == 32 {
            assert(codes[5] == code);
        } else if code == 133 {
            assert(codes[6] == code);
        } else if code == 160 {
            assert(codes[7] == code);
        } else if code == 5760 {
            assert(codes[8] == code);
        } else if 8192 <= code <= 8202 {
            assert(codes[code - 8192 + 9] == code);
        } else if code == 8232 {
            assert(codes[20] == code);
        } else if code == 8233 {
            assert(codes[21] == code);
        } else if code == 8239 {
            assert(codes[22] == code);
        } else if code == 8287 {
            assert(codes[23] == code);
        } else {
            assert(codes[24] == code);
        }
    }
}

/// Whether a cell shows a text: the text itself, or nothing where there is none.
pub open spec fn shows_text(cell: Seq<char>, text: Option<String>) -> bool {
    match text {
        Some(t) => cell == t@,
        None => cell.len() == 0,
    }
}

/// Whether a cell shows a number: in decimal, or as zero where there is none.
pub open spec fn shows_number(cell: Seq<char>, number: Option<i64>) -> bool {
    match number {
        Some(n) => writes(cell, n as int),
        None => writes(cell, 0),
    }
}

/// Whether a cell shows a point in time: as a date, or as `otherwise` where there is
/// none or where it lies in no year that can be written.
pub open spec fn shows_date(cell: Seq<char>, timestamp: Option<i64>, otherwise: Seq<char>) -> bool {
    match timestamp {
        Some(t) => if FIRST_TIMESTAMP <= t && t <= LAST_TIMESTAMP {
            cell == rfc3339_text(t)
        } else {
            cell == otherwise
        },
        None => cell == otherwise,
    }
}

/// Whether the cells of a row show a peer.
pub open spec fn shows_peer(row: Seq<Seq<char>>, record: PeerRecord) -> bool {
    &&& row.len() == 3
    &&& shows_text(row[0], record.peer_id)
    &&& shows_text(row[1], record.multiaddr)
    &&& shows_date(row[2], record.last_seen, "Never"@)
}

/// Whether the cells of a row show a device.
pub open spec fn shows_device(row: Seq<Seq<char>>, record: DeviceRecord) -> bool {
    &&& row.len() == 4
    &&& shows_text(row[0], record.device_id)
    &&& shows_text(row[1], record.device_type)
    &&& shows_text(row[2], record.device_name)
    &&& shows_date(row[3], record.authorized_at, "N/A"@)
}

/// Whether the cells of a row show an operation.
pub open spec fn shows_operation(row: Seq<Seq<char>>, record: OpRecord) -> bool {
    &&& row.len() == 4
    &&& shows_number(row[0], record.id)
    &&& shows_text(row[1], record.table_name)
    &&& shows_text(row[2], record.op_type)
    &&& shows_number(row[3], record.timestamp)
}

/// Whether the cells of a row show a row of a query result with so many columns: the
/// text of every column, or `NULL` where it holds none.
pub open spec fn shows_result(row: Seq<Seq<char>>, cells: Seq<Option<String>>, columns: nat) -> bool {
    &&& row.len() == columns
    &&& forall|i: int|
        0 <= i < columns ==> #[trigger] row[i] == (if i < cells.len() && cells[i] is Some {
            cells[i]->0@
        } else {
            "NULL"@
        })
}

pub proof fn lemma_record_rows(peer: PeerRecord, device: DeviceRecord, op: OpRecord)
    ensures
        shows_peer(peer_row_view(peer), peer),
        shows_device(device_row_view(device), device),
        shows_operation(op_row_view(op), op),
{
    lemma_decimal_writes(0);
    if let Some(id) = op.id {
        lemma_decimal_writes(id as int);
    }
    if let Some(timestamp) = op.timestamp {
        lemma_decimal_writes(timestamp as int);
    }
}

/// A peer is shown by its id, its multiaddress and the date it was last seen.
pub proof fn law_peer_row(record: PeerRecord, row: Vec<String>)
    requires
        call_ensures(peer_row, (record,), row),
    ensures
        row@.len() == 3,
        shows_text(row@[0]@, record.peer_id),
        shows_text(row@[1]@, record.multiaddr),
        shows_date(row@[2]@, record.last_seen, "Never"@),
{
    let shown = texts(row@);
    assert(shown == peer_row_view(record));
    assert(shown.len() == row@.len());
    assert(shown[0] == row@[0]@ && shown[1] == row@[1]@ && shown[2] == row@[2]@);
}

/// A device is shown by its id, its type, its name and the date it was authorized.
pub proof fn law_device_row(record: DeviceRecord, row: Vec<String>)
    requires
        call_ensures(device_row, (record,), row),
    ensures
        row@.len() == 4,
        shows_text(row@[0]@, record.device_id),
        shows_text(row@[1]@, record.device_type),
        shows_text(row@[2]@, record.device_name),
        shows_date(row@[3]@, record.authorized_at, "N/A"@),
{
    let shown = texts(row@);
    assert(shown == device_row_view(record));
    assert(shown.len() == row@.len());
    assert(shown[0] == row@[0]@ && shown[1] == row@[1]@ && shown[2] == row@[2]@ && shown[3]
        == row@[3]@);
}

/// An operation is shown by its number, its table, what it did and when.
pub proof fn law_op_row(record: OpRecord, row: Vec<String>)
    requires
        call_ensures(op_row, (record,), row),
    ensures
        row@.len() == 4,
        shows_number(row@[0]@, record.id),
        shows_text(row@[1]@, record.table_name),
        shows_text(row@[2]@, record.op_type),
        shows_number(row@[3]@, record.timestamp),
{
    let shown = texts(row@);
    assert(shown == op_row_view(record));
    assert(shown.len() == row@.len());
    assert(shown[0] == row@[0]@ && shown[1] == row@[1]@ && shown[2] == row@[2]@ && shown[3]
        == row@[3]@);
    lemma_decimal_writes(0);
    if let Some(id) = record.id {
        lemma_decimal_writes(id as int);
    }
    if let Some(timestamp) = record.timestamp {
        lemma_decimal_writes(timestamp as int);
    }
}

/// A row of a query result is shown column by column.
pub proof fn law_result_row(cells: &Vec<Option<String>>, columns: usize, row: Vec<String>)
    requires
        call_ensures(result_row, (cells, columns), row),
    ensures
        row@.len() == columns,
        forall|i: int|
            0 <= i < columns && i < cells@.len() && cells@[i] is Some ==> (#[trigger] row@[i])@
                == cells@[i]->0@,
        forall|i: int|
            0 <= i < columns && (i >= cells@.len() || cells@[i] is None) ==> (#[trigger] row@[i])@
                == "NULL"@,
{
    assert(texts(row@).len() == columns);
    assert forall|i: int| 0 <= i < columns implies (#[trigger] row@[i])@ == result_row_view(
        cells@,
        columns as nat,
    )[i] by {
        assert(texts(row@)[i] == row@[i]@);
    }
}

/// A point in time is shown as its date where it has one.
pub proof fn law_format_timestamp(timestamp: Option<i64>, otherwise: &str, shown: String)
    requires
        call_ensures(format_timestamp, (timestamp, otherwise), shown),
    ensures
        shows_date(shown@, timestamp, otherwise@),
{
}

/// A date that was written is shown as it was written.
pub proof fn law_shown_date(written: Option<String>, otherwise: &str, shown: String)
    requires
        call_ensures(shown_date, (written, otherwise), shown),
    ensures
        written matches Some(date) ==> shown@ == date@,
        written is None ==> shown@ == otherwise@,
{
}

/// A peer is written under the id that ends its multiaddress, behind the last `/p2p/`,
/// or under the given one where there is no `/p2p/`; with the multiaddress as it is
/// and the time it was given.
pub proof fn law_peer_at(multiaddr: String, fallback: String, now: i64, peer: NewPeer)
    requires
        call_ensures(peer_at, (multiaddr, fallback, now), peer),
    ensures
        peer.multiaddr@ == multiaddr@,
        peer.last_seen == now,
        named_or(multiaddr@, peer.peer_id@, peer.peer_id@ == fallback@),
{
    lemma_named(multiaddr@);
}

/// A peer that is added is written under the id that its multiaddress names. Where it
/// names none the id is a random UUID.
pub proof fn law_new_peer(multiaddr: String, peer: NewPeer)
    requires
        call_ensures(new_peer, (multiaddr,), peer),
    ensures
        peer.multiaddr@ == multiaddr@,
        FIRST_TIMESTAMP <= peer.last_seen <= LAST_TIMESTAMP,
        named_or(multiaddr@, peer.peer_id@, is_random_uuid(peer.peer_id@)),
{
    lemma_named(multiaddr@);
}

/// Whether `id` is what follows the last `/p2p/` of a multiaddress; where there is no
/// `/p2p/`, whether `otherwise` holds.
pub open spec fn named_or(multiaddr: Seq<char>, id: Seq<char>, otherwise: bool) -> bool {
    if occurs(multiaddr, "/p2p/"@) {
        &&& id.len() + 5 <= multiaddr.len()
        &&& multiaddr == multiaddr.take(multiaddr.len() - id.len() - 5) + "/p2p/"@ + id
        &&& !occurs(multiaddr.skip(multiaddr.len() - id.len() - 4), "/p2p/"@)
    } else {
        otherwise
    }
}

proof fn lemma_named(multiaddr: Seq<char>)
    ensures
        match crate::peer::peer_id_in(multiaddr) {
            Some(id) => occurs(multiaddr, "/p2p/"@) && named_or(multiaddr, id, false),
            None => !occurs(multiaddr, "/p2p/"@),
        },
{
    law_peer_id_follows_the_last_marker(multiaddr);
}

/// The tabs stand in the bar in this order: dashboard, peers, devices, operations,
/// SQL query, log viewer, help.
pub proof fn law_tab_order(index: usize, tab: TabItem, other: TabItem, position: usize)
    requires
        call_ensures(TabItem::from_index, (index,), tab),
        call_ensures(TabItem::index, (other,), position),
    ensures
        tab is Dashboard <==> index == 0,
        tab is Peers <==> index == 1,
        tab is Devices <==> index == 2,
        tab is OpLog <==> index == 3,
        tab is DbQuery <==> index == 4,
        tab is LogViewer <==> index == 5,
        tab is Help <==> index >= 6,
        other is Dashboard <==> position == 0,
        other is Peers <==> position == 1,
        other is Devices <==> position == 2,
        other is OpLog <==> position == 3,
        other is DbQuery <==> position == 4,
        other is LogViewer <==> position == 5,
        other is Help <==> position == 6,
{
}

/// Whether a list of texts holds what a list of strings holds.
pub open spec fn same_texts(shown: Seq<Seq<char>>, strings: Seq<String>) -> bool {
    &&& shown.len() == strings.len()
    &&& forall|i: int| 0 <= i < strings.len() ==> #[trigger] shown[i] == strings[i]@
}

/// Whether a table of texts holds what a table of strings holds.
pub open spec fn same_table(shown: Seq<Seq<Seq<char>>>, rows: Seq<Vec<String>>) -> bool {
    &&& shown.len() == rows.len()
    &&& forall|i: int| 0 <= i < rows.len() ==> same_texts(#[trigger] shown[i], rows[i]@)
}

/// What is said of a state is said of its fields, each under its own name.
pub proof fn law_state_is_its_fields(app: App)
    ensures
        app@.active_tab == app.active_tab,
        app@.input_mode == app.input_mode,
        app@.daemon_running == app.daemon_running,
        app@.daemon_pid == app.daemon_pid,
        app@.daemon_uptime == app.daemon_uptime,
        app@.db_size_bytes == app.db_size_bytes,
        same_table(app@.peers, app.peers@),
        same_table(app@.devices, app.devices@),
        same_table(app@.oplog_entries, app.oplog_entries@),
        app@.query_input == app.query_input@,
        app@.query_error is Some <==> app.query_error is Some,
        app.query_error matches Some(error) ==> app@.query_error == Some(error@),
        same_table(app@.query_results, app.query_results@),
        same_texts(app@.query_headers, app.query_headers@),
        app@.generic_input == app.generic_input@,
        app@.info_message is Some <==> app.info_message is Some,
        app.info_message matches Some(message) ==> app@.info_message == Some(message@),
        app@.error_message is Some <==> app.error_message is Some,
        app.error_message matches Some(message) ==> app@.error_message == Some(message@),
        app@.show_dialog == app.show_dialog,
        same_texts(app@.log_lines, app.log_lines@),
        app@.log_scroll == app.log_scroll,
        app@.last_refresh == app.last_refresh,
{
}

/// What is said of the settings is said of their fields, each under its own name.
pub proof fn law_settings_are_their_fields(config: Config)
    ensures
        config@.db_path == config.db_path@,
        config@.log_file == config.log_file@,
        config@.user is Some <==> config.user is Some,
        config.user matches Some(user) ==> {
            &&& config@.user->0.name == user.name@
            &&& config@.user->0.email == user.email@
        },
        config@.network.listen_port == config.network.listen_port,
        config@.network.listen_address == config.network.listen_address@,
        same_texts(config@.network.bootstrap_nodes, config.network.bootstrap_nodes@),
        same_texts(config@.network.relay_servers, config.network.relay_servers@),
        config@.sync == config.sync,
{
}

/// What an action asks for is what its name says.
pub proof fn law_actions_ask_for_what_they_name(action: Action)
    ensures
        action is Nothing <==> action@ is Nothing,
        action is Quit <==> action@ is Quit,
        action is ReadLogs <==> action@ is ReadLogs,
        action is RefreshAll <==> action@ is RefreshAll,
        action is RunQuery <==> action@ is RunQuery,
        action is AddPeer <==> action@ is AddPeer,
        action matches Action::AddPeer(multiaddr) ==> action@->AddPeer_0 == multiaddr@,
{
}

} // verus!
