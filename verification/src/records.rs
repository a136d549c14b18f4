//! Database records and the table rows that show them.

use vstd::prelude::*;

use crate::clock::{has_date, rfc3339, rfc3339_text};
use crate::text::{decimal, decimal_i64, grid, keep_present, present, texts};

verus! {

/// Selects the known peers, the one seen last first.
pub const SELECT_PEERS: &'static str =
    "SELECT peer_id, multiaddr, last_seen FROM peers ORDER BY last_seen DESC";

/// Selects the authorized devices.
pub const SELECT_DEVICES: &'static str =
    "SELECT device_id, device_type, device_name, authorized_at FROM devices";

/// Selects the latest operations, the newest first.
pub const SELECT_OPLOG: &'static str =
    "SELECT id, table_name, op_type, timestamp FROM oplog ORDER BY timestamp DESC LIMIT 50";

/// A row of the `peers` table; a column that could not be read is absent.
#[derive(Debug)]
pub struct PeerRecord {
    pub peer_id: Option<String>,
    pub multiaddr: Option<String>,
    pub last_seen: Option<i64>,
}

/// A row of the `devices` table; a column that could not be read is absent.
#[derive(Debug)]
pub struct DeviceRecord {
    pub device_id: Option<String>,
    pub device_type: Option<String>,
    pub device_name: Option<String>,
    pub authorized_at: Option<i64>,
}

/// A row of the `oplog` table; a column that could not be read is absent.
#[derive(Debug)]
pub struct OpRecord {
    pub id: Option<i64>,
    pub table_name: Option<String>,
    pub op_type: Option<String>,
    pub timestamp: Option<i64>,
}

/// The text, or the empty text where there is none.
pub open spec fn text_or_empty(text: Option<String>) -> Seq<char> {
    match text {
        Some(t) => t@,
        None => Seq::empty(),
    }
}

/// The number in decimal, or `0` where there is none.
pub open spec fn number_or_zero(number: Option<i64>) -> Seq<char> {
    match number {
        Some(n) => decimal(n as int),
        None => decimal(0),
    }
}

/// A timestamp as a date, or `otherwise` where there is none or it has no date.
pub open spec fn date_or(timestamp: Option<i64>, otherwise: Seq<char>) -> Seq<char> {
    match timestamp {
        Some(t) => if has_date(t) {
            rfc3339_text(t)
        } else {
            otherwise
        },
        None => otherwise,
    }
}

/// The cells that show a peer.
pub open spec fn peer_row_view(record: PeerRecord) -> Seq<Seq<char>> {
    seq![
        text_or_empty(record.peer_id),
        text_or_empty(record.multiaddr),
        date_or(record.last_seen, "Never"@),
    ]
}

/// The cells that show a device.
pub open spec fn device_row_view(record: DeviceRecord) -> Seq<Seq<char>> {
    seq![
        text_or_empty(record.device_id),
        text_or_empty(record.device_type),
        text_or_empty(record.device_name),
        date_or(record.authorized_at, "N/A"@),
    ]
}

/// The cells that show an operation.
pub open spec fn op_row_view(record: OpRecord) -> Seq<Seq<char>> {
    seq![
        number_or_zero(record.id),
        text_or_empty(record.table_name),
        text_or_empty(record.op_type),
        number_or_zero(record.timestamp),
    ]
}

/// The text, or the empty text where there is none.
fn or_empty(text: Option<String>) -> (shown: String)
    ensures
        shown@ == text_or_empty(text),
{
    match text {
        Some(t) => t,
        None => String::new(),
    }
}

/// The number in decimal, or `0` where there is none.
fn or_zero(number: Option<i64>) -> (shown: String)
    ensures
        shown@ == number_or_zero(number),
{
    match number {
        Some(n) => decimal_i64(n),
        None => decimal_i64(0),
    }
}

/// The written date, or `otherwise` where there is none.
pub fn shown_date(written: Option<String>, otherwise: &str) -> (shown: String)
    ensures
        shown@ == (match written {
            Some(date) => date@,
            None => otherwise@,
        }),
{
    match written {
        Some(date) => date,
        None => otherwise.to_owned(),
    }
}

/// A timestamp as a date, or `otherwise` where there is none or it has no date.
pub fn format_timestamp(timestamp: Option<i64>, otherwise: &str) -> (shown: String)
    ensures
        shown@ == date_or(timestamp, otherwise@),
{
    let written = match timestamp {
        Some(t) => rfc3339(t),
        None => None,
    };
    shown_date(written, otherwise)
}

/// The cells that show a peer: what is missing is empty, and a peer without a
/// date was never seen.
pub fn peer_row(record: PeerRecord) -> (row: Vec<String>)
    ensures
        texts(row@) == peer_row_view(record),
{
    let last_seen = format_timestamp(record.last_seen, "Never");
    let row = vec![or_empty(record.peer_id), or_empty(record.multiaddr), last_seen];
    assert(texts(row@) == peer_row_view(record));
    row
}

/// The cells that show a device.
pub fn device_row(record: DeviceRecord) -> (row: Vec<String>)
    ensures
        texts(row@) == device_row_view(record),
{
    let authorized_at = format_timestamp(record.authorized_at, "N/A");
    let row = vec![
        or_empty(record.device_id),
        or_empty(record.device_type),
        or_empty(record.device_name),
        authorized_at,
    ];
    assert(texts(row@) == device_row_view(record));
    row
}

/// The cells that show an operation.
pub fn op_row(record: OpRecord) -> (row: Vec<String>)
    ensures
        texts(row@) == op_row_view(record),
{
    let row = vec![
        or_zero(record.id),
        or_empty(record.table_name),
        or_empty(record.op_type),
        or_zero(record.timestamp),
    ];
    assert(texts(row@) == op_row_view(record));
    row
}

/// The rows that show the peers whose records could be read.
pub fn peer_rows(records: Vec<Option<PeerRecord>>) -> (rows: Vec<Vec<String>>)
    ensures
        grid(rows@) == present(records@).map_values(|r: PeerRecord| peer_row_view(r)),
{
    let kept = keep_present(records);
    let mut rows: Vec<Vec<String>> = Vec::new();
    for record in it: kept
        invariant
            it.seq() == kept@,
            rows@.len() == it.index(),
            forall|i: int| 0 <= i < rows@.len() ==> texts(#[trigger] rows@[i]@) == peer_row_view(kept@[i]),
    {
        rows.push(peer_row(record));
    }
    assert(grid(rows@) == kept@.map_values(|r: PeerRecord| peer_row_view(r)));
    rows
}

/// The rows that show the devices whose records could be read.
pub fn device_rows(records: Vec<Option<DeviceRecord>>) -> (rows: Vec<Vec<String>>)
    ensures
        grid(rows@) == present(records@).map_values(|r: DeviceRecord| device_row_view(r)),
{
    let kept = keep_present(records);
    let mut rows: Vec<Vec<String>> = Vec::new();
    for record in it: kept
        invariant
            it.seq() == kept@,
            rows@.len() == it.index(),
            forall|i: int| 0 <= i < rows@.len() ==> texts(#[trigger] rows@[i]@) == device_row_view(kept@[i]),
    {
        rows.push(device_row(record));
    }
    assert(grid(rows@) == kept@.map_values(|r: DeviceRecord| device_row_view(r)));
    rows
}

/// The rows that show the operations whose records could be read.
pub fn op_rows(records: Vec<Option<OpRecord>>) -> (rows: Vec<Vec<String>>)
    ensures
        grid(rows@) == present(records@).map_values(|r: OpRecord| op_row_view(r)),
{
    let kept = keep_present(records);
    let mut rows: Vec<Vec<String>> = Vec::new();
    for record in it: kept
        invariant
            it.seq() == kept@,
            rows@.len() == it.index(),
            forall|i: int| 0 <= i < rows@.len() ==> texts(#[trigger] rows@[i]@) == op_row_view(kept@[i]),
    {
        rows.push(op_row(record));
    }
    assert(grid(rows@) == kept@.map_values(|r: OpRecord| op_row_view(r)));
    rows
}

/// What a cell of a query result shows: its text, or `NULL`.
pub open spec fn cell_view(cell: Option<String>) -> Seq<char> {
    match cell {
        Some(t) => t@,
        None => "NULL"@,
    }
}

/// The cells of a row of a query result, one for each column; a cell that the row
/// lacks shows as `NULL`.
pub open spec fn result_row_view(cells: Seq<Option<String>>, columns: nat) -> Seq<Seq<char>> {
    Seq::new(
        columns,
        |i: int|
            if i < cells.len() {
                cell_view(cells[i])
            } else {
                "NULL"@
            },
    )
}

/// The cells of a row of a query result, one for each column; what is not text
/// shows as `NULL`.
pub fn result_row(cells: &Vec<Option<String>>, columns: usize) -> (row: Vec<String>)
    ensures
        texts(row@) == result_row_view(cells@, columns as nat),
{
    let mut row: Vec<String> = Vec::new();
    let mut i: usize = 0;
    while i < columns
        invariant
            i <= columns,
            row@.len() == i,
            forall|j: int|
                0 <= j < i ==> (#[trigger] row@[j])@ == result_row_view(cells@, columns as nat)[j],
        decreases columns - i,
    {
        let shown = if i < cells.len() {
            match &cells[i] {
                Some(t) => t.clone(),
                None => "NULL".to_owned(),
            }
        } else {
            "NULL".to_owned()
        };
        row.push(shown);
        i += 1;
    }
    assert(texts(row@) == result_row_view(cells@, columns as nat));
    row
}

/// The rows of a query result that could be read, with one cell for each column.
pub fn result_rows(rows_read: Vec<Option<Vec<Option<String>>>>, columns: usize) -> (rows: Vec<
    Vec<String>,
>)
    ensures
        grid(rows@) == present(rows_read@).map_values(
            |r: Vec<Option<String>>| result_row_view(r@, columns as nat),
        ),
{
    let kept = keep_present(rows_read);
    let mut rows: Vec<Vec<String>> = Vec::new();
    for cells in it: kept
        invariant
            it.seq() == kept@,
            rows@.len() == it.index(),
            forall|i: int|
                0 <= i < rows@.len() ==> texts(#[trigger] rows@[i]@) == result_row_view(
                    kept@[i]@,
                    columns as nat,
                ),
    {
        rows.push(result_row(&cells, columns));
    }
    assert(grid(rows@) == kept@.map_values(
        |r: Vec<Option<String>>| result_row_view(r@, columns as nat),
    ));
    rows
}

} // verus!
