//! The provider's snapshot records and the table that lists them.
use vstd::prelude::*;
use vstd::string::*;
use vstd::utf8::encode_utf8;
use crate::text::{decimal, decimal_string, push_char};

verus! {

/// A snapshot record as the provider lists it.
pub struct Snapshot {
    pub id: String,
    pub created: String,
    pub status: String,
    pub dataset_id: String,
    pub dataset_size: u64,
}

/// A list of snapshot records.
pub struct SnapshotsResponse {
    pub snapshots: Vec<Snapshot>,
}

/// The number of bytes of a text in UTF-8, which `str::len` counts.
pub open spec fn byte_len(s: Seq<char>) -> nat {
    encode_utf8(s).len()
}

/// The column titles of the snapshot table.
pub open spec fn header_cells() -> Seq<Seq<char>> {
    seq!["ID"@, "Created"@, "Status"@, "Dataset ID"@, "Size"@]
}

/// The width of column `j`: the longest of its title and its cells, cells
/// measured in bytes.
pub open spec fn column_width(rows: Seq<Seq<Seq<char>>>, j: int) -> nat
    decreases rows.len(),
{
    if rows.len() == 0 {
        header_cells()[j].len()
    } else {
        let before = column_width(rows.drop_last(), j);
        let here = byte_len(rows.last()[j]);
        if here > before {
            here
        } else {
            before
        }
    }
}

/// The widths of the five columns.
pub open spec fn column_widths(rows: Seq<Seq<Seq<char>>>) -> Seq<nat> {
    Seq::new(5, |j: int| column_width(rows, j))
}

/// `n` copies of `c`.
pub open spec fn repeat_char(c: char, n: nat) -> Seq<char> {
    Seq::new(n, |i: int| c)
}

/// The segments of a rule line for the first `n` columns: each column's
/// width plus two, drawn with `c`, then a `+`.
pub open spec fn rule_segments(ws: Seq<nat>, c: char, n: nat) -> Seq<char>
    decreases n,
{
    if n == 0 {
        Seq::empty()
    } else {
        rule_segments(ws, c, (n - 1) as nat) + repeat_char(c, ws[n - 1] + 2) + seq!['+']
    }
}

/// A rule line drawn with `c`, without its line break.
pub open spec fn rule_line(ws: Seq<nat>, c: char) -> Seq<char> {
    seq!['+'] + rule_segments(ws, c, ws.len())
}

/// A cell between one space on each side, left-aligned and filled with
/// spaces up to `w` characters.
pub open spec fn padded(s: Seq<char>, w: nat) -> Seq<char> {
    seq![' '] + s + repeat_char(' ', if s.len() < w { (w - s.len()) as nat } else { 0 })
        + seq![' ']
}

/// The first `n` cells of a row, each padded and followed by a `|`.
pub open spec fn row_segments(cells: Seq<Seq<char>>, ws: Seq<nat>, n: nat) -> Seq<char>
    decreases n,
{
    if n == 0 {
        Seq::empty()
    } else {
        row_segments(cells, ws, (n - 1) as nat) + padded(cells[n - 1], ws[n - 1]) + seq!['|']
    }
}

/// A row line, without its line break.
pub open spec fn row_line(cells: Seq<Seq<char>>, ws: Seq<nat>) -> Seq<char> {
    seq!['|'] + row_segments(cells, ws, ws.len())
}

/// The row lines of the table, each with its line break.
pub open spec fn body_lines(rows: Seq<Seq<Seq<char>>>, ws: Seq<nat>) -> Seq<char>
    decreases rows.len(),
{
    if rows.len() == 0 {
        Seq::empty()
    } else {
        body_lines(rows.drop_last(), ws) + row_line(rows.last(), ws) + seq!['\n']
    }
}

/// The table of `rows`: a rule, the titles, a double rule, one line per row
/// and a closing rule; a fixed sentence where there are no rows.
pub open spec fn table_text(rows: Seq<Seq<Seq<char>>>) -> Seq<char> {
    if rows.len() == 0 {
        "No snapshots found.\n"@
    } else {
        let ws = column_widths(rows);
        rule_line(ws, '-') + seq!['\n'] + row_line(header_cells(), ws) + seq!['\n'] + rule_line(
            ws,
            '=',
        ) + seq!['\n'] + body_lines(rows, ws) + rule_line(ws, '-') + seq!['\n']
    }
}

/// The texts of a list of rows of cells.
pub open spec fn rows_view(rows: Seq<Vec<String>>) -> Seq<Seq<Seq<char>>> {
    rows.map_values(|row: Vec<String>| row@.map_values(|c: String| c@))
}

/// Holds where every row has five cells and each cell fits in memory.
pub open spec fn table_rows_fit(rows: Seq<Seq<Seq<char>>>) -> bool {
    forall|i: int|
        0 <= i < rows.len() ==> #[trigger] rows[i].len() == 5 && (forall|j: int|
            0 <= j < 5 ==> #[trigger] byte_len(rows[i][j]) <= isize::MAX as nat)
}

fn push_repeat(out: &mut String, c: char, n: usize)
    ensures
        final(out)@ == old(out)@ + repeat_char(c, n as nat),
{
    let mut i: usize = 0;
    while i < n
        invariant
            i <= n,
            out@ == old(out)@ + repeat_char(c, i as nat),
        decreases n - i,
    {
        push_char(out, c);
        i = i + 1;
        assert(out@ =~= old(out)@ + repeat_char(c, i as nat));
    }
}

/// The widths as naturals.
pub open spec fn widths_view(ws: Seq<usize>) -> Seq<nat> {
    ws.map_values(|w: usize| w as nat)
}

fn push_rule(out: &mut String, widths: &Vec<usize>, c: char)
    requires
        forall|j: int| 0 <= j < widths.len() ==> widths[j] <= isize::MAX,
    ensures
        final(out)@ == old(out)@ + rule_line(widths_view(widths@), c),
{
    let ghost ws = widths_view(widths@);
    push_char(out, '+');
    let mut j: usize = 0;
    while j < widths.len()
        invariant
            j <= widths.len(),
            ws == widths_view(widths@),
            forall|k: int| 0 <= k < widths.len() ==> widths[k] <= isize::MAX,
            out@ == old(out)@ + seq!['+'] + rule_segments(ws, c, j as nat),
        decreases widths.len() - j,
    {
        push_repeat(out, c, widths[j] + 2);
        push_char(out, '+');
        j = j + 1;
        assert(out@ =~= old(out)@ + seq!['+'] + rule_segments(ws, c, j as nat));
    }
    assert(old(out)@ + seq!['+'] + rule_segments(ws, c, ws.len()) =~= old(out)@ + rule_line(
        ws,
        c,
    ));
}

fn push_padded(out: &mut String, s: &str, w: usize)
    ensures
        final(out)@ == old(out)@ + padded(s@, w as nat),
{
    push_char(out, ' ');
    out.append(s);
    let n = s.unicode_len();
    let fill: usize = if n < w { w - n } else { 0 };
    push_repeat(out, ' ', fill);
    push_char(out, ' ');
    assert(out@ =~= old(out)@ + padded(s@, w as nat));
}

fn push_row(out: &mut String, cells: &Vec<String>, widths: &Vec<usize>)
    requires
        cells.len() == widths.len(),
    ensures
        final(out)@ == old(out)@ + row_line(cells@.map_values(|c: String| c@), widths_view(widths@)),
{
    let ghost ws = widths_view(widths@);
    let ghost cs = cells@.map_values(|c: String| c@);
    push_char(out, '|');
    let mut j: usize = 0;
    while j < widths.len()
        invariant
            j <= widths.len(),
            cells.len() == widths.len(),
            ws == widths_view(widths@),
            cs == cells@.map_values(|c: String| c@),
            out@ == old(out)@ + seq!['|'] + row_segments(cs, ws, j as nat),
        decreases widths.len() - j,
    {
        push_padded(out, cells[j].as_str(), widths[j]);
        push_char(out, '|');
        j = j + 1;
        assert(out@ =~= old(out)@ + seq!['|'] + row_segments(cs, ws, j as nat));
    }
    assert(old(out)@ + seq!['|'] + row_segments(cs, ws, ws.len()) =~= old(out)@ + row_line(cs, ws));
}

/// Renders rows of five cells as a table: columns as wide as their longest
/// entry, cells left-aligned.
pub fn render_table(rows: &Vec<Vec<String>>) -> (r: String)
    requires
        table_rows_fit(rows_view(rows@)),
    ensures
        r@ == table_text(rows_view(rows@)),
{
    let ghost rv = rows_view(rows@);
    if rows.len() == 0 {
        return String::from_str("No snapshots found.\n");
    }
    proof {
        reveal_strlit("ID");
        reveal_strlit("Created");
        reveal_strlit("Status");
        reveal_strlit("Dataset ID");
        reveal_strlit("Size");
    }
    let mut widths: Vec<usize> = vec![2, 7, 6, 10, 4];
    assert(widths_view(widths@) =~= column_widths(rv.take(0)));
    let mut i: usize = 0;
    while i < rows.len()
        invariant
            i <= rows.len(),
            rv == rows_view(rows@),
            table_rows_fit(rv),
            widths.len() == 5,
            widths_view(widths@) =~= column_widths(rv.take(i as int)),
            forall|j: int| 0 <= j < 5 ==> widths[j] <= isize::MAX,
        decreases rows.len() - i,
    {
        let row = &rows[i];
        let ghost before = widths@;
        assert(rv[i as int] == row@.map_values(|c: String| c@));
        assert(rv.take(i + 1).drop_last() =~= rv.take(i as int));
        assert(rv.take(i + 1).last() == rv[i as int]);
        assert(rv[i as int].len() == 5);
        let mut j: usize = 0;
        while j < 5
            invariant
                j <= 5,
                widths.len() == 5,
                row.len() == 5,
                rv[i as int] == row@.map_values(|c: String| c@),
                table_rows_fit(rv),
                i < rv.len(),
                forall|k: int| 0 <= k < 5 ==> widths[k] <= isize::MAX,
                forall|k: int| j <= k < 5 ==> widths[k] == before[k],
                forall|k: int|
                    0 <= k < j ==> widths[k] as nat == (if byte_len(rv[i as int][k])
                        > before[k] as nat {
                        byte_len(rv[i as int][k])
                    } else {
                        before[k] as nat
                    }),
            decreases 5 - j,
        {
            assert(rv[i as int].len() == 5);
            assert(byte_len(rv[i as int][j as int]) <= isize::MAX as nat);
            let n = row[j].as_str().len();
            assert(n as nat == byte_len(rv[i as int][j as int]));
            if n > widths[j] {
                widths.set(j, n);
            }
            j = j + 1;
        }
        assert forall|k: int| 0 <= k < 5 implies widths_view(widths@)[k] == column_widths(
            rv.take(i + 1),
        )[k] by {
            assert(widths_view(before)[k] == column_widths(rv.take(i as int))[k]);
        }
        i = i + 1;
        assert(widths_view(widths@) =~= column_widths(rv.take(i as int)));
    }
    assert(rv.take(rows.len() as int) =~= rv);
    let ghost ws = widths_view(widths@);
    let mut out = String::new();
    push_rule(&mut out, &widths, '-');
    push_char(&mut out, '\n');
    let mut titles: Vec<String> = Vec::new();
    titles.push(String::from_str("ID"));
    titles.push(String::from_str("Created"));
    titles.push(String::from_str("Status"));
    titles.push(String::from_str("Dataset ID"));
    titles.push(String::from_str("Size"));
    assert(titles@.map_values(|c: String| c@) =~= header_cells());
    push_row(&mut out, &titles, &widths);
    push_char(&mut out, '\n');
    push_rule(&mut out, &widths, '=');
    push_char(&mut out, '\n');
    let ghost top = out@;
    let mut k: usize = 0;
    while k < rows.len()
        invariant
            k <= rows.len(),
            rv == rows_view(rows@),
            table_rows_fit(rv),
            widths.len() == 5,
            ws == widths_view(widths@),
            out@ == top + body_lines(rv.take(k as int), ws),
        decreases rows.len() - k,
    {
        assert(rv[k as int] == rows[k as int]@.map_values(|c: String| c@));
        assert(rv[k as int].len() == 5);
        push_row(&mut out, &rows[k], &widths);
        push_char(&mut out, '\n');
        assert(rv.take(k + 1).drop_last() =~= rv.take(k as int));
        k = k + 1;
        assert(out@ =~= top + body_lines(rv.take(k as int), ws));
    }
    push_rule(&mut out, &widths, '-');
    push_char(&mut out, '\n');
    assert(out@ =~= table_text(rv));
    out
}


/// The cells of a snapshot's row: its identifier, creation time, status,
/// dataset and size in decimal.
pub open spec fn snapshot_cells(
    id: Seq<char>,
    created: Seq<char>,
    status: Seq<char>,
    dataset_id: Seq<char>,
    size: u64,
) -> Seq<Seq<char>> {
    seq![id, created, status, dataset_id, decimal(size as nat)]
}

fn cells_row(id: &String, created: &String, status: &String, dataset_id: &String, size: u64) -> (r:
    Vec<String>)
    ensures
        r@.map_values(|c: String| c@) == snapshot_cells(id@, created@, status@, dataset_id@, size),
{
    let mut row: Vec<String> = Vec::new();
    row.push(id.clone());
    row.push(created.clone());
    row.push(status.clone());
    row.push(dataset_id.clone());
    row.push(decimal_string(size));
    assert(row@.map_values(|c: String| c@) =~= snapshot_cells(
        id@,
        created@,
        status@,
        dataset_id@,
        size,
    ));
    row
}

impl Snapshot {
    /// The cells of this snapshot's row in the table.
    pub open spec fn cells(&self) -> Seq<Seq<char>> {
        snapshot_cells(self.id@, self.created@, self.status@, self.dataset_id@, self.dataset_size)
    }
}

impl SnapshotsResponse {
    /// The rows of the table, one per snapshot, in order.
    pub open spec fn rows(&self) -> Seq<Seq<Seq<char>>> {
        self.snapshots@.map_values(|s: Snapshot| s.cells())
    }

    /// The table of the snapshots, as the list command prints it.
    pub fn render(&self) -> (r: String)
        requires
            table_rows_fit(self.rows()),
        ensures
            r@ == table_text(self.rows()),
    {
        let mut rows: Vec<Vec<String>> = Vec::new();
        let mut i: usize = 0;
        while i < self.snapshots.len()
            invariant
                i <= self.snapshots.len(),
                rows_view(rows@) =~= self.rows().take(i as int),
            decreases self.snapshots.len() - i,
        {
            let s = &self.snapshots[i];
            let row = cells_row(&s.id, &s.created, &s.status, &s.dataset_id, s.dataset_size);
            let ghost rowv = row@.map_values(|c: String| c@);
            let ghost prev = rows@;
            rows.push(row);
            assert(rows_view(rows@) =~= rows_view(prev).push(rowv));
            assert(self.rows().take(i + 1) =~= self.rows().take(i as int).push(rowv));
            i = i + 1;
        }
        assert(self.rows().take(i as int) =~= self.rows());
        render_table(&rows)
    }
}

/// The rows of the table for a list of the tool's snapshots.
pub open spec fn snapshot_list_rows(snapshots: Seq<crate::app::ports::types::Snapshot>) -> Seq<
    Seq<Seq<char>>,
> {
    snapshots.map_values(
        |s: crate::app::ports::types::Snapshot|
            snapshot_cells(s.id@, s.created@, s.status@, s.dataset_id@, s.dataset_size),
    )
}

/// The table of a list of the tool's snapshots.
pub fn render_snapshot_list(snapshots: &Vec<crate::app::ports::types::Snapshot>) -> (r: String)
    requires
        table_rows_fit(snapshot_list_rows(snapshots@)),
    ensures
        r@ == table_text(snapshot_list_rows(snapshots@)),
{
    let mut rows: Vec<Vec<String>> = Vec::new();
    let mut i: usize = 0;
    while i < snapshots.len()
        invariant
            i <= snapshots.len(),
            rows_view(rows@) =~= snapshot_list_rows(snapshots@).take(i as int),
        decreases snapshots.len() - i,
    {
        let s = &snapshots[i];
        let row = cells_row(&s.id, &s.created, &s.status, &s.dataset_id, s.dataset_size);
        let ghost rowv = row@.map_values(|c: String| c@);
        let ghost prev = rows@;
        rows.push(row);
        assert(rows_view(rows@) =~= rows_view(prev).push(rowv));
        assert(snapshot_list_rows(snapshots@).take(i + 1) =~= snapshot_list_rows(snapshots@).take(i as int).push(rowv));
        i = i + 1;
    }
    assert(snapshot_list_rows(snapshots@).take(i as int) =~= snapshot_list_rows(snapshots@));
    render_table(&rows)
}


/// The characters that the first `n` columns take in a line: each column's
/// width plus three.
pub open spec fn segments_len(ws: Seq<nat>, n: nat) -> nat
    decreases n,
{
    if n == 0 {
        0
    } else {
        segments_len(ws, (n - 1) as nat) + ws[n - 1] + 3
    }
}

proof fn lemma_byte_len_at_least_chars(s: Seq<char>)
    ensures
        byte_len(s) >= s.len(),
    decreases s.len(),
{
    if s.len() > 0 {
        lemma_byte_len_at_least_chars(s.drop_first());
        assert(vstd::utf8::encode_scalar(s[0] as u32).len() >= 1);
    }
}

proof fn lemma_column_width_bounds(rows: Seq<Seq<Seq<char>>>, j: int, i: int)
    requires
        0 <= i < rows.len(),
    ensures
        column_width(rows, j) >= byte_len(rows[i][j]),
    decreases rows.len(),
{
    if i < rows.len() - 1 {
        lemma_column_width_bounds(rows.drop_last(), j, i);
        assert(rows.drop_last()[i] == rows[i]);
    }
}

proof fn lemma_column_width_covers_title(rows: Seq<Seq<Seq<char>>>, j: int)
    ensures
        column_width(rows, j) >= header_cells()[j].len(),
    decreases rows.len(),
{
    if rows.len() > 0 {
        lemma_column_width_covers_title(rows.drop_last(), j);
    }
}

proof fn lemma_rule_segments_len(ws: Seq<nat>, c: char, n: nat)
    ensures
        rule_segments(ws, c, n).len() == segments_len(ws, n),
    decreases n,
{
    if n > 0 {
        lemma_rule_segments_len(ws, c, (n - 1) as nat);
    }
}

proof fn lemma_row_segments_len(cells: Seq<Seq<char>>, ws: Seq<nat>, n: nat)
    requires
        n <= cells.len(),
        n <= ws.len(),
        forall|j: int| 0 <= j < n ==> #[trigger] cells[j].len() <= ws[j],
    ensures
        row_segments(cells, ws, n).len() == segments_len(ws, n),
    decreases n,
{
    if n > 0 {
        lemma_row_segments_len(cells, ws, (n - 1) as nat);
        assert(cells[n - 1].len() <= ws[n - 1]);
    }
}

/// Every line of a table is equally long, in characters: each cell fits in
/// its column, since a column is at least as wide in characters as any of
/// its cells has bytes.
pub proof fn table_lines_equally_long(rows: Seq<Seq<Seq<char>>>)
    requires
        forall|i: int| 0 <= i < rows.len() ==> #[trigger] rows[i].len() == 5,
    ensures
        ({
            let ws = column_widths(rows);
            let n = rule_line(ws, '-').len();
            &&& rule_line(ws, '=').len() == n
            &&& row_line(header_cells(), ws).len() == n
            &&& forall|i: int| 0 <= i < rows.len() ==> (#[trigger] row_line(rows[i], ws)).len() == n
        }),
{
    let ws = column_widths(rows);
    lemma_rule_segments_len(ws, '-', 5);
    lemma_rule_segments_len(ws, '=', 5);
    assert forall|j: int| 0 <= j < 5 implies #[trigger] header_cells()[j].len() <= ws[j] by {
        lemma_column_width_covers_title(rows, j);
    }
    lemma_row_segments_len(header_cells(), ws, 5);
    assert forall|i: int| 0 <= i < rows.len() implies (#[trigger] row_line(rows[i], ws)).len()
        == rule_line(ws, '-').len() by {
        assert forall|j: int| 0 <= j < 5 implies #[trigger] rows[i][j].len() <= ws[j] by {
            lemma_column_width_bounds(rows, j, i);
            lemma_byte_len_at_least_chars(rows[i][j]);
        }
        lemma_row_segments_len(rows[i], ws, 5);
    }
}

} // verus!
