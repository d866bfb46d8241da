//! What the command-line client does with results: it keeps the figures of
//! the latest queries and lays results out as text.

use crate::str_map::StrMap;
use crate::text::{
    chars_of, copy_range, decimal, join_texts, joined, push_decimal, same_text, string_of, texts_of, trim_bounds,
    trimmed,
};
use vstd::prelude::*;
use vstd::string::StringExecFns;
use vstd::utf8::encode_utf8;

verus! {

/// How many queries the client remembers.
pub const HISTORY_LENGTH: usize = 100;

/// The figures of one query.
#[derive(Debug, PartialEq, Eq)]
pub struct QueryStats {
    pub execution_time_ms: u64,
    pub rows_returned: usize,
    pub query_id: String,
    /// When the result was ready, in seconds since the start of 1970.
    pub timestamp: i64,
}

/// One component as the client shows it. The usage figures are carried as
/// the bits of 64-bit floats.
#[derive(Debug, PartialEq, Eq)]
pub struct ComponentInfo {
    pub id: String,
    pub status: String,
    pub cpu_usage: u64,
    pub memory_usage: u64,
    pub active_connections: u32,
}

/// The cluster as the client shows it. The uptime is in seconds.
#[derive(Debug)]
pub struct SystemStats {
    pub total_queries: u64,
    pub active_queries: u32,
    pub components: StrMap<ComponentInfo>,
    pub system_uptime: i64,
}

/// The client's memory: the figures of the latest queries, oldest first.
#[derive(Debug)]
pub struct SqlClient {
    stats_history: Vec<QueryStats>,
}

impl Clone for QueryStats {
    fn clone(&self) -> (s: Self)
        ensures
            s == *self,
    {
        QueryStats {
            execution_time_ms: self.execution_time_ms,
            rows_returned: self.rows_returned,
            query_id: self.query_id.clone(),
            timestamp: self.timestamp,
        }
    }
}

/// The texts of a list of rows.
pub open spec fn rows_text(rows: Seq<Vec<String>>) -> Seq<Seq<Seq<char>>> {
    Seq::new(rows.len(), |i: int| texts_of(rows[i]@))
}

/// The pretty-printed JSON form of a list of rows, as serde_json writes it;
/// `None` where serde_json fails.
pub uninterp spec fn pretty_json_of(rows: Seq<Seq<Seq<char>>>) -> Option<Seq<char>>;

/// The pretty-printed JSON form of `results`:
/// `serde_json::to_string_pretty`, which writes a list of lists of strings
/// with one item per line and two blanks of indent per level. The result is
/// named, not spelled out: it depends on the rows alone. A failure of
/// serde_json is `None`.
#[verifier::external_body]
fn pretty_json(results: &[Vec<String>]) -> (json: Option<String>)
    ensures
        match json {
            Some(text) => pretty_json_of(rows_text(results@)) == Some(text@),
            None => pretty_json_of(rows_text(results@)) is None,
        },
{
    serde_json::to_string_pretty(results).ok()
}

/// The date and time of a moment in UTC, as chrono writes it; `None` for a
/// moment outside the years that chrono knows.
pub uninterp spec fn utc_text_of(seconds: i64) -> Option<Seq<char>>;

/// The date and time, in UTC, of the moment `seconds` seconds after the
/// start of 1970: `chrono::DateTime::from_timestamp`, written by `format`
/// as year-month-day, hour:minute:second and the word `UTC`. The result is
/// named, not spelled out: it depends on the number alone. A moment
/// outside the years that chrono knows is `None`.
#[verifier::external_body]
fn utc_text(seconds: i64) -> (text: Option<String>)
    ensures
        match text {
            Some(t) => utc_text_of(seconds) == Some(t@),
            None => utc_text_of(seconds) is None,
        },
{
    match chrono::DateTime::from_timestamp(seconds, 0) {
        Some(moment) => Some(moment.format("%Y-%m-%d %H:%M:%S UTC").to_string()),
        None => None,
    }
}

/// The lines of `rows`: each row's cells separated by commas, and a line
/// feed after each row.
pub open spec fn csv_lines(rows: Seq<Seq<Seq<char>>>) -> Seq<char>
    decreases rows.len(),
{
    if rows.len() == 0 {
        Seq::empty()
    } else {
        csv_lines(rows.drop_last()) + joined(rows.last(), ","@) + "\n"@
    }
}

/// `count` times the character `c`.
pub open spec fn repeated(c: char, count: nat) -> Seq<char> {
    Seq::new(count, |i: int| c)
}

/// The number of bytes of the UTF-8 form of `text`.
pub open spec fn byte_length(text: Seq<char>) -> nat {
    encode_utf8(text).len()
}

/// The width of column `i`: the largest number of bytes of any cell that
/// the first `upto` rows hold in that column.
pub open spec fn column_width(rows: Seq<Seq<Seq<char>>>, i: int, upto: nat) -> nat
    decreases upto,
{
    if upto == 0 || upto > rows.len() {
        0
    } else {
        let before = column_width(rows, i, (upto - 1) as nat);
        let row = rows[upto - 1];
        if 0 <= i < row.len() && byte_length(row[i]) > before {
            byte_length(row[i])
        } else {
            before
        }
    }
}

/// The widths of all columns of `rows`, the first row giving their number.
pub open spec fn column_widths(rows: Seq<Seq<Seq<char>>>) -> Seq<nat> {
    Seq::new(rows[0].len(), |i: int| column_width(rows, i, rows.len()))
}

/// `text`, with blanks behind it up to `width` characters.
pub open spec fn padded(text: Seq<char>, width: nat) -> Seq<char> {
    if text.len() < width {
        text + repeated(' ', (width - text.len()) as nat)
    } else {
        text
    }
}

/// The first `n` cells of `row`, each padded to its column's width and
/// followed by a blank.
pub open spec fn padded_cells(row: Seq<Seq<char>>, widths: Seq<nat>, n: nat) -> Seq<char>
    decreases n,
{
    if n == 0 || n > row.len() || n > widths.len() {
        Seq::empty()
    } else {
        padded_cells(row, widths, (n - 1) as nat) + padded(row[n - 1], widths[n - 1]) + " "@
    }
}

/// One line of the table: the cells of `row`, padded, and a line feed.
pub open spec fn table_line(row: Seq<Seq<char>>, widths: Seq<nat>) -> Seq<char> {
    padded_cells(row, widths, row.len()) + "\n"@
}

/// The first `n` columns' rules: for each as many dashes as it is wide,
/// and a blank.
pub open spec fn rules(widths: Seq<nat>, n: nat) -> Seq<char>
    decreases n,
{
    if n == 0 || n > widths.len() {
        Seq::empty()
    } else {
        rules(widths, (n - 1) as nat) + repeated('-', widths[n - 1]) + " "@
    }
}

/// The lines of the rows of `rows` from the second up to row `upto`.
pub open spec fn body_lines(rows: Seq<Seq<Seq<char>>>, widths: Seq<nat>, upto: nat) -> Seq<char>
    decreases upto,
{
    if upto <= 1 || upto > rows.len() {
        Seq::empty()
    } else {
        body_lines(rows, widths, (upto - 1) as nat) + table_line(rows[upto - 1], widths)
    }
}

/// The rows as a table: the first row as the head, a rule under it, and
/// the other rows below.
pub open spec fn table_of(rows: Seq<Seq<Seq<char>>>) -> Seq<char> {
    let widths = column_widths(rows);
    table_line(rows[0], widths) + rules(widths, widths.len()) + "\n"@ + body_lines(rows, widths, rows.len())
}

/// Whether no row of `rows` has more cells than the first.
pub open spec fn fits_first_row(rows: Seq<Seq<Seq<char>>>) -> bool {
    forall|r: int| 0 <= r < rows.len() ==> (#[trigger] rows[r]).len() <= rows[0].len()
}

/// What the figures of a query look like, given the text of its time.
pub open spec fn stats_text(stats: QueryStats, time: Seq<char>) -> Seq<char> {
    "Query ID: "@ + stats.query_id@ + "\nExecution Time: "@ + decimal(stats.execution_time_ms as nat)
        + "ms\nRows Returned: "@ + decimal(stats.rows_returned as nat) + "\nTimestamp: "@ + time
}

/// The history once `stats` has come in behind `history`: all of it, but
/// for the oldest entry where there are more than a hundred.
pub open spec fn remembered(history: Seq<QueryStats>, stats: QueryStats) -> Seq<QueryStats> {
    if history.len() + 1 > HISTORY_LENGTH {
        history.push(stats).drop_first()
    } else {
        history.push(stats)
    }
}

/// Appends `count` times the character `c` to `target`.
pub fn push_repeated(target: &mut String, c: char, count: usize)
    ensures
        final(target)@ == old(target)@ + repeated(c, count as nat),
{
    let mut i: usize = 0;
    proof {
        assert(target@ + repeated(c, 0) =~= target@);
    }
    while i < count
        invariant
            0 <= i <= count,
            target@ == old(target)@ + repeated(c, i as nat),
        decreases count - i,
    {
        target.push(c);
        proof {
            assert(repeated(c, i as nat).push(c) =~= repeated(c, (i + 1) as nat));
        }
        i += 1;
    }
}

/// Appends `text` to `target`, with blanks behind it up to `width` characters.
pub fn push_padded(target: &mut String, text: &str, width: usize)
    ensures
        final(target)@ == old(target)@ + padded(text@, width as nat),
{
    target.append(text);
    let length = chars_of(text).len();
    if length < width {
        push_repeated(target, ' ', width - length);
    }
}

/// The widths of the columns of `results`.
pub fn widths_of(results: &[Vec<String>]) -> (widths: Vec<usize>)
    requires
        results@.len() > 0,
        fits_first_row(rows_text(results@)),
    ensures
        widths@.len() == results@[0]@.len(),
        forall|i: int|
            0 <= i < widths@.len() ==> (#[trigger] widths@[i]) as nat == column_widths(rows_text(results@))[i],
{
    let ghost rows = rows_text(results@);
    let columns = results[0].len();
    assert(rows[0].len() == columns);
    let mut widths: Vec<usize> = Vec::new();
    let mut i: usize = 0;
    while i < columns
        invariant
            0 <= i <= columns,
            widths@.len() == i,
            forall|j: int| 0 <= j < i ==> (#[trigger] widths@[j]) == 0,
        decreases columns - i,
    {
        widths.push(0);
        i += 1;
    }
    let mut r: usize = 0;
    while r < results.len()
        invariant
            0 <= r <= results@.len(),
            rows == rows_text(results@),
            rows.len() == results@.len(),
            columns == rows[0].len(),
            fits_first_row(rows),
            widths@.len() == columns,
            forall|j: int| 0 <= j < columns ==> (#[trigger] widths@[j]) as nat == column_width(rows, j, r as nat),
        decreases results@.len() - r,
    {
        let row = &results[r];
        assert(rows[r as int] == texts_of(row@));
        assert(rows[r as int].len() <= rows[0].len());
        let mut c: usize = 0;
        while c < row.len()
            invariant
                0 <= c <= row@.len(),
                row@.len() <= columns,
                rows == rows_text(results@),
                r < rows.len(),
                rows[r as int] == texts_of(row@),
                widths@.len() == columns,
                forall|j: int|
                    0 <= j < c ==> (#[trigger] widths@[j]) as nat == column_width(rows, j, (r + 1) as nat),
                forall|j: int|
                    c <= j < columns ==> (#[trigger] widths@[j]) as nat == column_width(rows, j, r as nat),
            decreases row@.len() - c,
        {
            let length = row[c].as_str().as_bytes().len();
            assert(rows[r as int][c as int] == row@[c as int]@);
            assert(length == byte_length(rows[r as int][c as int]));
            if length > widths[c] {
                widths[c] = length;
            }
            c += 1;
        }
        r += 1;
    }
    widths
}

/// The rows as lines of comma-separated cells; nothing for no rows.
pub fn format_csv(results: &[Vec<String>]) -> (csv: String)
    ensures
        csv@ == csv_lines(rows_text(results@)),
{
    let ghost rows = rows_text(results@);
    let mut csv = String::new();
    let mut r: usize = 0;
    proof {
        assert(rows.take(0) =~= Seq::<Seq<Seq<char>>>::empty());
    }
    while r < results.len()
        invariant
            0 <= r <= results@.len(),
            rows == rows_text(results@),
            csv@ == csv_lines(rows.take(r as int)),
        decreases results@.len() - r,
    {
        proof {
            assert(rows.take(r + 1).drop_last() =~= rows.take(r as int));
            assert(rows.take(r + 1).last() == texts_of(results@[r as int]@));
        }
        let line = join_texts(&results[r], ",");
        csv.append(line.as_str());
        csv.append("\n");
        r += 1;
    }
    proof {
        assert(rows.take(r as int) =~= rows);
    }
    csv
}

/// Appends one line of the table to `target`.
fn push_table_line(target: &mut String, row: &Vec<String>, widths: &Vec<usize>, Ghost(spec_widths): Ghost<Seq<nat>>)
    requires
        row@.len() <= widths@.len(),
        spec_widths.len() == widths@.len(),
        forall|i: int| 0 <= i < widths@.len() ==> (#[trigger] widths@[i]) as nat == spec_widths[i],
    ensures
        final(target)@ == old(target)@ + table_line(texts_of(row@), spec_widths),
{
    let ghost cells = texts_of(row@);
    let mut i: usize = 0;
    proof {
        assert(target@ + padded_cells(cells, spec_widths, 0) =~= target@);
    }
    while i < row.len()
        invariant
            0 <= i <= row@.len(),
            row@.len() <= widths@.len(),
            cells == texts_of(row@),
            spec_widths.len() == widths@.len(),
            forall|j: int| 0 <= j < widths@.len() ==> (#[trigger] widths@[j]) as nat == spec_widths[j],
            target@ == old(target)@ + padded_cells(cells, spec_widths, i as nat),
        decreases row@.len() - i,
    {
        let ghost before = target@;
        assert(cells[i as int] == row@[i as int]@);
        push_padded(target, row[i].as_str(), widths[i]);
        target.append(" ");
        proof {
            assert(target@ =~= old(target)@ + padded_cells(cells, spec_widths, (i + 1) as nat));
        }
        i += 1;
    }
    target.append("\n");
    proof {
        assert(target@ =~= old(target)@ + table_line(cells, spec_widths));
    }
}

/// The rows as a table: `No results` for no rows; else the first row as
/// the head, a rule of dashes under it, and the other rows below, every
/// cell padded with blanks to the width of its column.
pub fn format_table(results: &[Vec<String>]) -> (table: String)
    requires
        fits_first_row(rows_text(results@)),
    ensures
        results@.len() == 0 ==> table@ == "No results"@,
        results@.len() > 0 ==> table@ == table_of(rows_text(results@)),
{
    if results.len() == 0 {
        return String::from_str("No results");
    }
    let ghost rows = rows_text(results@);
    let ghost spec_widths = column_widths(rows);
    let widths = widths_of(results);
    let mut table = String::new();
    assert(rows[0] == texts_of(results@[0]@));
    push_table_line(&mut table, &results[0], &widths, Ghost(spec_widths));
    let ghost head = table@;
    proof {
        assert(head =~= table_line(rows[0], spec_widths));
    }
    let mut i: usize = 0;
    proof {
        assert(table@ + rules(spec_widths, 0) =~= table@);
    }
    while i < widths.len()
        invariant
            0 <= i <= widths@.len(),
            spec_widths.len() == widths@.len(),
            forall|j: int| 0 <= j < widths@.len() ==> (#[trigger] widths@[j]) as nat == spec_widths[j],
            table@ == head + rules(spec_widths, i as nat),
        decreases widths@.len() - i,
    {
        push_repeated(&mut table, '-', widths[i]);
        table.append(" ");
        proof {
            assert(table@ =~= head + rules(spec_widths, (i + 1) as nat));
        }
        i += 1;
    }
    table.append("\n");
    let ghost top = table@;
    let mut r: usize = 1;
    proof {
        assert(top + body_lines(rows, spec_widths, 1) =~= top);
    }
    while r < results.len()
        invariant
            1 <= r <= results@.len(),
            rows == rows_text(results@),
            rows.len() == results@.len(),
            fits_first_row(rows),
            spec_widths == column_widths(rows),
            spec_widths.len() == widths@.len(),
            widths@.len() == rows[0].len(),
            forall|j: int| 0 <= j < widths@.len() ==> (#[trigger] widths@[j]) as nat == spec_widths[j],
            table@ == top + body_lines(rows, spec_widths, r as nat),
        decreases results@.len() - r,
    {
        assert(rows[r as int] == texts_of(results@[r as int]@));
        assert(rows[r as int].len() <= rows[0].len());
        push_table_line(&mut table, &results[r], &widths, Ghost(spec_widths));
        proof {
            assert(table@ =~= top + body_lines(rows, spec_widths, (r + 1) as nat));
        }
        r += 1;
    }
    proof {
        assert(table@ =~= table_of(rows));
    }
    table
}

/// Whether the rows can be laid out in the format named `format`: as a
/// table only where no row has more cells than the first.
pub open spec fn can_format(rows: Seq<Seq<Seq<char>>>, format: Seq<char>) -> bool {
    format == "table"@ ==> fits_first_row(rows)
}

/// What `format_results` gives for `rows` in the format named `format`.
pub open spec fn formatted(rows: Seq<Seq<Seq<char>>>, format: Seq<char>) -> Seq<char> {
    if format == "json"@ {
        match pretty_json_of(rows) {
            Some(text) => text,
            None => "[]"@,
        }
    } else if format == "csv"@ {
        csv_lines(rows)
    } else if format == "table"@ {
        if rows.len() == 0 {
            "No results"@
        } else {
            table_of(rows)
        }
    } else {
        "Unsupported format: "@ + format
    }
}

/// Whether no row of `results` has more cells than the first.
pub fn rows_fit(results: &[Vec<String>]) -> (r: bool)
    ensures
        r == fits_first_row(rows_text(results@)),
{
    if results.len() == 0 {
        return true;
    }
    let ghost rows = rows_text(results@);
    let first = results[0].len();
    assert(rows[0].len() == first);
    let mut i: usize = 0;
    while i < results.len()
        invariant
            0 <= i <= results@.len(),
            rows == rows_text(results@),
            first == rows[0].len(),
            forall|j: int| 0 <= j < i ==> (#[trigger] rows[j]).len() <= first,
        decreases results@.len() - i,
    {
        assert(rows[i as int].len() == results@[i as int]@.len());
        if results[i].len() > first {
            return false;
        }
        i += 1;
    }
    true
}

impl SqlClient {
    /// The figures of the latest queries, oldest first.
    pub closed spec fn history(&self) -> Seq<QueryStats> {
        self.stats_history@
    }

    /// A client that remembers nothing yet.
    pub fn new() -> (c: Self)
        ensures
            c.history().len() == 0,
    {
        SqlClient { stats_history: Vec::new() }
    }

    /// Takes in the figures of a query. Of more than a hundred the oldest go.
    pub fn record_stats(&mut self, stats: QueryStats)
        ensures
            final(self).history() == remembered(old(self).history(), stats),
    {
        self.stats_history.push(stats);
        if self.stats_history.len() > HISTORY_LENGTH {
            self.stats_history.remove(0);
            proof {
                assert(self.stats_history@ =~= old(self).stats_history@.push(stats).drop_first());
            }
        }
    }

    /// A copy of the figures of the latest queries, oldest first.
    pub fn get_stats_history(&self) -> (copy: Vec<QueryStats>)
        ensures
            copy@ == self.history(),
    {
        let mut copy: Vec<QueryStats> = Vec::new();
        let mut i: usize = 0;
        while i < self.stats_history.len()
            invariant
                0 <= i <= self.stats_history@.len(),
                copy@ == self.stats_history@.take(i as int),
            decreases self.stats_history@.len() - i,
        {
            copy.push(self.stats_history[i].clone());
            i += 1;
        }
        copy
    }

    /// Lays `results` out in the format named `format`: `json`, `csv` or
    /// `table`. Any other name gives a line that says so.
    pub fn format_results(&self, results: &[Vec<String>], format: &str) -> (text: String)
        requires
            can_format(rows_text(results@), format@),
        ensures
            text@ == formatted(rows_text(results@), format@),
    {
        if same_text(format, "json") {
            match pretty_json(results) {
                Some(text) => text,
                None => String::from_str("[]"),
            }
        } else if same_text(format, "csv") {
            format_csv(results)
        } else if same_text(format, "table") {
            format_table(results)
        } else {
            let mut text = String::from_str("Unsupported format: ");
            text.append(format);
            text
        }
    }

    /// Lays `results` out in the format named `format`, if they can be:
    /// rows of which one has more cells than the first make no table.
    pub fn try_format_results(&self, results: &[Vec<String>], format: &str) -> (text: Option<String>)
        ensures
            match text {
                Some(t) => can_format(rows_text(results@), format@) && t@ == formatted(
                    rows_text(results@),
                    format@,
                ),
                None => !can_format(rows_text(results@), format@),
            },
    {
        if same_text(format, "table") && !rows_fit(results) {
            None
        } else {
            Some(self.format_results(results, format))
        }
    }

    /// The figures of a query in words, `time` being the text of its time.
    pub fn format_stats_with(&self, stats: &QueryStats, time: &str) -> (text: String)
        ensures
            text@ == stats_text(*stats, time@),
    {
        let mut text = String::from_str("Query ID: ");
        text.append(stats.query_id.as_str());
        text.append("\nExecution Time: ");
        push_decimal(&mut text, stats.execution_time_ms);
        text.append("ms\nRows Returned: ");
        push_decimal(&mut text, stats.rows_returned as u64);
        text.append("\nTimestamp: ");
        text.append(time);
        proof {
            assert(text@ =~= stats_text(*stats, time@));
        }
        text
    }

    /// The figures of a query in words; `None` where its time lies outside
    /// the years that have a date.
    pub fn format_stats(&self, stats: &QueryStats) -> (text: Option<String>)
        ensures
            match text {
                Some(t) => utc_text_of(stats.timestamp) matches Some(time) && t@ == stats_text(*stats, time),
                None => utc_text_of(stats.timestamp) is None,
            },
    {
        match utc_text(stats.timestamp) {
            Some(time) => Some(self.format_stats_with(stats, time.as_str())),
            None => None,
        }
    }
}

/// The number of characters of `text` before its first semicolon; all of
/// them where it has none.
pub open spec fn first_stop(text: Seq<char>) -> nat
    decreases text.len(),
{
    if text.len() == 0 || text[0] == ';' {
        0
    } else {
        1 + first_stop(text.drop_first())
    }
}

/// The statements of a text: what stands between its semicolons, each
/// part taken without the white space around it, the empty parts left out.
pub open spec fn statements(text: Seq<char>) -> Seq<Seq<char>>
    decreases text.len(),
{
    let end = first_stop(text);
    let head = trimmed(text.take(end as int));
    let rest = if end < text.len() {
        statements(text.skip(end as int + 1))
    } else {
        Seq::empty()
    };
    if head.len() > 0 {
        seq![head] + rest
    } else {
        rest
    }
}

/// A text without semicolon in its first `k` characters, which ends there
/// or has one next, stops first at `k`.
pub proof fn lemma_first_stop(text: Seq<char>, k: int)
    requires
        0 <= k <= text.len(),
        forall|i: int| 0 <= i < k ==> #[trigger] text[i] != ';',
        k == text.len() || text[k] == ';',
    ensures
        first_stop(text) == k,
    decreases k,
{
    if k > 0 {
        let rest = text.drop_first();
        assert forall|i: int| 0 <= i < k - 1 implies #[trigger] rest[i] != ';' by {
            assert(rest[i] == text[i + 1]);
        }
        lemma_first_stop(rest, k - 1);
    }
}

/// The statements of `content`, in order.
pub fn split_statements(content: &str) -> (list: Vec<String>)
    ensures
        texts_of(list@) == statements(content@),
{
    let text = chars_of(content);
    let n = text.len();
    let mut list: Vec<String> = Vec::new();
    let mut start: usize = 0;
    proof {
        assert(text@.skip(0) =~= text@);
        assert(texts_of(list@) =~= Seq::<Seq<char>>::empty());
        assert(texts_of(list@) + statements(text@.skip(0)) =~= statements(text@));
    }
    loop
        invariant
            0 <= start <= n,
            n == text@.len(),
            text@ == content@,
            texts_of(list@) + statements(text@.skip(start as int)) == statements(text@),
        decreases n - start,
    {
        let ghost tail = text@.skip(start as int);
        let mut end: usize = start;
        while end < n && text[end] != ';'
            invariant
                start <= end <= n,
                n == text@.len(),
                forall|i: int| start <= i < end ==> #[trigger] text@[i] != ';',
            decreases n - end,
        {
            end += 1;
        }
        proof {
            assert forall|i: int| 0 <= i < end - start implies #[trigger] tail[i] != ';' by {
                assert(tail[i] == text@[start + i]);
            }
            lemma_first_stop(tail, end - start);
            assert(tail.take(end - start) =~= text@.subrange(start as int, end as int));
        }
        let bounds = trim_bounds(&text, start, end);
        let ghost before = texts_of(list@);
        if bounds.0 < bounds.1 {
            let part = copy_range(&text, bounds.0, bounds.1);
            list.push(string_of(&part));
            proof {
                assert(texts_of(list@) =~= before + seq![trimmed(tail.take(end - start))]);
            }
        }
        if end == n {
            proof {
                assert(statements(tail) =~= if trimmed(tail.take(end - start)).len() > 0 {
                    seq![trimmed(tail.take(end - start))]
                } else {
                    Seq::<Seq<char>>::empty()
                });
                assert(texts_of(list@) =~= before + statements(tail));
            }
            return list;
        }
        proof {
            assert(tail.skip(end - start + 1) =~= text@.skip(end + 1));
            let rest = statements(text@.skip(end + 1));
            if trimmed(tail.take(end - start)).len() > 0 {
                assert(statements(tail) == seq![trimmed(tail.take(end - start))] + rest);
                assert(texts_of(list@) + rest =~= before + statements(tail));
            } else {
                assert(statements(tail) == rest);
            }
        }
        start = end + 1;
    }
}

} // verus!
