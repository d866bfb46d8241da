//! The rows that a query gave.

use crate::models::row::Row;
use crate::str_map::StrMap;
use crate::text::{decimal, join_texts, joined, push_decimal, texts_of};
use vstd::prelude::*;
use vstd::string::StringExecFns;

verus! {

/// The result of one query.
#[derive(Debug)]
pub struct ResultSet {
    /// The query that the rows answer.
    pub query_id: String,
    pub rows: Vec<Row>,
    /// The names of the columns, in order.
    pub column_names: Vec<String>,
    pub execution_time_ms: u64,
    pub metadata: StrMap<String>,
}

/// The lines of `rows`: each row's values separated by commas, and a line
/// feed after each row.
pub open spec fn row_lines(rows: Seq<Row>) -> Seq<char>
    decreases rows.len(),
{
    if rows.len() == 0 {
        Seq::empty()
    } else {
        row_lines(rows.drop_last()) + joined(texts_of(rows.last().values@), ","@) + "\n"@
    }
}

/// The table in comma-separated form: a line of column names, then one line
/// per row, each line closed by a line feed.
pub open spec fn csv_of(column_names: Seq<Seq<char>>, rows: Seq<Row>) -> Seq<char> {
    joined(column_names, ","@) + "\n"@ + row_lines(rows)
}

impl ResultSet {
    /// An empty result for the query `query_id`.
    pub fn new(query_id: String) -> (r: Self)
        ensures
            r.query_id == query_id,
            r.rows@.len() == 0,
            r.column_names@.len() == 0,
            r.execution_time_ms == 0,
            r.metadata@ == Map::<Seq<char>, String>::empty(),
    {
        ResultSet {
            query_id,
            rows: Vec::new(),
            column_names: Vec::new(),
            execution_time_ms: 0,
            metadata: StrMap::new(),
        }
    }

    /// A result with the given rows, column names and time.
    pub fn with_data(query_id: String, rows: Vec<Row>, column_names: Vec<String>, execution_time_ms: u64) -> (r:
        Self)
        ensures
            r.query_id == query_id,
            r.rows == rows,
            r.column_names == column_names,
            r.execution_time_ms == execution_time_ms,
            r.metadata@ == Map::<Seq<char>, String>::empty(),
    {
        ResultSet { query_id, rows, column_names, execution_time_ms, metadata: StrMap::new() }
    }

    /// Whether `self` and `other` agree in everything but the rows.
    pub open spec fn same_frame(&self, other: &ResultSet) -> bool {
        &&& self.query_id == other.query_id
        &&& self.column_names == other.column_names
        &&& self.execution_time_ms == other.execution_time_ms
        &&& self.metadata == other.metadata
    }

    /// Adds a row behind those that are there.
    pub fn add_row(&mut self, row: Row)
        ensures
            final(self).rows@ == old(self).rows@.push(row),
            final(self).same_frame(old(self)),
    {
        self.rows.push(row);
    }

    /// Adds the rows of `rows`, in their order, behind those that are there.
    pub fn add_rows(&mut self, rows: Vec<Row>)
        ensures
            final(self).rows@ == old(self).rows@ + rows@,
            final(self).same_frame(old(self)),
    {
        let mut rows = rows;
        self.rows.append(&mut rows);
    }

    /// The number of rows.
    pub fn row_count(&self) -> (n: usize)
        ensures
            n == self.rows@.len(),
    {
        self.rows.len()
    }

    /// The number of columns.
    pub fn column_count(&self) -> (n: usize)
        ensures
            n == self.column_names@.len(),
    {
        self.column_names.len()
    }

    /// Whether there is no row.
    pub fn is_empty(&self) -> (r: bool)
        ensures
            r == (self.rows@.len() == 0),
    {
        self.rows.len() == 0
    }

    /// Sets the time that the query took.
    pub fn set_execution_time(&mut self, time_ms: u64)
        ensures
            final(self).execution_time_ms == time_ms,
            final(self).query_id == old(self).query_id,
            final(self).rows == old(self).rows,
            final(self).column_names == old(self).column_names,
            final(self).metadata == old(self).metadata,
    {
        self.execution_time_ms = time_ms;
    }

    /// Stores the note `value` under `key`, in place of any earlier one.
    pub fn add_metadata(&mut self, key: String, value: String)
        ensures
            final(self).metadata@ == old(self).metadata@.insert(key@, value),
            final(self).query_id == old(self).query_id,
            final(self).rows == old(self).rows,
            final(self).column_names == old(self).column_names,
            final(self).execution_time_ms == old(self).execution_time_ms,
    {
        self.metadata.insert(key, value);
    }

    /// The note stored under `key`, if there is one.
    pub fn get_metadata(&self, key: &str) -> (r: Option<&String>)
        ensures
            match r {
                Some(v) => self.metadata@.contains_key(key@) && *v == self.metadata@[key@],
                None => !self.metadata@.contains_key(key@),
            },
    {
        self.metadata.get(key)
    }

    /// The table in comma-separated form.
    pub fn to_csv(&self) -> (s: String)
        ensures
            s@ == csv_of(texts_of(self.column_names@), self.rows@),
    {
        let mut s = join_texts(&self.column_names, ",");
        s.append("\n");
        let ghost head = s@;
        let mut i: usize = 0;
        while i < self.rows.len()
            invariant
                0 <= i <= self.rows@.len(),
                s@ == head + row_lines(self.rows@.take(i as int)),
            decreases self.rows@.len() - i,
        {
            proof {
                assert(self.rows@.take(i + 1).drop_last() =~= self.rows@.take(i as int));
                assert(self.rows@.take(i + 1).last() == self.rows@[i as int]);
            }
            let ghost before = s@;
            let line = self.rows[i].to_string();
            s.append(line.as_str());
            s.append("\n");
            proof {
                assert(s@ =~= head + row_lines(self.rows@.take(i + 1)));
            }
            i += 1;
        }
        proof {
            assert(self.rows@.take(i as int) =~= self.rows@);
        }
        s
    }

    /// The row at position `index`, if there is one.
    pub fn get_row(&self, index: usize) -> (r: Option<&Row>)
        ensures
            index < self.rows@.len() ==> r == Some(&self.rows@[index as int]),
            index >= self.rows@.len() ==> r is None,
    {
        if index < self.rows.len() {
            Some(&self.rows[index])
        } else {
            None
        }
    }

    /// All rows, in order.
    pub fn get_rows(&self) -> (r: &[Row])
        ensures
            r@ == self.rows@,
    {
        self.rows.as_slice()
    }

    /// Removes every row.
    pub fn clear(&mut self)
        ensures
            final(self).rows@.len() == 0,
            final(self).same_frame(old(self)),
    {
        self.rows.clear();
    }

    /// Takes over another result: its rows go behind those that are there,
    /// its time is added, and its notes replace the notes of the same name.
    pub fn merge(&mut self, other: ResultSet)
        requires
            old(self).execution_time_ms + other.execution_time_ms <= u64::MAX,
        ensures
            final(self).rows@ == old(self).rows@ + other.rows@,
            final(self).execution_time_ms == old(self).execution_time_ms + other.execution_time_ms,
            final(self).metadata@ == old(self).metadata@.union_prefer_right(other.metadata@),
            final(self).query_id == old(self).query_id,
            final(self).column_names == old(self).column_names,
    {
        let mut rows = other.rows;
        self.rows.append(&mut rows);
        self.execution_time_ms = self.execution_time_ms + other.execution_time_ms;
        self.metadata.absorb(other.metadata);
    }

    /// The result in words, as `to_string` writes it.
    pub open spec fn report(&self) -> Seq<char> {
        let head = "ResultSet for query: "@ + self.query_id@ + "\nRows: "@ + decimal(self.rows@.len())
            + ", Columns: "@ + decimal(self.column_names@.len()) + "\nExecution time: "@ + decimal(
            self.execution_time_ms as nat,
        ) + "ms\n"@;
        if self.rows@.len() == 0 {
            head
        } else {
            head + "Data:\n"@ + csv_of(texts_of(self.column_names@), self.rows@) + "\n"@
        }
    }

    /// The result in words: the query, the numbers of rows and columns, the
    /// time, and, where there are rows, the table in comma-separated form.
    pub fn to_string(&self) -> (s: String)
        ensures
            s@ == self.report(),
    {
        let mut s = String::from_str("ResultSet for query: ");
        s.append(self.query_id.as_str());
        s.append("\nRows: ");
        push_decimal(&mut s, self.rows.len() as u64);
        s.append(", Columns: ");
        push_decimal(&mut s, self.column_names.len() as u64);
        s.append("\nExecution time: ");
        push_decimal(&mut s, self.execution_time_ms);
        s.append("ms\n");
        if self.rows.len() > 0 {
            s.append("Data:\n");
            let csv = self.to_csv();
            s.append(csv.as_str());
            s.append("\n");
        }
        proof {
            assert(s@ =~= self.report());
        }
        s
    }
}

} // verus!
