//! One row of a table.

use crate::str_map::{copy_of_strings, StrMap};
use crate::text::{copy_of_texts, decimal, join_texts, joined, push_decimal, texts_of};
use vstd::prelude::*;
use vstd::string::StringExecFns;

verus! {

/// One row of a table: its values in column order, and where it lives.
#[derive(Debug)]
pub struct Row {
    /// The values, one per column, in column order.
    pub values: Vec<String>,
    /// Notes about the row, by name.
    pub metadata: StrMap<String>,
    /// The table that the row belongs to.
    pub table_name: String,
    /// The worker that holds the row, once it is routed.
    pub worker_id: Option<String>,
    /// The shard that holds the row, once it is routed.
    pub shard_id: Option<String>,
}

/// What `set_value` says of a position that the row does not have.
pub open spec fn out_of_bounds_message(index: nat, columns: nat) -> Seq<char> {
    "Index "@ + decimal(index) + " out of bounds for row with "@ + decimal(columns) + " columns"@
}

/// What `project_columns` says of a position that the row does not have.
pub open spec fn not_found_message(index: nat) -> Seq<char> {
    "Column index "@ + decimal(index) + " not found"@
}

/// Whether `i` is the first place in `indices` that names no column of a
/// row with `columns` columns.
pub open spec fn is_first_bad_index(indices: Seq<usize>, columns: nat, i: int) -> bool {
    &&& 0 <= i < indices.len()
    &&& indices[i] >= columns
    &&& forall|j: int| 0 <= j < i ==> #[trigger] indices[j] < columns
}

impl Row {
    /// A row of `table_name` with the given values, without notes and not
    /// yet routed.
    pub fn new(values: Vec<String>, table_name: String) -> (row: Self)
        ensures
            row.values == values,
            row.table_name == table_name,
            row.metadata@ == Map::<Seq<char>, String>::empty(),
            row.worker_id is None,
            row.shard_id is None,
    {
        Row { values, metadata: StrMap::new(), table_name, worker_id: None, shard_id: None }
    }

    /// A row of `table_name` with the given values and notes, not yet routed.
    pub fn with_metadata(values: Vec<String>, table_name: String, metadata: StrMap<String>) -> (row: Self)
        ensures
            row.values == values,
            row.table_name == table_name,
            row.metadata == metadata,
            row.worker_id is None,
            row.shard_id is None,
    {
        Row { values, metadata, table_name, worker_id: None, shard_id: None }
    }

    /// The value in column `index`, if the row has that column.
    pub fn get_value(&self, index: usize) -> (r: Option<&String>)
        ensures
            index < self.values@.len() ==> r == Some(&self.values@[index as int]),
            index >= self.values@.len() ==> r is None,
    {
        if index < self.values.len() {
            Some(&self.values[index])
        } else {
            None
        }
    }

    /// Puts `value` in column `index`. A row without that column stays as it
    /// is, and the error says so.
    pub fn set_value(&mut self, index: usize, value: String) -> (r: Result<(), String>)
        ensures
            index < old(self).values@.len() ==> r is Ok && final(self).values@ == old(self).values@.update(
                index as int,
                value,
            ),
            index >= old(self).values@.len() ==> final(self).values == old(self).values && (r matches Err(
                message,
            ) && message@ == out_of_bounds_message(index as nat, old(self).values@.len())),
            final(self).metadata == old(self).metadata,
            final(self).table_name == old(self).table_name,
            final(self).worker_id == old(self).worker_id,
            final(self).shard_id == old(self).shard_id,
    {
        if index >= self.values.len() {
            let mut message = String::new();
            message.append("Index ");
            push_decimal(&mut message, index as u64);
            message.append(" out of bounds for row with ");
            push_decimal(&mut message, self.values.len() as u64);
            message.append(" columns");
            proof {
                assert(message@ =~= out_of_bounds_message(index as nat, self.values@.len()));
            }
            return Err(message);
        }
        self.values[index] = value;
        Ok(())
    }

    /// Adds `value` as a new last column.
    pub fn add_value(&mut self, value: String)
        ensures
            final(self).values@ == old(self).values@.push(value),
            final(self).metadata == old(self).metadata,
            final(self).table_name == old(self).table_name,
            final(self).worker_id == old(self).worker_id,
            final(self).shard_id == old(self).shard_id,
    {
        self.values.push(value);
    }

    /// The number of columns.
    pub fn column_count(&self) -> (n: usize)
        ensures
            n == self.values@.len(),
    {
        self.values.len()
    }

    /// Whether the row has no column.
    pub fn is_empty(&self) -> (r: bool)
        ensures
            r == (self.values@.len() == 0),
    {
        self.values.len() == 0
    }

    /// Stores the note `value` under `key`, in place of any earlier one.
    pub fn set_metadata(&mut self, key: String, value: String)
        ensures
            final(self).metadata@ == old(self).metadata@.insert(key@, value),
            final(self).values == old(self).values,
            final(self).table_name == old(self).table_name,
            final(self).worker_id == old(self).worker_id,
            final(self).shard_id == old(self).shard_id,
    {
        self.metadata.insert(key, value);
    }

    /// The note stored under `key`, if there is one.
    pub fn get_metadata(&self, key: &str) -> (r: Option<&String>)
        ensures
            match r {
                Some(v) => self.metadata@.contains_key(key@) && *v == self.metadata@[key@],
                None => !self.metadata@.contains_key(key@),
            },
    {
        self.metadata.get(key)
    }

    /// Records the worker that holds the row.
    pub fn set_worker_id(&mut self, worker_id: String)
        ensures
            final(self).worker_id == Some(worker_id),
            final(self).values == old(self).values,
            final(self).metadata == old(self).metadata,
            final(self).table_name == old(self).table_name,
            final(self).shard_id == old(self).shard_id,
    {
        self.worker_id = Some(worker_id);
    }

    /// Records the shard that holds the row.
    pub fn set_shard_id(&mut self, shard_id: String)
        ensures
            final(self).shard_id == Some(shard_id),
            final(self).values == old(self).values,
            final(self).metadata == old(self).metadata,
            final(self).table_name == old(self).table_name,
            final(self).worker_id == old(self).worker_id,
    {
        self.shard_id = Some(shard_id);
    }

    /// A row with the columns at `column_indices`, in that order, and with
    /// this row's notes, table and routing. Fails at the first index that
    /// names no column.
    pub fn project_columns(&self, column_indices: &[usize]) -> (r: Result<Row, String>)
        ensures
            match r {
                Ok(row) => {
                    &&& forall|k: int| 0 <= k < column_indices@.len() ==> #[trigger] column_indices@[k] < self.values@.len()
                    &&& row.values@.len() == column_indices@.len()
                    &&& forall|k: int|
                        0 <= k < column_indices@.len() ==> #[trigger] row.values@[k] == self.values@[column_indices@[k] as int]
                    &&& row.metadata@ == self.metadata@
                    &&& row.table_name == self.table_name
                    &&& row.worker_id == self.worker_id
                    &&& row.shard_id == self.shard_id
                },
                Err(message) => exists|i: int|
                    is_first_bad_index(column_indices@, self.values@.len(), i) && message@ == not_found_message(
                        column_indices@[i] as nat,
                    ),
            },
    {
        let mut projected: Vec<String> = Vec::new();
        let mut k: usize = 0;
        while k < column_indices.len()
            invariant
                0 <= k <= column_indices@.len(),
                projected@.len() == k,
                forall|j: int| 0 <= j < k ==> #[trigger] column_indices@[j] < self.values@.len(),
                forall|j: int| 0 <= j < k ==> #[trigger] projected@[j] == self.values@[column_indices@[j] as int],
            decreases column_indices@.len() - k,
        {
            let index = column_indices[k];
            if index >= self.values.len() {
                let mut message = String::new();
                message.append("Column index ");
                push_decimal(&mut message, index as u64);
                message.append(" not found");
                proof {
                    assert(message@ =~= not_found_message(index as nat));
                    assert(is_first_bad_index(column_indices@, self.values@.len(), k as int));
                }
                return Err(message);
            }
            projected.push(self.values[index].clone());
            k += 1;
        }
        let worker_id = match &self.worker_id {
            Some(id) => Some(id.clone()),
            None => None,
        };
        let shard_id = match &self.shard_id {
            Some(id) => Some(id.clone()),
            None => None,
        };
        Ok(
            Row {
                values: projected,
                metadata: copy_of_strings(&self.metadata),
                table_name: self.table_name.clone(),
                worker_id,
                shard_id,
            },
        )
    }

    /// The values, separated by commas.
    pub fn to_string(&self) -> (s: String)
        ensures
            s@ == joined(texts_of(self.values@), ","@),
    {
        join_texts(&self.values, ",")
    }
}

impl Clone for Row {
    /// A row with the same values, notes, table and routing.
    fn clone(&self) -> (row: Self)
        ensures
            row.values@ == self.values@,
            row.metadata@ == self.metadata@,
            row.metadata.key_seq() == self.metadata.key_seq(),
            row.table_name == self.table_name,
            row.worker_id == self.worker_id,
            row.shard_id == self.shard_id,
    {
        let worker_id = match &self.worker_id {
            Some(id) => Some(id.clone()),
            None => None,
        };
        let shard_id = match &self.shard_id {
            Some(id) => Some(id.clone()),
            None => None,
        };
        Row {
            values: copy_of_texts(&self.values),
            metadata: copy_of_strings(&self.metadata),
            table_name: self.table_name.clone(),
            worker_id,
            shard_id,
        }
    }
}

impl From<Vec<String>> for Row {
    /// A row of the table `unknown` with the given values.
    fn from(values: Vec<String>) -> (row: Self)
        ensures
            row.values == values,
            row.table_name@ == "unknown"@,
            row.metadata@ == Map::<Seq<char>, String>::empty(),
            row.worker_id is None,
            row.shard_id is None,
    {
        Row::new(values, String::from_str("unknown"))
    }
}

impl vstd::std_specs::convert::FromSpecImpl<Vec<String>> for Row {
    open spec fn obeys_from_spec() -> bool {
        false
    }

    open spec fn from_spec(values: Vec<String>) -> Row {
        arbitrary()
    }
}

impl<'a> From<(&'a [String], &'a str)> for Row {
    /// A row of the table named in the pair with a copy of the pair's values.
    fn from(pair: (&'a [String], &'a str)) -> (row: Self)
        ensures
            row.values@ == pair.0@,
            row.table_name@ == pair.1@,
            row.metadata@ == Map::<Seq<char>, String>::empty(),
            row.worker_id is None,
            row.shard_id is None,
    {
        let mut values: Vec<String> = Vec::new();
        let mut i: usize = 0;
        while i < pair.0.len()
            invariant
                0 <= i <= pair.0@.len(),
                values@ == pair.0@.take(i as int),
            decreases pair.0@.len() - i,
        {
            values.push(pair.0[i].clone());
            i += 1;
        }
        Row::new(values, String::from_str(pair.1))
    }
}

impl<'a> vstd::std_specs::convert::FromSpecImpl<(&'a [String], &'a str)> for Row {
    open spec fn obeys_from_spec() -> bool {
        false
    }

    open spec fn from_spec(pair: (&'a [String], &'a str)) -> Row {
        arbitrary()
    }
}

} // verus!
