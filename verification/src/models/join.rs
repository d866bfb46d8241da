//! One join of two tables on a pair of columns.

use vstd::prelude::*;
use vstd::string::StringExecFns;

verus! {

/// The kind of a join.
#[derive(Debug, Clone, Copy, PartialEq, Eq, Structural)]
pub enum JoinType {
    Inner,
    Left,
    Right,
    Full,
}

impl JoinType {
    /// The kind in capitals, as a query writes it.
    pub open spec fn word(&self) -> Seq<char> {
        match *self {
            JoinType::Inner => "INNER"@,
            JoinType::Left => "LEFT"@,
            JoinType::Right => "RIGHT"@,
            JoinType::Full => "FULL"@,
        }
    }

    /// The kind in capitals, as a query writes it.
    pub fn to_string(&self) -> (s: String)
        ensures
            s@ == self.word(),
    {
        match self {
            JoinType::Inner => String::from_str("INNER"),
            JoinType::Left => String::from_str("LEFT"),
            JoinType::Right => String::from_str("RIGHT"),
            JoinType::Full => String::from_str("FULL"),
        }
    }
}

/// A join: the two tables, the column of each that must agree, and the kind.
#[derive(Debug, PartialEq, Eq)]
pub struct Join {
    pub left_table: String,
    pub right_table: String,
    pub left_column: String,
    pub right_column: String,
    pub join_type: JoinType,
}

impl Join {
    /// A join of the given kind.
    pub fn new(
        left_table: String,
        right_table: String,
        left_column: String,
        right_column: String,
        join_type: JoinType,
    ) -> (j: Self)
        ensures
            j.left_table == left_table,
            j.right_table == right_table,
            j.left_column == left_column,
            j.right_column == right_column,
            j.join_type == join_type,
    {
        Join { left_table, right_table, left_column, right_column, join_type }
    }

    /// An inner join.
    pub fn inner(left_table: String, right_table: String, left_column: String, right_column: String) -> (j: Self)
        ensures
            j.left_table == left_table,
            j.right_table == right_table,
            j.left_column == left_column,
            j.right_column == right_column,
            j.join_type == JoinType::Inner,
    {
        Self::new(left_table, right_table, left_column, right_column, JoinType::Inner)
    }

    /// A left join.
    pub fn left(left_table: String, right_table: String, left_column: String, right_column: String) -> (j: Self)
        ensures
            j.left_table == left_table,
            j.right_table == right_table,
            j.left_column == left_column,
            j.right_column == right_column,
            j.join_type == JoinType::Left,
    {
        Self::new(left_table, right_table, left_column, right_column, JoinType::Left)
    }

    /// A right join.
    pub fn right(left_table: String, right_table: String, left_column: String, right_column: String) -> (j: Self)
        ensures
            j.left_table == left_table,
            j.right_table == right_table,
            j.left_column == left_column,
            j.right_column == right_column,
            j.join_type == JoinType::Right,
    {
        Self::new(left_table, right_table, left_column, right_column, JoinType::Right)
    }

    /// A full join.
    pub fn full(left_table: String, right_table: String, left_column: String, right_column: String) -> (j: Self)
        ensures
            j.left_table == left_table,
            j.right_table == right_table,
            j.left_column == left_column,
            j.right_column == right_column,
            j.join_type == JoinType::Full,
    {
        Self::new(left_table, right_table, left_column, right_column, JoinType::Full)
    }

    /// Whether this is an inner join.
    pub fn is_inner(&self) -> (r: bool)
        ensures
            r == (self.join_type == JoinType::Inner),
    {
        matches!(self.join_type, JoinType::Inner)
    }

    /// Whether this is a left join.
    pub fn is_left(&self) -> (r: bool)
        ensures
            r == (self.join_type == JoinType::Left),
    {
        matches!(self.join_type, JoinType::Left)
    }

    /// Whether this is a right join.
    pub fn is_right(&self) -> (r: bool)
        ensures
            r == (self.join_type == JoinType::Right),
    {
        matches!(self.join_type, JoinType::Right)
    }

    /// Whether this is a full join.
    pub fn is_full(&self) -> (r: bool)
        ensures
            r == (self.join_type == JoinType::Full),
    {
        matches!(self.join_type, JoinType::Full)
    }

    /// The join as a query writes it.
    pub open spec fn clause(&self) -> Seq<char> {
        self.left_table@ + " "@ + self.join_type.word() + " JOIN "@ + self.right_table@ + " ON "@
            + self.left_table@ + "."@ + self.left_column@ + " = "@ + self.right_table@ + "."@
            + self.right_column@
    }

    /// The join as a query writes it: the left table, the kind, `JOIN`, the
    /// right table, `ON`, and the two columns, each after its table and a dot.
    pub fn to_string(&self) -> (s: String)
        ensures
            s@ == self.clause(),
    {
        let mut s = self.left_table.clone();
        s.append(" ");
        s.append(self.join_type.to_string().as_str());
        s.append(" JOIN ");
        s.append(self.right_table.as_str());
        s.append(" ON ");
        s.append(self.left_table.as_str());
        s.append(".");
        s.append(self.left_column.as_str());
        s.append(" = ");
        s.append(self.right_table.as_str());
        s.append(".");
        s.append(self.right_column.as_str());
        s
    }
}

impl Clone for Join {
    fn clone(&self) -> (j: Self)
        ensures
            j == *self,
    {
        Join {
            left_table: self.left_table.clone(),
            right_table: self.right_table.clone(),
            left_column: self.left_column.clone(),
            right_column: self.right_column.clone(),
            join_type: self.join_type,
        }
    }
}

} // verus!
