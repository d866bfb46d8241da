//! A query as the engine holds it.

use crate::clock::current_millis;
use crate::models::condition::Condition;
use crate::models::join::Join;
use crate::str_map::StrMap;
use crate::text::{decimal, push_decimal};
use vstd::prelude::*;
use vstd::string::StringExecFns;

verus! {

/// The kind of a query.
#[derive(Debug, Clone, Copy, PartialEq, Eq, Structural)]
pub enum QueryType {
    Select,
    Insert,
    Update,
    Delete,
}

/// A query: its text and what was read from it.
#[derive(Debug)]
pub struct Query {
    pub query_id: String,
    /// The text of the query.
    pub sql: String,
    pub query_type: QueryType,
    /// The columns to select; none for all.
    pub select_columns: Vec<String>,
    pub from_tables: Vec<String>,
    /// The conditions, once there is one.
    pub where_conditions: Option<Vec<Condition>>,
    /// The joins, once there is one.
    pub joins: Option<Vec<Join>>,
    pub metadata: StrMap<String>,
}

/// The items of a list that may not be there yet.
pub open spec fn items<T>(list: Option<Vec<T>>) -> Seq<T> {
    match list {
        Some(v) => v@,
        None => Seq::empty(),
    }
}

/// The name of a query created at the time `now`.
pub open spec fn generated_id(now: u64) -> Seq<char> {
    "query_"@ + decimal(now as nat)
}

impl Query {
    /// Whether the query is bare: no columns, tables, conditions, joins or notes.
    pub open spec fn is_bare(&self) -> bool {
        &&& self.select_columns@.len() == 0
        &&& self.from_tables@.len() == 0
        &&& self.where_conditions is None
        &&& self.joins is None
        &&& self.metadata@ == Map::<Seq<char>, String>::empty()
    }

    /// A bare query named `query_id`.
    pub fn with_id(query_id: String, sql: String, query_type: QueryType) -> (q: Self)
        ensures
            q.query_id == query_id,
            q.sql == sql,
            q.query_type == query_type,
            q.is_bare(),
    {
        Query {
            query_id,
            sql,
            query_type,
            select_columns: Vec::new(),
            from_tables: Vec::new(),
            where_conditions: None,
            joins: None,
            metadata: StrMap::new(),
        }
    }

    /// A bare query named after the time `now`, in milliseconds.
    pub fn new_at(sql: String, query_type: QueryType, now: u64) -> (q: Self)
        ensures
            q.query_id@ == generated_id(now),
            q.sql == sql,
            q.query_type == query_type,
            q.is_bare(),
    {
        let mut query_id = String::from_str("query_");
        push_decimal(&mut query_id, now);
        Self::with_id(query_id, sql, query_type)
    }

    /// A bare query named after the present time.
    pub fn new(sql: String, query_type: QueryType) -> (q: Self)
        ensures
            exists|now: u64| q.query_id@ == #[trigger] generated_id(now),
            q.sql == sql,
            q.query_type == query_type,
            q.is_bare(),
    {
        Self::new_at(sql, query_type, current_millis())
    }

    /// Adds a condition behind those that are there.
    pub fn add_condition(&mut self, condition: Condition)
        ensures
            final(self).where_conditions is Some,
            items(final(self).where_conditions) == items(old(self).where_conditions).push(condition),
            final(self).query_id == old(self).query_id,
            final(self).sql == old(self).sql,
            final(self).query_type == old(self).query_type,
            final(self).select_columns == old(self).select_columns,
            final(self).from_tables == old(self).from_tables,
            final(self).joins == old(self).joins,
            final(self).metadata == old(self).metadata,
    {
        let mut list = match self.where_conditions.take() {
            Some(list) => list,
            None => Vec::new(),
        };
        list.push(condition);
        self.where_conditions = Some(list);
    }

    /// Adds a join behind those that are there.
    pub fn add_join(&mut self, join: Join)
        ensures
            final(self).joins is Some,
            items(final(self).joins) == items(old(self).joins).push(join),
            final(self).query_id == old(self).query_id,
            final(self).sql == old(self).sql,
            final(self).query_type == old(self).query_type,
            final(self).select_columns == old(self).select_columns,
            final(self).from_tables == old(self).from_tables,
            final(self).where_conditions == old(self).where_conditions,
            final(self).metadata == old(self).metadata,
    {
        let mut list = match self.joins.take() {
            Some(list) => list,
            None => Vec::new(),
        };
        list.push(join);
        self.joins = Some(list);
    }

    /// Whether the query selects.
    pub fn is_select(&self) -> (r: bool)
        ensures
            r == (self.query_type == QueryType::Select),
    {
        matches!(self.query_type, QueryType::Select)
    }

    /// Whether the query has at least one condition.
    pub fn has_conditions(&self) -> (r: bool)
        ensures
            r == (items(self.where_conditions).len() > 0),
    {
        match &self.where_conditions {
            Some(list) => list.len() > 0,
            None => false,
        }
    }

    /// Whether the query has at least one join.
    pub fn has_joins(&self) -> (r: bool)
        ensures
            r == (items(self.joins).len() > 0),
    {
        match &self.joins {
            Some(list) => list.len() > 0,
            None => false,
        }
    }
}

} // verus!
