//! The worker's answer to a query: sample rows, chosen by the words of the
//! query's text.

use crate::ident::random_uuid;
use crate::text::{lowercase, lowercase_of, mentions, occurs_in, owned_texts, slices_of, texts_of};
use vstd::prelude::*;
use vstd::string::StringExecFns;

verus! {

/// Answers queries.
#[derive(Debug)]
pub struct QueryExecutor {}

/// What the worker means to do for one query. The cost is a whole number.
#[derive(Debug, PartialEq, Eq)]
pub struct QueryPlan {
    pub query_id: String,
    pub sql_query: String,
    pub steps: Vec<String>,
    pub estimated_cost: u64,
}

/// The texts of a list of rows.
pub open spec fn rows_text(rows: Seq<Vec<String>>) -> Seq<Seq<Seq<char>>> {
    Seq::new(rows.len(), |i: int| texts_of(rows[i]@))
}

/// The sample rows for a query whose text in lower case is `lowered`.
/// The first of the words `users`, `orders` and `products` that the text
/// holds decides; for `users`, the words `count` and `where` decide further.
pub open spec fn sample_rows(lowered: Seq<char>) -> Seq<Seq<Seq<char>>> {
    if occurs_in("users"@, lowered) {
        if occurs_in("count"@, lowered) {
            seq![seq!["3"@]]
        } else if occurs_in("where"@, lowered) {
            seq![seq!["John Doe"@, "30"@], seq!["Bob Johnson"@, "35"@]]
        } else {
            seq![seq!["John Doe"@, "30"@], seq!["Jane Smith"@, "25"@], seq!["Bob Johnson"@, "35"@]]
        }
    } else if occurs_in("orders"@, lowered) {
        seq![
            seq!["ORD001"@, "150.00"@, "2024-01-15"@],
            seq!["ORD002"@, "275.50"@, "2024-01-16"@],
            seq!["ORD003"@, "89.99"@, "2024-01-17"@],
        ]
    } else if occurs_in("products"@, lowered) {
        seq![seq!["Laptop"@, "999.99"@], seq!["Mouse"@, "29.99"@], seq!["Keyboard"@, "79.99"@]]
    } else {
        seq![seq!["Sample Result 1"@], seq!["Sample Result 2"@], seq!["Sample Result 3"@]]
    }
}

/// The steps that every plan of a worker lists.
pub open spec fn worker_steps() -> Seq<Seq<char>> {
    seq!["Parse SQL"@, "Validate syntax"@, "Execute query"@, "Return results"@]
}

/// The rows `a`, alone.
fn one_row(a: &[&str]) -> (rows: Vec<Vec<String>>)
    ensures
        rows_text(rows@) == seq![slices_of(a@)],
{
    let mut rows: Vec<Vec<String>> = Vec::new();
    rows.push(owned_texts(a));
    proof {
        assert(rows_text(rows@) =~= seq![slices_of(a@)]);
    }
    rows
}

/// The rows `a` and `b`.
fn two_rows(a: &[&str], b: &[&str]) -> (rows: Vec<Vec<String>>)
    ensures
        rows_text(rows@) == seq![slices_of(a@), slices_of(b@)],
{
    let mut rows: Vec<Vec<String>> = Vec::new();
    rows.push(owned_texts(a));
    rows.push(owned_texts(b));
    proof {
        assert(rows_text(rows@) =~= seq![slices_of(a@), slices_of(b@)]);
    }
    rows
}

/// The rows `a`, `b` and `c`.
fn three_rows(a: &[&str], b: &[&str], c: &[&str]) -> (rows: Vec<Vec<String>>)
    ensures
        rows_text(rows@) == seq![slices_of(a@), slices_of(b@), slices_of(c@)],
{
    let mut rows: Vec<Vec<String>> = Vec::new();
    rows.push(owned_texts(a));
    rows.push(owned_texts(b));
    rows.push(owned_texts(c));
    proof {
        assert(rows_text(rows@) =~= seq![slices_of(a@), slices_of(b@), slices_of(c@)]);
    }
    rows
}

impl QueryExecutor {
    /// An executor.
    pub fn new() -> (e: Self) {
        QueryExecutor {  }
    }

    /// The sample rows for a query whose text in lower case is `lowered`.
    pub fn execute_lowered(&self, lowered: &str) -> (r: Result<Vec<Vec<String>>, String>)
        ensures
            r matches Ok(rows) && rows_text(rows@) == sample_rows(lowered@),
    {
        let rows = if mentions(lowered, "users") {
            if mentions(lowered, "count") {
                let rows = one_row(&["3"]);
                proof {
                    assert(rows_text(rows@)[0] =~= seq!["3"@]);
                    assert(rows_text(rows@) =~= sample_rows(lowered@));
                }
                rows
            } else if mentions(lowered, "where") {
                let rows = two_rows(&["John Doe", "30"], &["Bob Johnson", "35"]);
                proof {
                    assert(rows_text(rows@)[0] =~= seq!["John Doe"@, "30"@]);
                    assert(rows_text(rows@)[1] =~= seq!["Bob Johnson"@, "35"@]);
                    assert(rows_text(rows@) =~= sample_rows(lowered@));
                }
                rows
            } else {
                let rows = three_rows(&["John Doe", "30"], &["Jane Smith", "25"], &["Bob Johnson", "35"]);
                proof {
                    assert(rows_text(rows@)[0] =~= seq!["John Doe"@, "30"@]);
                    assert(rows_text(rows@)[1] =~= seq!["Jane Smith"@, "25"@]);
                    assert(rows_text(rows@)[2] =~= seq!["Bob Johnson"@, "35"@]);
                    assert(rows_text(rows@) =~= sample_rows(lowered@));
                }
                rows
            }
        } else if mentions(lowered, "orders") {
            let rows = three_rows(
                &["ORD001", "150.00", "2024-01-15"],
                &["ORD002", "275.50", "2024-01-16"],
                &["ORD003", "89.99", "2024-01-17"],
            );
            proof {
                assert(rows_text(rows@)[0] =~= seq!["ORD001"@, "150.00"@, "2024-01-15"@]);
                assert(rows_text(rows@)[1] =~= seq!["ORD002"@, "275.50"@, "2024-01-16"@]);
                assert(rows_text(rows@)[2] =~= seq!["ORD003"@, "89.99"@, "2024-01-17"@]);
                assert(rows_text(rows@) =~= sample_rows(lowered@));
            }
            rows
        } else if mentions(lowered, "products") {
            let rows = three_rows(&["Laptop", "999.99"], &["Mouse", "29.99"], &["Keyboard", "79.99"]);
            proof {
                assert(rows_text(rows@)[0] =~= seq!["Laptop"@, "999.99"@]);
                assert(rows_text(rows@)[1] =~= seq!["Mouse"@, "29.99"@]);
                assert(rows_text(rows@)[2] =~= seq!["Keyboard"@, "79.99"@]);
                assert(rows_text(rows@) =~= sample_rows(lowered@));
            }
            rows
        } else {
            let rows = three_rows(&["Sample Result 1"], &["Sample Result 2"], &["Sample Result 3"]);
            proof {
                assert(rows_text(rows@)[0] =~= seq!["Sample Result 1"@]);
                assert(rows_text(rows@)[1] =~= seq!["Sample Result 2"@]);
                assert(rows_text(rows@)[2] =~= seq!["Sample Result 3"@]);
                assert(rows_text(rows@) =~= sample_rows(lowered@));
            }
            rows
        };
        Ok(rows)
    }

    /// The sample rows for the query `sql_query`, chosen by its text in
    /// lower case.
    pub fn execute(&self, sql_query: &str) -> (r: Result<Vec<Vec<String>>, String>)
        ensures
            r matches Ok(rows) && rows_text(rows@) == sample_rows(lowercase_of(sql_query@)),
    {
        let lowered = lowercase(sql_query);
        self.execute_lowered(lowered.as_str())
    }

    /// The plan, named `query_id`, for the query `sql_query`: the four
    /// steps of every plan, at the cost 50.
    pub fn query_plan_named(&self, sql_query: &str, query_id: String) -> (plan: QueryPlan)
        ensures
            plan.query_id == query_id,
            plan.sql_query@ == sql_query@,
            texts_of(plan.steps@) == worker_steps(),
            plan.estimated_cost == 50,
    {
        let steps = owned_texts(&["Parse SQL", "Validate syntax", "Execute query", "Return results"]);
        proof {
            assert(texts_of(steps@) =~= worker_steps());
        }
        QueryPlan { query_id, sql_query: String::from_str(sql_query), steps, estimated_cost: 50 }
    }

    /// The plan for the query `sql_query`, under a fresh random name.
    pub fn get_query_plan(&self, sql_query: &str) -> (plan: QueryPlan)
        ensures
            plan.query_id@.len() == 36,
            plan.sql_query@ == sql_query@,
            texts_of(plan.steps@) == worker_steps(),
            plan.estimated_cost == 50,
    {
        self.query_plan_named(sql_query, random_uuid())
    }
}

} // verus!
