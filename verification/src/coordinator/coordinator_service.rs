//! What the coordinator answers to the calls that reach it: workers that
//! register and send heartbeats, clients that send queries and ask for the
//! state of the cluster.

use crate::clock::{current_seconds, elapsed_millis, timer_start};
use crate::coordinator::state::{is_report_of, uptime, CoordinatorState, SystemStatus, WorkerInfo};
use crate::ident::random_uuid;
use crate::text::{lowercase, lowercase_of, mentions, occurs_in, owned_texts, texts_of};
use vstd::prelude::*;
use vstd::string::StringExecFns;

verus! {

/// The answer to a worker that registers.
#[derive(Debug, PartialEq, Eq)]
pub struct RegisterWorkerResponse {
    pub success: bool,
    pub message: String,
}

/// The answer to a heartbeat.
#[derive(Debug, PartialEq, Eq)]
pub struct HeartbeatResponse {
    pub success: bool,
    pub message: String,
}

/// What a query gave.
#[derive(Debug, PartialEq, Eq)]
pub struct QueryResult {
    pub query_id: String,
    pub sql_query: String,
    pub execution_time_ms: u64,
    pub rows_returned: u32,
    pub results: Vec<Vec<String>>,
    pub status: String,
    /// When the result was ready, in seconds since the start of 1970.
    pub timestamp: Option<u64>,
}

/// The answer to a query.
#[derive(Debug)]
pub struct ExecuteQueryResponse {
    pub success: bool,
    pub result: Option<QueryResult>,
    pub message: String,
}

/// The answer to a request for the state of the cluster.
#[derive(Debug)]
pub struct GetSystemStatusResponse {
    pub success: bool,
    pub status: Option<SystemStatus>,
    pub message: String,
}

/// Answers the calls, on the coordinator's state.
#[derive(Debug)]
pub struct CoordinatorServiceImpl {
    pub state: CoordinatorState,
}

/// The texts of a list of rows.
pub open spec fn rows_text(rows: Seq<Vec<String>>) -> Seq<Seq<Seq<char>>> {
    Seq::new(rows.len(), |i: int| texts_of(rows[i]@))
}

/// The sample rows for a query whose text in lower case is `lowered`: by
/// the first of the words `users` and `orders` that the text holds.
pub open spec fn sample_results(lowered: Seq<char>) -> Seq<Seq<Seq<char>>> {
    if occurs_in("users"@, lowered) {
        seq![seq!["John Doe"@, "30"@], seq!["Jane Smith"@, "25"@], seq!["Bob Johnson"@, "35"@]]
    } else if occurs_in("orders"@, lowered) {
        seq![seq!["ORD001"@, "150.00"@], seq!["ORD002"@, "275.50"@], seq!["ORD003"@, "89.99"@]]
    } else {
        seq![seq!["Sample Result 1"@], seq!["Sample Result 2"@]]
    }
}

/// The largest count that a result can hold.
pub open spec fn capped_count(n: nat) -> u32 {
    if n > u32::MAX {
        u32::MAX
    } else {
        n as u32
    }
}

/// The sample rows for a query whose text in lower case is `lowered`.
pub fn results_for(lowered: &str) -> (rows: Vec<Vec<String>>)
    ensures
        rows_text(rows@) == sample_results(lowered@),
{
    let mut rows: Vec<Vec<String>> = Vec::new();
    if mentions(lowered, "users") {
        rows.push(owned_texts(&["John Doe", "30"]));
        rows.push(owned_texts(&["Jane Smith", "25"]));
        rows.push(owned_texts(&["Bob Johnson", "35"]));
        proof {
            assert(rows_text(rows@)[0] =~= seq!["John Doe"@, "30"@]);
            assert(rows_text(rows@)[1] =~= seq!["Jane Smith"@, "25"@]);
            assert(rows_text(rows@)[2] =~= seq!["Bob Johnson"@, "35"@]);
        }
    } else if mentions(lowered, "orders") {
        rows.push(owned_texts(&["ORD001", "150.00"]));
        rows.push(owned_texts(&["ORD002", "275.50"]));
        rows.push(owned_texts(&["ORD003", "89.99"]));
        proof {
            assert(rows_text(rows@)[0] =~= seq!["ORD001"@, "150.00"@]);
            assert(rows_text(rows@)[1] =~= seq!["ORD002"@, "275.50"@]);
            assert(rows_text(rows@)[2] =~= seq!["ORD003"@, "89.99"@]);
        }
    } else {
        rows.push(owned_texts(&["Sample Result 1"]));
        rows.push(owned_texts(&["Sample Result 2"]));
        proof {
            assert(rows_text(rows@)[0] =~= seq!["Sample Result 1"@]);
            assert(rows_text(rows@)[1] =~= seq!["Sample Result 2"@]);
        }
    }
    proof {
        assert(rows_text(rows@) =~= sample_results(lowered@));
    }
    rows
}

impl CoordinatorServiceImpl {
    /// A service on `state`.
    pub fn new(state: CoordinatorState) -> (s: Self)
        ensures
            s.state == state,
    {
        CoordinatorServiceImpl { state }
    }

    /// Registers a worker as of the time `now`, and says so.
    pub fn register_worker_at(&mut self, worker_id: String, address: String, port: u16, now: u64) -> (r:
        RegisterWorkerResponse)
        ensures
            r.success,
            r.message@ == "Worker "@ + worker_id@ + " registered successfully"@,
            final(self).state.workers@ == old(self).state.workers@.insert(
                worker_id@,
                WorkerInfo::registered(worker_id, address, port, now),
            ),
            final(self).state.same_surroundings(&old(self).state),
    {
        let mut message = String::from_str("Worker ");
        message.append(worker_id.as_str());
        message.append(" registered successfully");
        match self.state.register_worker_at(worker_id, address, port, now) {
            Ok(_) => RegisterWorkerResponse { success: true, message },
            Err(e) => {
                let mut failure = String::from_str("Failed to register worker: ");
                failure.append(e.as_str());
                RegisterWorkerResponse { success: false, message: failure }
            },
        }
    }

    /// Registers a worker now, and says so.
    pub fn register_worker(&mut self, worker_id: String, address: String, port: u16) -> (r: RegisterWorkerResponse)
        ensures
            r.success,
            r.message@ == "Worker "@ + worker_id@ + " registered successfully"@,
            exists|now: u64|
                final(self).state.workers@ == old(self).state.workers@.insert(
                    worker_id@,
                    #[trigger] WorkerInfo::registered(worker_id, address, port, now),
                ),
            final(self).state.same_surroundings(&old(self).state),
    {
        let now = crate::clock::current_millis();
        self.register_worker_at(worker_id, address, port, now)
    }

    /// Takes a heartbeat of the time `now`. The answer is the same whether
    /// or not the worker is known: the heartbeat of an unknown worker is
    /// dropped, and that is no failure.
    pub fn heartbeat_at(&mut self, worker_id: &str, cpu_usage: u64, memory_usage: u64, active_queries: u32, now: u64) -> (r:
        HeartbeatResponse)
        ensures
            r.success,
            r.message@ == "Heartbeat received"@,
            old(self).state.workers@.contains_key(worker_id@) ==> final(self).state.workers@ == old(
                self,
            ).state.workers@.insert(
                worker_id@,
                old(self).state.workers@[worker_id@].refreshed(cpu_usage, memory_usage, active_queries, now),
            ),
            !old(self).state.workers@.contains_key(worker_id@) ==> final(self).state.workers@ == old(
                self,
            ).state.workers@,
            final(self).state.same_surroundings(&old(self).state),
    {
        let _ = self.state.update_worker_status_at(worker_id, cpu_usage, memory_usage, active_queries, now);
        HeartbeatResponse { success: true, message: String::from_str("Heartbeat received") }
    }

    /// Takes a heartbeat now.
    pub fn heartbeat(&mut self, worker_id: &str, cpu_usage: u64, memory_usage: u64, active_queries: u32) -> (r:
        HeartbeatResponse)
        ensures
            r.success,
            r.message@ == "Heartbeat received"@,
            old(self).state.workers@.contains_key(worker_id@) ==> exists|now: u64|
                final(self).state.workers@ == old(self).state.workers@.insert(
                    worker_id@,
                    #[trigger] old(self).state.workers@[worker_id@].refreshed(
                        cpu_usage,
                        memory_usage,
                        active_queries,
                        now,
                    ),
                ),
            !old(self).state.workers@.contains_key(worker_id@) ==> final(self).state.workers@ == old(
                self,
            ).state.workers@,
            final(self).state.same_surroundings(&old(self).state),
    {
        let now = crate::clock::current_millis();
        self.heartbeat_at(worker_id, cpu_usage, memory_usage, active_queries, now)
    }

    /// Counts a query in as under way.
    pub fn begin_query(&mut self)
        requires
            old(self).state.active_queries < u32::MAX,
        ensures
            final(self).state.active_queries == old(self).state.active_queries + 1,
            final(self).state.total_queries == old(self).state.total_queries,
            final(self).state.same_cluster(&old(self).state),
    {
        self.state.active_queries = self.state.active_queries + 1;
    }

    /// Closes a query that was counted in: it is no longer under way and
    /// counts as done, and the answer holds `results` under the name
    /// `query_id`, with the time it took and the time `now`, in seconds.
    pub fn complete_query(
        &mut self,
        sql_query: &str,
        query_id: String,
        results: Vec<Vec<String>>,
        execution_time_ms: u64,
        now: u64,
    ) -> (r: ExecuteQueryResponse)
        requires
            old(self).state.active_queries > 0,
            old(self).state.total_queries < u64::MAX,
        ensures
            final(self).state.active_queries == old(self).state.active_queries - 1,
            final(self).state.total_queries == old(self).state.total_queries + 1,
            final(self).state.same_cluster(&old(self).state),
            r.success,
            r.message@ == "Query executed successfully"@,
            r.result matches Some(answer) && {
                &&& answer.query_id == query_id
                &&& answer.sql_query@ == sql_query@
                &&& answer.execution_time_ms == execution_time_ms
                &&& answer.results == results
                &&& answer.rows_returned == capped_count(results@.len())
                &&& answer.status@ == "completed"@
                &&& answer.timestamp == Some(now)
            },
    {
        self.state.active_queries = self.state.active_queries - 1;
        self.state.total_queries = self.state.total_queries + 1;
        let rows_returned: u32 = if results.len() > u32::MAX as usize {
            u32::MAX
        } else {
            results.len() as u32
        };
        let answer = QueryResult {
            query_id,
            sql_query: String::from_str(sql_query),
            execution_time_ms,
            rows_returned,
            results,
            status: String::from_str("completed"),
            timestamp: Some(now),
        };
        ExecuteQueryResponse {
            success: true,
            result: Some(answer),
            message: String::from_str("Query executed successfully"),
        }
    }

    /// Answers a query under a fresh random name, with the sample rows for
    /// its text.
    pub fn execute_query(&mut self, sql_query: &str) -> (r: ExecuteQueryResponse)
        requires
            old(self).state.active_queries < u32::MAX,
            old(self).state.total_queries < u64::MAX,
        ensures
            final(self).state.active_queries == old(self).state.active_queries,
            final(self).state.total_queries == old(self).state.total_queries + 1,
            final(self).state.same_cluster(&old(self).state),
            r.success,
            r.message@ == "Query executed successfully"@,
            r.result matches Some(answer) && {
                &&& answer.query_id@.len() == 36
                &&& answer.sql_query@ == sql_query@
                &&& rows_text(answer.results@) == sample_results(lowercase_of(sql_query@))
                &&& answer.rows_returned == capped_count(answer.results@.len())
                &&& answer.status@ == "completed"@
                &&& answer.timestamp is Some
            },
    {
        let query_id = random_uuid();
        self.begin_query();
        let start = timer_start();
        let lowered = lowercase(sql_query);
        let results = results_for(lowered.as_str());
        let taken = elapsed_millis(&start);
        self.complete_query(sql_query, query_id, results, taken, current_seconds())
    }

    /// Reports the state of the cluster at the time `now`.
    pub fn get_system_status_at(&self, now: u64) -> (r: GetSystemStatusResponse)
        ensures
            r.success,
            r.message@ == "System status retrieved successfully"@,
            r.status matches Some(status) && {
                &&& is_report_of(status.components@, self.state.workers@, now)
                &&& status.total_queries == self.state.total_queries
                &&& status.active_queries == self.state.active_queries
                &&& status.system_uptime == uptime(self.state.start_time, now)
                &&& status.last_updated == now
            },
    {
        match self.state.get_system_status_at(now) {
            Ok(status) => GetSystemStatusResponse {
                success: true,
                status: Some(status),
                message: String::from_str("System status retrieved successfully"),
            },
            Err(e) => {
                let mut failure = String::from_str("Failed to get system status: ");
                failure.append(e.as_str());
                GetSystemStatusResponse { success: false, status: None, message: failure }
            },
        }
    }

    /// Reports the state of the cluster as of now.
    pub fn get_system_status(&self) -> (r: GetSystemStatusResponse)
        ensures
            r.success,
            r.message@ == "System status retrieved successfully"@,
            r.status matches Some(status) && {
                &&& is_report_of(status.components@, self.state.workers@, status.last_updated)
                &&& status.total_queries == self.state.total_queries
                &&& status.active_queries == self.state.active_queries
                &&& status.system_uptime == uptime(self.state.start_time, status.last_updated)
            },
    {
        self.get_system_status_at(crate::clock::current_millis())
    }
}

} // verus!
