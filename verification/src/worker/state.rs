//! The state of one worker: who it is, what it holds, and how busy it is.

use crate::clock::{current_millis, current_seconds, elapsed_millis, timer_start};
use crate::ident::random_uuid;
use crate::text::lowercase_of;
use crate::worker::data_store::DataStore;
use crate::worker::query_executor::{rows_text, sample_rows, QueryExecutor};
use vstd::prelude::*;
use vstd::string::StringExecFns;

verus! {

/// How busy a worker is. The two usage figures are carried as the bits of
/// 64-bit floats; the time is in milliseconds since the start of 1970.
#[derive(Debug, Clone, Copy, PartialEq, Eq, Structural)]
pub struct QueryMetrics {
    pub total_queries: u64,
    pub active_queries: u32,
    pub cpu_usage: u64,
    pub memory_usage: u64,
    pub last_heartbeat: u64,
}

/// One worker.
#[derive(Debug)]
pub struct WorkerState {
    pub worker_id: String,
    pub coordinator_address: String,
    pub coordinator_port: u16,
    pub query_executor: QueryExecutor,
    pub data_store: DataStore,
    pub metrics: QueryMetrics,
    pub start_time: u64,
}

/// What a worker answers to one query.
#[derive(Debug, PartialEq, Eq)]
pub struct QueryResult {
    pub query_id: String,
    pub sql_query: String,
    pub execution_time_ms: u64,
    pub rows_returned: u32,
    pub results: Vec<Vec<String>>,
    pub status: String,
    /// When the answer was ready, in seconds since the start of 1970.
    pub timestamp: Option<u64>,
}

/// The largest count that an answer can hold.
pub open spec fn capped_count(n: nat) -> u32 {
    if n > u32::MAX {
        u32::MAX
    } else {
        n as u32
    }
}

impl WorkerState {
    /// Whether `self` and `other` are the same worker: the same name and
    /// coordinator, the same start.
    pub open spec fn same_worker(&self, other: &WorkerState) -> bool {
        &&& self.worker_id == other.worker_id
        &&& self.coordinator_address == other.coordinator_address
        &&& self.coordinator_port == other.coordinator_port
        &&& self.start_time == other.start_time
        &&& self.data_store == other.data_store
    }

    /// A worker that starts at the time `now`: idle, with the sample tables.
    pub fn new_at(worker_id: String, coordinator_address: String, coordinator_port: u16, now: u64) -> (w: Self)
        ensures
            w.worker_id == worker_id,
            w.coordinator_address == coordinator_address,
            w.coordinator_port == coordinator_port,
            w.data_store.holds_samples(),
            w.metrics == (QueryMetrics {
                total_queries: 0,
                active_queries: 0,
                cpu_usage: 0,
                memory_usage: 0,
                last_heartbeat: now,
            }),
            w.start_time == now,
    {
        WorkerState {
            worker_id,
            coordinator_address,
            coordinator_port,
            query_executor: QueryExecutor::new(),
            data_store: DataStore::new(),
            metrics: QueryMetrics {
                total_queries: 0,
                active_queries: 0,
                cpu_usage: 0,
                memory_usage: 0,
                last_heartbeat: now,
            },
            start_time: now,
        }
    }

    /// A worker that starts now.
    pub fn new(worker_id: String, coordinator_address: String, coordinator_port: u16) -> (w: Self)
        ensures
            w.worker_id == worker_id,
            w.coordinator_address == coordinator_address,
            w.coordinator_port == coordinator_port,
            w.data_store.holds_samples(),
            w.metrics == (QueryMetrics {
                total_queries: 0,
                active_queries: 0,
                cpu_usage: 0,
                memory_usage: 0,
                last_heartbeat: w.start_time,
            }),
    {
        Self::new_at(worker_id, coordinator_address, coordinator_port, current_millis())
    }

    /// Counts a query in as under way.
    pub fn begin_query(&mut self)
        requires
            old(self).metrics.active_queries < u32::MAX,
        ensures
            final(self).metrics == (QueryMetrics {
                active_queries: (old(self).metrics.active_queries + 1) as u32,
                ..old(self).metrics
            }),
            final(self).same_worker(old(self)),
    {
        self.metrics.active_queries = self.metrics.active_queries + 1;
    }

    /// Closes a query that was counted in: the query is no longer under
    /// way and counts as done, and the answer holds `results` under the
    /// name `query_id`, with the time it took and the time `now`, in
    /// seconds, at which it was ready.
    pub fn complete_query(
        &mut self,
        sql_query: &str,
        query_id: String,
        results: Vec<Vec<String>>,
        execution_time_ms: u64,
        now: u64,
    ) -> (answer: QueryResult)
        requires
            old(self).metrics.active_queries > 0,
            old(self).metrics.total_queries < u64::MAX,
        ensures
            final(self).metrics == (QueryMetrics {
                active_queries: (old(self).metrics.active_queries - 1) as u32,
                total_queries: (old(self).metrics.total_queries + 1) as u64,
                ..old(self).metrics
            }),
            final(self).same_worker(old(self)),
            answer.query_id == query_id,
            answer.sql_query@ == sql_query@,
            answer.execution_time_ms == execution_time_ms,
            answer.results == results,
            answer.rows_returned == capped_count(results@.len()),
            answer.status@ == "completed"@,
            answer.timestamp == Some(now),
    {
        self.metrics.active_queries = self.metrics.active_queries - 1;
        self.metrics.total_queries = self.metrics.total_queries + 1;
        let rows_returned: u32 = if results.len() > u32::MAX as usize {
            u32::MAX
        } else {
            results.len() as u32
        };
        QueryResult {
            query_id,
            sql_query: String::from_str(sql_query),
            execution_time_ms,
            rows_returned,
            results,
            status: String::from_str("completed"),
            timestamp: Some(now),
        }
    }

    /// Answers a query under a fresh random name: counts it in, finds the
    /// sample rows for its text, and counts it as done.
    pub fn execute_query(&mut self, sql_query: &str) -> (r: Result<QueryResult, String>)
        requires
            old(self).metrics.active_queries < u32::MAX,
            old(self).metrics.total_queries < u64::MAX,
        ensures
            final(self).metrics == (QueryMetrics {
                total_queries: (old(self).metrics.total_queries + 1) as u64,
                ..old(self).metrics
            }),
            final(self).same_worker(old(self)),
            r matches Ok(answer) && {
                &&& answer.query_id@.len() == 36
                &&& answer.sql_query@ == sql_query@
                &&& rows_text(answer.results@) == sample_rows(lowercase_of(sql_query@))
                &&& answer.rows_returned == capped_count(answer.results@.len())
                &&& answer.status@ == "completed"@
                &&& answer.timestamp is Some
            },
    {
        let query_id = random_uuid();
        let start = timer_start();
        self.begin_query();
        let results = match self.query_executor.execute(sql_query) {
            Ok(rows) => rows,
            Err(e) => {
                return Err(e);
            },
        };
        let taken = elapsed_millis(&start);
        Ok(self.complete_query(sql_query, query_id, results, taken, current_seconds()))
    }

    /// How busy the worker is.
    pub fn get_metrics(&self) -> (m: QueryMetrics)
        ensures
            m == self.metrics,
    {
        self.metrics
    }

    /// Takes the worker's own usage figures, measured at the time `now`.
    pub fn update_system_metrics_at(&mut self, cpu_usage: u64, memory_usage: u64, now: u64)
        ensures
            final(self).metrics == (QueryMetrics {
                cpu_usage,
                memory_usage,
                last_heartbeat: now,
                ..old(self).metrics
            }),
            final(self).same_worker(old(self)),
    {
        self.metrics.cpu_usage = cpu_usage;
        self.metrics.memory_usage = memory_usage;
        self.metrics.last_heartbeat = now;
    }

    /// Takes the worker's own usage figures, measured now.
    pub fn update_system_metrics(&mut self, cpu_usage: u64, memory_usage: u64)
        ensures
            final(self).metrics == (QueryMetrics {
                cpu_usage,
                memory_usage,
                last_heartbeat: final(self).metrics.last_heartbeat,
                ..old(self).metrics
            }),
            final(self).same_worker(old(self)),
    {
        self.update_system_metrics_at(cpu_usage, memory_usage, current_millis());
    }
}

} // verus!
