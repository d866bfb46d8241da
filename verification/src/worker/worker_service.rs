//! What a worker answers to the calls that reach it.

use crate::clock::{current_millis, current_seconds};
use crate::text::lowercase_of;
use crate::worker::query_executor::{rows_text, sample_rows};
use crate::worker::state::{capped_count, QueryMetrics, QueryResult, WorkerState};
use vstd::prelude::*;
use vstd::string::StringExecFns;

verus! {

/// The answer to a query.
#[derive(Debug)]
pub struct ExecuteQueryResponse {
    pub success: bool,
    pub result: Option<QueryResult>,
    pub message: String,
}

/// How a worker fares. The usage figures are carried as the bits of 64-bit
/// floats; the uptime and the time of the last heartbeat are in seconds.
#[derive(Debug, PartialEq, Eq)]
pub struct WorkerStatus {
    pub worker_id: String,
    pub status: String,
    pub cpu_usage: u64,
    pub memory_usage: u64,
    pub active_queries: u32,
    pub total_queries: u64,
    pub uptime: Option<u64>,
    pub last_heartbeat: Option<u64>,
}

/// The answer to a request for the worker's status.
#[derive(Debug)]
pub struct GetWorkerStatusResponse {
    pub success: bool,
    pub status: Option<WorkerStatus>,
    pub message: String,
}

/// The answer to a health check.
#[derive(Debug, PartialEq, Eq)]
pub struct HealthResponse {
    pub worker_id: String,
    pub healthy: bool,
    /// When the check was answered, in seconds since the start of 1970.
    pub timestamp: u64,
    pub status_message: String,
}

/// Answers the calls, on the worker's state.
#[derive(Debug)]
pub struct WorkerServiceImpl {
    pub state: WorkerState,
}

/// The whole seconds from `start` to `now`, both in milliseconds; 0 where
/// the clock has stepped back.
pub open spec fn seconds_between(start: u64, now: u64) -> u64 {
    if now >= start {
        ((now - start) / 1000) as u64
    } else {
        0
    }
}

impl WorkerServiceImpl {
    /// A service on `state`.
    pub fn new(state: WorkerState) -> (s: Self)
        ensures
            s.state == state,
    {
        WorkerServiceImpl { state }
    }

    /// Answers a query under a fresh random name, with the sample rows for
    /// its text.
    pub fn execute_query(&mut self, sql_query: &str) -> (r: ExecuteQueryResponse)
        requires
            old(self).state.metrics.active_queries < u32::MAX,
            old(self).state.metrics.total_queries < u64::MAX,
        ensures
            final(self).state.metrics == (QueryMetrics {
                total_queries: (old(self).state.metrics.total_queries + 1) as u64,
                ..old(self).state.metrics
            }),
            final(self).state.same_worker(&old(self).state),
            r.success,
            r.message@ == "Query executed successfully"@,
            r.result matches Some(answer) && {
                &&& answer.query_id@.len() == 36
                &&& answer.sql_query@ == sql_query@
                &&& rows_text(answer.results@) == sample_rows(lowercase_of(sql_query@))
                &&& answer.rows_returned == capped_count(answer.results@.len())
                &&& answer.status@ == "completed"@
                &&& answer.timestamp is Some
            },
    {
        match self.state.execute_query(sql_query) {
            Ok(answer) => ExecuteQueryResponse {
                success: true,
                result: Some(answer),
                message: String::from_str("Query executed successfully"),
            },
            Err(e) => {
                let mut failure = String::from_str("Query execution failed: ");
                failure.append(e.as_str());
                ExecuteQueryResponse { success: false, result: None, message: failure }
            },
        }
    }

    /// Reports how the worker fares at the time `now`, in milliseconds:
    /// healthy, with its figures, the whole seconds since its start and
    /// the second of its last heartbeat.
    pub fn get_worker_status_at(&self, now: u64) -> (r: GetWorkerStatusResponse)
        ensures
            r.success,
            r.message@ == "Worker status retrieved successfully"@,
            r.status matches Some(status) && {
                &&& status.worker_id == self.state.worker_id
                &&& status.status@ == "healthy"@
                &&& status.cpu_usage == self.state.metrics.cpu_usage
                &&& status.memory_usage == self.state.metrics.memory_usage
                &&& status.active_queries == self.state.metrics.active_queries
                &&& status.total_queries == self.state.metrics.total_queries
                &&& status.uptime == Some(seconds_between(self.state.start_time, now))
                &&& status.last_heartbeat == Some((self.state.metrics.last_heartbeat / 1000) as u64)
            },
    {
        let metrics = self.state.get_metrics();
        let uptime: u64 = if now >= self.state.start_time {
            (now - self.state.start_time) / 1000
        } else {
            0
        };
        let status = WorkerStatus {
            worker_id: self.state.worker_id.clone(),
            status: String::from_str("healthy"),
            cpu_usage: metrics.cpu_usage,
            memory_usage: metrics.memory_usage,
            active_queries: metrics.active_queries,
            total_queries: metrics.total_queries,
            uptime: Some(uptime),
            last_heartbeat: Some(metrics.last_heartbeat / 1000),
        };
        GetWorkerStatusResponse {
            success: true,
            status: Some(status),
            message: String::from_str("Worker status retrieved successfully"),
        }
    }

    /// Reports how the worker fares now.
    pub fn get_worker_status(&self) -> (r: GetWorkerStatusResponse)
        ensures
            r.success,
            r.message@ == "Worker status retrieved successfully"@,
            r.status matches Some(status) && {
                &&& status.worker_id == self.state.worker_id
                &&& status.status@ == "healthy"@
                &&& status.cpu_usage == self.state.metrics.cpu_usage
                &&& status.memory_usage == self.state.metrics.memory_usage
                &&& status.active_queries == self.state.metrics.active_queries
                &&& status.total_queries == self.state.metrics.total_queries
                &&& status.uptime is Some
                &&& status.last_heartbeat == Some((self.state.metrics.last_heartbeat / 1000) as u64)
            },
    {
        self.get_worker_status_at(current_millis())
    }

    /// Answers a health check for the worker named `worker_id` at the
    /// time `now`, in seconds: it is healthy.
    pub fn health_check_at(&self, worker_id: String, now: u64) -> (r: HealthResponse)
        ensures
            r.worker_id == worker_id,
            r.healthy,
            r.timestamp == now,
            r.status_message@ == "Worker "@ + worker_id@ + " is healthy"@,
    {
        let mut status_message = String::from_str("Worker ");
        status_message.append(worker_id.as_str());
        status_message.append(" is healthy");
        HealthResponse { worker_id, healthy: true, timestamp: now, status_message }
    }

    /// Answers a health check for the worker named `worker_id`, now.
    pub fn health_check(&self, worker_id: String) -> (r: HealthResponse)
        ensures
            r.worker_id == worker_id,
            r.healthy,
            r.status_message@ == "Worker "@ + worker_id@ + " is healthy"@,
    {
        self.health_check_at(worker_id, current_seconds())
    }
}

} // verus!
