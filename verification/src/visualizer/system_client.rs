//! The dashboard's source of figures: sample figures for now.

use crate::clock::{current_millis, elapsed_millis, timer_start};
use crate::ident::random_uuid;
use crate::str_map::StrMap;
use crate::text::{mentions, occurs_in, owned_texts, texts_of};
use crate::visualizer::visualizer::{ComponentStatus, PerformanceMetrics, QueryResult, SystemStatus};
use vstd::prelude::*;
use vstd::string::StringExecFns;

verus! {

/// Gives the dashboard its figures.
#[derive(Debug)]
pub struct SystemClient {
    demo_mode: bool,
}

/// The sample figures, each as the bits of a 64-bit float: the load, in
/// percent, and the memory, in megabytes, of each component.
pub const COORDINATOR_CPU: u64 = 0x4046_8000_0000_0000;

pub const COORDINATOR_MEMORY: u64 = 0x4060_0000_0000_0000;

pub const WORKER1_CPU: u64 = 0x4039_0000_0000_0000;

pub const WORKER1_MEMORY: u64 = 0x4050_0000_0000_0000;

pub const WORKER2_CPU: u64 = 0x403e_0000_0000_0000;

pub const WORKER2_MEMORY: u64 = 0x4052_0000_0000_0000;

pub const WORKER3_CPU: u64 = 0x4041_8000_0000_0000;

pub const WORKER3_MEMORY: u64 = 0x4054_0000_0000_0000;

/// The sample share of each worker's capacity in use, in percent.
pub const WORKER1_UTILIZATION: u64 = 0x4052_c000_0000_0000;

pub const WORKER2_UTILIZATION: u64 = 0x404e_0000_0000_0000;

pub const WORKER3_UTILIZATION: u64 = 0x4054_0000_0000_0000;

/// The sample latency in milliseconds, rate of queries and rate of errors.
pub const AVERAGE_LATENCY: u64 = 0x4062_c000_0000_0000;

pub const QUERIES_PER_SECOND: u64 = 0x4004_0000_0000_0000;

pub const ERROR_RATE: u64 = 0x3f94_7ae1_47ae_147b;

/// Whether `c` is the healthy component of these figures, heard of at `now`.
pub open spec fn is_healthy_component(
    c: ComponentStatus,
    id: Seq<char>,
    cpu_usage: u64,
    memory_usage: u64,
    active_connections: u32,
    now: u64,
) -> bool {
    &&& c.id@ == id
    &&& c.status@ == "healthy"@
    &&& c.cpu_usage == cpu_usage
    &&& c.memory_usage == memory_usage
    &&& c.active_connections == active_connections
    &&& c.last_heartbeat == now
}

/// Whether `s` is the sample state of the cluster as of the time `now`:
/// a coordinator and three workers, all healthy, 42 queries done, 2 under
/// way, up for an hour.
pub open spec fn is_sample_status(s: SystemStatus, now: u64) -> bool {
    &&& s.components.key_seq() == seq!["coordinator"@, "worker1"@, "worker2"@, "worker3"@]
    &&& is_healthy_component(s.components@["coordinator"@], "coordinator"@, COORDINATOR_CPU, COORDINATOR_MEMORY, 3, now)
    &&& is_healthy_component(s.components@["worker1"@], "worker1"@, WORKER1_CPU, WORKER1_MEMORY, 1, now)
    &&& is_healthy_component(s.components@["worker2"@], "worker2"@, WORKER2_CPU, WORKER2_MEMORY, 1, now)
    &&& is_healthy_component(s.components@["worker3"@], "worker3"@, WORKER3_CPU, WORKER3_MEMORY, 1, now)
    &&& s.total_queries == 42
    &&& s.active_queries == 2
    &&& s.system_uptime == 3_600_000
    &&& s.last_updated == now
}

/// Whether `m` is the sample performance as of the time `now`.
pub open spec fn is_sample_performance(m: PerformanceMetrics, now: u64) -> bool {
    &&& m.total_queries == 42
    &&& m.average_latency_ms == AVERAGE_LATENCY
    &&& m.queries_per_second == QUERIES_PER_SECOND
    &&& m.error_rate == ERROR_RATE
    &&& m.worker_utilization.key_seq() == seq!["worker1"@, "worker2"@, "worker3"@]
    &&& m.worker_utilization@["worker1"@] == WORKER1_UTILIZATION
    &&& m.worker_utilization@["worker2"@] == WORKER2_UTILIZATION
    &&& m.worker_utilization@["worker3"@] == WORKER3_UTILIZATION
    &&& m.timestamp == now
}

/// The texts of a list of rows.
pub open spec fn rows_text(rows: Seq<Vec<String>>) -> Seq<Seq<Seq<char>>> {
    Seq::new(rows.len(), |i: int| texts_of(rows[i]@))
}

/// The sample rows for the query `query`: three people where it holds
/// the word `users`, written just so; two sample rows otherwise.
pub open spec fn demo_rows(query: Seq<char>) -> Seq<Seq<Seq<char>>> {
    if occurs_in("users"@, query) {
        seq![seq!["John Doe"@, "30"@], seq!["Jane Smith"@, "25"@], seq!["Bob Johnson"@, "35"@]]
    } else {
        seq![seq!["Sample Result 1"@], seq!["Sample Result 2"@]]
    }
}

/// A healthy component of these figures, heard of at `now`.
fn healthy(id: &str, cpu_usage: u64, memory_usage: u64, active_connections: u32, now: u64) -> (c: ComponentStatus)
    ensures
        is_healthy_component(c, id@, cpu_usage, memory_usage, active_connections, now),
{
    ComponentStatus {
        id: String::from_str(id),
        status: String::from_str("healthy"),
        cpu_usage,
        memory_usage,
        active_connections,
        last_heartbeat: now,
    }
}

impl SystemClient {
    /// A client that gives sample figures.
    pub fn new() -> (r: Result<Self, String>)
        ensures
            r matches Ok(client) && client.gives_samples(),
    {
        Ok(SystemClient { demo_mode: true })
    }

    /// Whether the client gives sample figures in place of measured ones.
    pub closed spec fn gives_samples(&self) -> bool {
        self.demo_mode
    }

    /// The state of the cluster as of the time `now`.
    pub fn get_system_status_at(&self, now: u64) -> (r: Result<SystemStatus, String>)
        ensures
            r matches Ok(s) && is_sample_status(s, now),
    {
        proof {
            reveal_strlit("coordinator");
            reveal_strlit("worker1");
            reveal_strlit("worker2");
            reveal_strlit("worker3");
            assert("coordinator"@.len() == 11);
            assert("worker1"@[6] == '1');
            assert("worker2"@[6] == '2');
            assert("worker3"@[6] == '3');
        }
        let mut components: StrMap<ComponentStatus> = StrMap::new();
        components.insert(String::from_str("coordinator"), healthy("coordinator", COORDINATOR_CPU, COORDINATOR_MEMORY, 3, now));
        components.insert(String::from_str("worker1"), healthy("worker1", WORKER1_CPU, WORKER1_MEMORY, 1, now));
        components.insert(String::from_str("worker2"), healthy("worker2", WORKER2_CPU, WORKER2_MEMORY, 1, now));
        components.insert(String::from_str("worker3"), healthy("worker3", WORKER3_CPU, WORKER3_MEMORY, 1, now));
        proof {
            assert(components.key_seq() =~= seq!["coordinator"@, "worker1"@, "worker2"@, "worker3"@]);
        }
        Ok(
            SystemStatus {
                components,
                total_queries: 42,
                active_queries: 2,
                system_uptime: 3_600_000,
                last_updated: now,
            },
        )
    }

    /// The state of the cluster as of now.
    pub fn get_system_status(&self) -> (r: Result<SystemStatus, String>)
        ensures
            r matches Ok(s) && is_sample_status(s, s.last_updated),
    {
        self.get_system_status_at(current_millis())
    }

    /// The answer to the query `query`, under the name `query_id`, with
    /// the time it took and the time `now` at which it was ready.
    pub fn execute_query_with(&self, query: &str, query_id: String, execution_time_ms: u64, now: u64) -> (r:
        Result<QueryResult, String>)
        ensures
            r matches Ok(answer) && {
                &&& answer.query_id == query_id
                &&& answer.sql_query@ == query@
                &&& answer.execution_time_ms == execution_time_ms
                &&& rows_text(answer.results@) == demo_rows(query@)
                &&& answer.rows_returned == answer.results@.len()
                &&& answer.status@ == "completed"@
                &&& answer.timestamp == now
            },
    {
        let mut results: Vec<Vec<String>> = Vec::new();
        if mentions(query, "users") {
            results.push(owned_texts(&["John Doe", "30"]));
            results.push(owned_texts(&["Jane Smith", "25"]));
            results.push(owned_texts(&["Bob Johnson", "35"]));
            proof {
                assert(rows_text(results@)[0] =~= seq!["John Doe"@, "30"@]);
                assert(rows_text(results@)[1] =~= seq!["Jane Smith"@, "25"@]);
                assert(rows_text(results@)[2] =~= seq!["Bob Johnson"@, "35"@]);
            }
        } else {
            results.push(owned_texts(&["Sample Result 1"]));
            results.push(owned_texts(&["Sample Result 2"]));
            proof {
                assert(rows_text(results@)[0] =~= seq!["Sample Result 1"@]);
                assert(rows_text(results@)[1] =~= seq!["Sample Result 2"@]);
            }
        }
        proof {
            assert(rows_text(results@) =~= demo_rows(query@));
        }
        Ok(
            QueryResult {
                query_id,
                sql_query: String::from_str(query),
                execution_time_ms,
                rows_returned: results.len(),
                results,
                status: String::from_str("completed"),
                timestamp: now,
            },
        )
    }

    /// The answer to the query `query`, under a fresh random name.
    pub fn execute_query(&self, query: &str) -> (r: Result<QueryResult, String>)
        ensures
            r matches Ok(answer) && {
                &&& answer.query_id@.len() == 36
                &&& answer.sql_query@ == query@
                &&& rows_text(answer.results@) == demo_rows(query@)
                &&& answer.rows_returned == answer.results@.len()
                &&& answer.status@ == "completed"@
            },
    {
        let start = timer_start();
        let taken = elapsed_millis(&start);
        self.execute_query_with(query, random_uuid(), taken, current_millis())
    }

    /// How the cluster performs, as of the time `now`.
    pub fn get_performance_metrics_at(&self, now: u64) -> (r: Result<PerformanceMetrics, String>)
        ensures
            r matches Ok(m) && is_sample_performance(m, now),
    {
        proof {
            reveal_strlit("worker1");
            reveal_strlit("worker2");
            reveal_strlit("worker3");
            assert("worker1"@[6] == '1');
            assert("worker2"@[6] == '2');
            assert("worker3"@[6] == '3');
        }
        let mut worker_utilization: StrMap<u64> = StrMap::new();
        worker_utilization.insert(String::from_str("worker1"), WORKER1_UTILIZATION);
        worker_utilization.insert(String::from_str("worker2"), WORKER2_UTILIZATION);
        worker_utilization.insert(String::from_str("worker3"), WORKER3_UTILIZATION);
        proof {
            assert(worker_utilization.key_seq() =~= seq!["worker1"@, "worker2"@, "worker3"@]);
        }
        Ok(
            PerformanceMetrics {
                total_queries: 42,
                average_latency_ms: AVERAGE_LATENCY,
                queries_per_second: QUERIES_PER_SECOND,
                error_rate: ERROR_RATE,
                worker_utilization,
                timestamp: now,
            },
        )
    }

    /// How the cluster performs, as of now.
    pub fn get_performance_metrics(&self) -> (r: Result<PerformanceMetrics, String>)
        ensures
            r matches Ok(m) && is_sample_performance(m, m.timestamp),
    {
        self.get_performance_metrics_at(current_millis())
    }
}

} // verus!
