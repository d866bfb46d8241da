//! What the dashboard shows: the state of the cluster and the latest
//! queries. Usage figures and rates are carried as the bits of 64-bit
//! floats; times are in milliseconds since the start of 1970, spans in
//! milliseconds.

use crate::clock::current_millis;
use crate::str_map::StrMap;
use vstd::prelude::*;
use vstd::string::StringExecFns;

verus! {

/// How many queries the dashboard keeps.
pub const RECENT_QUERIES: usize = 10;

/// What the dashboard shows of one component.
#[derive(Debug, PartialEq, Eq)]
pub struct ComponentStatus {
    pub id: String,
    /// `healthy`, `unhealthy` or `unknown`.
    pub status: String,
    pub cpu_usage: u64,
    /// In megabytes.
    pub memory_usage: u64,
    pub active_connections: u32,
    pub last_heartbeat: u64,
}

/// The cluster as the dashboard shows it.
#[derive(Debug)]
pub struct SystemStatus {
    pub components: StrMap<ComponentStatus>,
    pub total_queries: u64,
    pub active_queries: u64,
    pub system_uptime: u64,
    pub last_updated: u64,
}

/// One query that ran, and what it gave.
#[derive(Debug, PartialEq, Eq)]
pub struct QueryResult {
    pub query_id: String,
    pub sql_query: String,
    pub execution_time_ms: u64,
    pub rows_returned: usize,
    pub results: Vec<Vec<String>>,
    pub status: String,
    pub timestamp: u64,
}

/// How the cluster performs.
#[derive(Debug)]
pub struct PerformanceMetrics {
    pub total_queries: u64,
    pub average_latency_ms: u64,
    pub queries_per_second: u64,
    pub error_rate: u64,
    /// The share of each worker's capacity in use, by worker.
    pub worker_utilization: StrMap<u64>,
    pub timestamp: u64,
}

/// One shard as the dashboard shows it.
#[derive(Debug, PartialEq, Eq)]
pub struct ShardInfo {
    pub shard_id: String,
    pub table_name: String,
    pub worker_id: String,
    pub row_count: u64,
    /// In megabytes, as the bits of a 64-bit float.
    pub size_mb: u64,
    /// `hash`, `range` or `round_robin`.
    pub shard_type: String,
}

/// One step of a query's way through the cluster.
#[derive(Debug, PartialEq, Eq)]
pub struct QueryExecutionStep {
    pub step_name: String,
    /// `pending`, `running`, `completed` or `failed`.
    pub status: String,
    pub duration_ms: u64,
    pub details: String,
}

/// A query's way through the cluster.
#[derive(Debug, PartialEq, Eq)]
pub struct QueryFlow {
    pub query_id: String,
    pub sql_query: String,
    pub steps: Vec<QueryExecutionStep>,
    pub total_duration_ms: u64,
    pub status: String,
}

/// Everything that the dashboard shows.
#[derive(Debug)]
pub struct VisualizationData {
    pub system_status: SystemStatus,
    pub performance_metrics: PerformanceMetrics,
    pub recent_queries: Vec<QueryResult>,
}

/// Whether `c` is the entry of a component named `id` of which nothing is
/// known at the time `now`.
pub open spec fn is_unknown_component(c: ComponentStatus, id: Seq<char>, now: u64) -> bool {
    &&& c.id@ == id
    &&& c.status@ == "unknown"@
    &&& c.cpu_usage == 0
    &&& c.memory_usage == 0
    &&& c.active_connections == 0
    &&& c.last_heartbeat == now
}

/// The names of the components that the dashboard expects.
pub open spec fn expected_components() -> Seq<Seq<char>> {
    seq!["coordinator"@, "worker1"@, "worker2"@, "worker3"@]
}

/// The queries that the dashboard keeps once `result` has come in behind
/// `recent`: all of them, but for the oldest where they are more than ten.
pub open spec fn kept(recent: Seq<QueryResult>, result: QueryResult) -> Seq<QueryResult> {
    if recent.len() + 1 > RECENT_QUERIES {
        recent.push(result).drop_first()
    } else {
        recent.push(result)
    }
}

impl ComponentStatus {
    /// The entry of a component named `id` of which nothing is known at
    /// the time `now`.
    pub fn unknown(id: &str, now: u64) -> (c: Self)
        ensures
            is_unknown_component(c, id@, now),
    {
        ComponentStatus {
            id: String::from_str(id),
            status: String::from_str("unknown"),
            cpu_usage: 0,
            memory_usage: 0,
            active_connections: 0,
            last_heartbeat: now,
        }
    }
}

impl SystemStatus {
    /// Whether this is the status before anything is known, as of the
    /// time `now`: the coordinator and three workers, all unknown, no
    /// queries, no uptime.
    pub open spec fn is_blank(&self, now: u64) -> bool {
        &&& self.components.key_seq() == expected_components()
        &&& forall|i: int|
            0 <= i < 4 ==> is_unknown_component(
                self.components@[#[trigger] expected_components()[i]],
                expected_components()[i],
                now,
            )
        &&& self.total_queries == 0
        &&& self.active_queries == 0
        &&& self.system_uptime == 0
        &&& self.last_updated == now
    }

    /// The status before anything is known, as of the time `now`.
    pub fn default_at(now: u64) -> (s: Self)
        ensures
            s.is_blank(now),
    {
        proof {
            reveal_strlit("coordinator");
            reveal_strlit("worker1");
            reveal_strlit("worker2");
            reveal_strlit("worker3");
            assert("coordinator"@.len() == 11);
            assert("worker1"@[6] == '1');
            assert("worker2"@[6] == '2');
            assert("worker3"@[6] == '3');
        }
        let mut components: StrMap<ComponentStatus> = StrMap::new();
        components.insert(String::from_str("coordinator"), ComponentStatus::unknown("coordinator", now));
        components.insert(String::from_str("worker1"), ComponentStatus::unknown("worker1", now));
        components.insert(String::from_str("worker2"), ComponentStatus::unknown("worker2", now));
        components.insert(String::from_str("worker3"), ComponentStatus::unknown("worker3", now));
        proof {
            assert(components.key_seq() =~= expected_components());
        }
        SystemStatus { components, total_queries: 0, active_queries: 0, system_uptime: 0, last_updated: now }
    }
}

impl Default for SystemStatus {
    /// The status before anything is known, as of now.
    fn default() -> (s: Self)
        ensures
            s.is_blank(s.last_updated),
    {
        SystemStatus::default_at(current_millis())
    }
}

impl PerformanceMetrics {
    /// Whether these are the figures before anything is measured, as of
    /// the time `now`: all zero, no worker.
    pub open spec fn is_blank(&self, now: u64) -> bool {
        &&& self.total_queries == 0
        &&& self.average_latency_ms == 0
        &&& self.queries_per_second == 0
        &&& self.error_rate == 0
        &&& self.worker_utilization@ == Map::<Seq<char>, u64>::empty()
        &&& self.timestamp == now
    }

    /// The figures before anything is measured, as of the time `now`.
    pub fn default_at(now: u64) -> (m: Self)
        ensures
            m.is_blank(now),
    {
        PerformanceMetrics {
            total_queries: 0,
            average_latency_ms: 0,
            queries_per_second: 0,
            error_rate: 0,
            worker_utilization: StrMap::new(),
            timestamp: now,
        }
    }
}

impl Default for PerformanceMetrics {
    /// The figures before anything is measured, as of now.
    fn default() -> (m: Self)
        ensures
            m.is_blank(m.timestamp),
    {
        PerformanceMetrics::default_at(current_millis())
    }
}

impl VisualizationData {
    /// What the dashboard shows before anything is known, as of `now`.
    pub fn new_at(now: u64) -> (d: Self)
        ensures
            d.system_status.is_blank(now),
            d.performance_metrics.is_blank(now),
            d.recent_queries@.len() == 0,
    {
        VisualizationData {
            system_status: SystemStatus::default_at(now),
            performance_metrics: PerformanceMetrics::default_at(now),
            recent_queries: Vec::new(),
        }
    }

    /// What the dashboard shows before anything is known.
    pub fn new() -> (d: Self)
        ensures
            d.system_status.is_blank(d.system_status.last_updated),
            d.performance_metrics.is_blank(d.performance_metrics.timestamp),
            d.recent_queries@.len() == 0,
    {
        VisualizationData {
            system_status: SystemStatus::default(),
            performance_metrics: PerformanceMetrics::default(),
            recent_queries: Vec::new(),
        }
    }

    /// Replaces the state of the cluster.
    pub fn update_system_status(&mut self, status: SystemStatus)
        ensures
            final(self).system_status == status,
            final(self).performance_metrics == old(self).performance_metrics,
            final(self).recent_queries == old(self).recent_queries,
    {
        self.system_status = status;
    }

    /// Takes in the result of a query. Of more than ten results the
    /// oldest goes.
    pub fn add_query_result(&mut self, result: QueryResult)
        ensures
            final(self).recent_queries@ == kept(old(self).recent_queries@, result),
            final(self).system_status == old(self).system_status,
            final(self).performance_metrics == old(self).performance_metrics,
    {
        self.recent_queries.push(result);
        if self.recent_queries.len() > RECENT_QUERIES {
            self.recent_queries.remove(0);
            proof {
                assert(self.recent_queries@ =~= old(self).recent_queries@.push(result).drop_first());
            }
        }
    }
}

} // verus!
