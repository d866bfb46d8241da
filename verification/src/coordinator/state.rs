//! The coordinator's table of workers: who has registered, who still sends
//! heartbeats, and what the cluster looks like at one moment.

use crate::clock::{current_millis, millis_of};
use crate::coordinator::query_planner::QueryPlanner;
use crate::coordinator::shard_manager::ShardManager;
use crate::str_map::StrMap;
use vstd::prelude::*;
use vstd::string::StringExecFns;

verus! {

/// Whether a component still counts as alive.
#[derive(Debug, Clone, Copy, PartialEq, Eq, Structural)]
pub enum HealthStatus {
    /// Heard of in time.
    Healthy,
    /// Silent for too long.
    Unhealthy,
}

impl HealthStatus {
    /// The status as a word.
    pub open spec fn word(&self) -> Seq<char> {
        match *self {
            HealthStatus::Healthy => "healthy"@,
            HealthStatus::Unhealthy => "unhealthy"@,
        }
    }

    /// The status as a word: `healthy` or `unhealthy`.
    pub fn name(&self) -> (s: String)
        ensures
            s@ == self.word(),
    {
        match self {
            HealthStatus::Healthy => String::from_str("healthy"),
            HealthStatus::Unhealthy => String::from_str("unhealthy"),
        }
    }
}

/// A silence of more than this many milliseconds makes a worker unhealthy.
pub const HEARTBEAT_TIMEOUT_MS: u64 = 30000;

/// The load that the coordinator reports of itself: the bits of the 64-bit float 45.
pub const COORDINATOR_CPU_USAGE: u64 = 0x4046_8000_0000_0000;

/// The memory that the coordinator reports of itself: the bits of the 64-bit float 128.
pub const COORDINATOR_MEMORY_USAGE: u64 = 0x4060_0000_0000_0000;

/// What the coordinator knows of one worker. The two usage figures are
/// carried as the bits of 64-bit floats; times are in milliseconds since
/// the start of 1970.
#[derive(Debug, PartialEq, Eq)]
pub struct WorkerInfo {
    pub id: String,
    pub address: String,
    pub port: u16,
    pub status: HealthStatus,
    pub cpu_usage: u64,
    pub memory_usage: u64,
    pub active_queries: u32,
    pub last_heartbeat: u64,
}

impl Clone for WorkerInfo {
    fn clone(&self) -> (w: Self)
        ensures
            w == *self,
    {
        WorkerInfo {
            id: self.id.clone(),
            address: self.address.clone(),
            port: self.port,
            status: self.status,
            cpu_usage: self.cpu_usage,
            memory_usage: self.memory_usage,
            active_queries: self.active_queries,
            last_heartbeat: self.last_heartbeat,
        }
    }
}

/// Whether a heartbeat of the time `last` is too old at the time `now`.
pub open spec fn is_stale(now: u64, last: u64) -> bool {
    now - last > HEARTBEAT_TIMEOUT_MS
}

impl WorkerInfo {
    /// The record of a worker that registers at the time `now`: healthy,
    /// idle, heard of just now.
    pub open spec fn registered(id: String, address: String, port: u16, now: u64) -> WorkerInfo {
        WorkerInfo {
            id,
            address,
            port,
            status: HealthStatus::Healthy,
            cpu_usage: 0,
            memory_usage: 0,
            active_queries: 0,
            last_heartbeat: now,
        }
    }

    /// The record after a heartbeat at the time `now`: the figures of the
    /// heartbeat, and healthy.
    pub open spec fn refreshed(self, cpu_usage: u64, memory_usage: u64, active_queries: u32, now: u64) -> WorkerInfo {
        WorkerInfo {
            status: HealthStatus::Healthy,
            cpu_usage,
            memory_usage,
            active_queries,
            last_heartbeat: now,
            ..self
        }
    }

    /// The record after a sweep at the time `now`: unhealthy where the last
    /// heartbeat is too old, unchanged otherwise.
    pub open spec fn swept(self, now: u64) -> WorkerInfo {
        if is_stale(now, self.last_heartbeat) {
            WorkerInfo { status: HealthStatus::Unhealthy, ..self }
        } else {
            self
        }
    }

    /// Whether the worker has been silent for too long at the time `now`.
    pub fn is_stale_at(&self, now: u64) -> (r: bool)
        ensures
            r == is_stale(now, self.last_heartbeat),
    {
        now > self.last_heartbeat && now - self.last_heartbeat > HEARTBEAT_TIMEOUT_MS
    }
}

/// Why the registry did not take a heartbeat.
#[derive(Debug, Clone, Copy, PartialEq, Eq, Structural)]
pub enum RegistryError {
    /// No worker of that name has registered.
    NotFound,
}

/// The coordinator's state: the workers by name, the query counters that
/// the execution side keeps, and the time of the start.
#[derive(Debug)]
pub struct CoordinatorState {
    pub workers: StrMap<WorkerInfo>,
    pub query_planner: QueryPlanner,
    pub shard_manager: ShardManager,
    pub total_queries: u64,
    pub active_queries: u32,
    pub start_time: u64,
}

/// What the status report says of one component.
#[derive(Debug, PartialEq, Eq)]
pub struct ComponentStatus {
    pub id: String,
    pub status: HealthStatus,
    pub cpu_usage: u64,
    pub memory_usage: u64,
    pub active_connections: u32,
    pub last_heartbeat: u64,
}

/// The cluster at one moment.
#[derive(Debug)]
pub struct SystemStatus {
    /// The coordinator and every worker, by name.
    pub components: StrMap<ComponentStatus>,
    pub total_queries: u64,
    pub active_queries: u32,
    /// The milliseconds since the coordinator started.
    pub system_uptime: u64,
    /// The time of the report.
    pub last_updated: u64,
}

/// What the report says of the worker `w`.
pub open spec fn component_of(w: WorkerInfo) -> ComponentStatus {
    ComponentStatus {
        id: w.id,
        status: w.status,
        cpu_usage: w.cpu_usage,
        memory_usage: w.memory_usage,
        active_connections: w.active_queries,
        last_heartbeat: w.last_heartbeat,
    }
}

/// The largest count that a report can hold.
pub open spec fn capped(n: nat) -> u32 {
    if n > u32::MAX {
        u32::MAX
    } else {
        n as u32
    }
}

/// Whether `c` is what the coordinator reports of itself at the time `now`
/// with `workers` workers: healthy, with its fixed usage figures, one
/// connection per worker, heard of just now.
pub open spec fn is_coordinator_entry(c: ComponentStatus, workers: nat, now: u64) -> bool {
    &&& c.id@ == "coordinator"@
    &&& c.status == HealthStatus::Healthy
    &&& c.cpu_usage == COORDINATOR_CPU_USAGE
    &&& c.memory_usage == COORDINATOR_MEMORY_USAGE
    &&& c.active_connections == capped(workers)
    &&& c.last_heartbeat == now
}

/// Whether `components` is the report on `workers` at the time `now`: one
/// entry for each worker under its name, and one for the coordinator under
/// `coordinator`, unless a worker has that name.
pub open spec fn is_report_of(
    components: Map<Seq<char>, ComponentStatus>,
    workers: Map<Seq<char>, WorkerInfo>,
    now: u64,
) -> bool {
    &&& forall|k: Seq<char>| components.contains_key(k) <==> (k == "coordinator"@ || workers.contains_key(k))
    &&& forall|k: Seq<char>| workers.contains_key(k) ==> #[trigger] components[k] == component_of(workers[k])
    &&& !workers.contains_key("coordinator"@) ==> is_coordinator_entry(
        components["coordinator"@],
        workers.len(),
        now,
    )
}

/// The time from `start` to `now`; 0 where the clock has stepped back.
pub open spec fn uptime(start: u64, now: u64) -> u64 {
    if now >= start {
        (now - start) as u64
    } else {
        0
    }
}

/// Every record of `workers` after a sweep at the time `now`.
pub open spec fn swept_all(workers: Map<Seq<char>, WorkerInfo>, now: u64) -> Map<Seq<char>, WorkerInfo> {
    workers.map_values(|w: WorkerInfo| w.swept(now))
}

impl CoordinatorState {
    /// Whether `self` and `other` agree in everything but the workers.
    pub open spec fn same_surroundings(&self, other: &CoordinatorState) -> bool {
        &&& self.query_planner == other.query_planner
        &&& self.shard_manager == other.shard_manager
        &&& self.total_queries == other.total_queries
        &&& self.active_queries == other.active_queries
        &&& self.start_time == other.start_time
    }

    /// Whether `self` and `other` agree in everything but the query counters.
    pub open spec fn same_cluster(&self, other: &CoordinatorState) -> bool {
        &&& self.workers == other.workers
        &&& self.query_planner == other.query_planner
        &&& self.shard_manager == other.shard_manager
        &&& self.start_time == other.start_time
    }

    /// A coordinator without workers that starts at the time `now`.
    pub fn new_at(now: u64) -> (s: Self)
        ensures
            s.workers@ == Map::<Seq<char>, WorkerInfo>::empty(),
            s.shard_manager.holds_samples(),
            s.total_queries == 0,
            s.active_queries == 0,
            s.start_time == now,
    {
        CoordinatorState {
            workers: StrMap::new(),
            query_planner: QueryPlanner::new(),
            shard_manager: ShardManager::new(),
            total_queries: 0,
            active_queries: 0,
            start_time: now,
        }
    }

    /// A coordinator without workers that starts now.
    pub fn new() -> (s: Self)
        ensures
            s.workers@ == Map::<Seq<char>, WorkerInfo>::empty(),
            s.shard_manager.holds_samples(),
            s.total_queries == 0,
            s.active_queries == 0,
            exists|reading: i64| s.start_time == #[trigger] millis_of(reading),
    {
        Self::new_at(current_millis())
    }

    /// Registers a worker at the time `now`. A worker of that name that is
    /// already known starts afresh.
    pub fn register_worker_at(&mut self, worker_id: String, address: String, port: u16, now: u64) -> (r: Result<
        (),
        String,
    >)
        ensures
            r is Ok,
            final(self).workers@ == old(self).workers@.insert(
                worker_id@,
                WorkerInfo::registered(worker_id, address, port, now),
            ),
            final(self).same_surroundings(old(self)),
    {
        let info = WorkerInfo {
            id: worker_id.clone(),
            address,
            port,
            status: HealthStatus::Healthy,
            cpu_usage: 0,
            memory_usage: 0,
            active_queries: 0,
            last_heartbeat: now,
        };
        self.workers.insert(worker_id, info);
        Ok(())
    }

    /// Registers a worker now.
    pub fn register_worker(&mut self, worker_id: String, address: String, port: u16) -> (r: Result<(), String>)
        ensures
            r is Ok,
            exists|now: u64|
                final(self).workers@ == old(self).workers@.insert(
                    worker_id@,
                    #[trigger] WorkerInfo::registered(worker_id, address, port, now),
                ),
            final(self).same_surroundings(old(self)),
    {
        let now = current_millis();
        self.register_worker_at(worker_id, address, port, now)
    }

    /// Takes a heartbeat of the time `now`: the worker's figures are
    /// replaced and it is healthy again. A heartbeat of an unknown worker
    /// changes nothing.
    pub fn update_worker_status_at(
        &mut self,
        worker_id: &str,
        cpu_usage: u64,
        memory_usage: u64,
        active_queries: u32,
        now: u64,
    ) -> (r: Result<(), RegistryError>)
        ensures
            old(self).workers@.contains_key(worker_id@) ==> r is Ok && final(self).workers@ == old(
                self,
            ).workers@.insert(
                worker_id@,
                old(self).workers@[worker_id@].refreshed(cpu_usage, memory_usage, active_queries, now),
            ),
            !old(self).workers@.contains_key(worker_id@) ==> r == Err::<(), RegistryError>(
                RegistryError::NotFound,
            ) && final(self).workers@ == old(self).workers@,
            final(self).workers.key_seq() == old(self).workers.key_seq(),
            final(self).same_surroundings(old(self)),
    {
        match self.workers.position(worker_id) {
            Some(i) => {
                let known = self.workers.value_at(i);
                let info = WorkerInfo {
                    id: known.id.clone(),
                    address: known.address.clone(),
                    port: known.port,
                    status: HealthStatus::Healthy,
                    cpu_usage,
                    memory_usage,
                    active_queries,
                    last_heartbeat: now,
                };
                self.workers.replace_at(i, info);
                Ok(())
            },
            None => Err(RegistryError::NotFound),
        }
    }

    /// Takes a heartbeat now.
    pub fn update_worker_status(&mut self, worker_id: &str, cpu_usage: u64, memory_usage: u64, active_queries: u32) -> (r:
        Result<(), RegistryError>)
        ensures
            old(self).workers@.contains_key(worker_id@) ==> r is Ok && exists|now: u64|
                final(self).workers@ == old(self).workers@.insert(
                    worker_id@,
                    #[trigger] old(self).workers@[worker_id@].refreshed(
                        cpu_usage,
                        memory_usage,
                        active_queries,
                        now,
                    ),
                ),
            !old(self).workers@.contains_key(worker_id@) ==> r == Err::<(), RegistryError>(
                RegistryError::NotFound,
            ) && final(self).workers@ == old(self).workers@,
            final(self).workers.key_seq() == old(self).workers.key_seq(),
            final(self).same_surroundings(old(self)),
    {
        let now = current_millis();
        self.update_worker_status_at(worker_id, cpu_usage, memory_usage, active_queries, now)
    }

    /// Marks every worker whose last heartbeat is more than the timeout
    /// before `now` as unhealthy. No record is removed, and no other field
    /// changes.
    pub fn sweep_at(&mut self, now: u64)
        ensures
            final(self).workers@ == swept_all(old(self).workers@, now),
            final(self).workers.key_seq() == old(self).workers.key_seq(),
            final(self).same_surroundings(old(self)),
    {
        let n = self.workers.len();
        let ghost before = self.workers@;
        let ghost keys = self.workers.key_seq();
        let mut i: usize = 0;
        while i < n
            invariant
                0 <= i <= n,
                n == keys.len(),
                keys == old(self).workers.key_seq(),
                before == old(self).workers@,
                keys.no_duplicates(),
                self.workers.key_seq() == keys,
                self.same_surroundings(old(self)),
                forall|j: int| 0 <= j < i ==> self.workers@[#[trigger] keys[j]] == before[keys[j]].swept(now),
                forall|j: int| i <= j < n ==> self.workers@[#[trigger] keys[j]] == before[keys[j]],
                forall|k: Seq<char>| self.workers@.contains_key(k) <==> keys.contains(k),
                forall|k: Seq<char>| before.contains_key(k) <==> keys.contains(k),
            decreases n - i,
        {
            let known = self.workers.value_at(i);
            if known.is_stale_at(now) {
                let mut info = known.clone();
                info.status = HealthStatus::Unhealthy;
                let ghost current = self.workers@;
                self.workers.replace_at(i, info);
                proof {
                    assert forall|j: int| 0 <= j < n && j != i implies self.workers@[#[trigger] keys[j]]
                        == current[keys[j]] by {
                        assert(keys[j] != keys[i as int]);
                    }
                }
            }
            i += 1;
        }
        proof {
            let after = self.workers@;
            let goal = swept_all(before, now);
            assert forall|k: Seq<char>| after.contains_key(k) implies #[trigger] after[k] == goal[k] by {
                let j = choose|j: int| 0 <= j < keys.len() && keys[j] == k;
                assert(after[keys[j]] == before[keys[j]].swept(now));
            }
            assert(after =~= goal);
        }
    }

    /// Marks the workers that have been silent for too long, as of now.
    pub fn sweep(&mut self)
        ensures
            exists|now: u64| final(self).workers@ == #[trigger] swept_all(old(self).workers@, now),
            final(self).workers.key_seq() == old(self).workers.key_seq(),
            final(self).same_surroundings(old(self)),
    {
        let now = current_millis();
        self.sweep_at(now);
    }

    /// A copy of the table of workers as it stands.
    pub fn snapshot(&self) -> (copy: StrMap<WorkerInfo>)
        ensures
            copy@ == self.workers@,
            copy.key_seq() == self.workers.key_seq(),
    {
        let copy = self.workers.clone();
        proof {
            assert forall|i: int| 0 <= i < self.workers.value_seq().len() implies self.workers.value_seq()[i]
                == copy.value_seq()[i] by {
                assert(vstd::pervasive::cloned::<WorkerInfo>(self.workers.value_seq()[i], copy.value_seq()[i]));
            }
            assert(self.workers.value_seq() =~= copy.value_seq());
        }
        copy
    }

    /// The report on the cluster at the time `now`: the coordinator's own
    /// entry, one entry per worker, the query counters as they stand, and
    /// the time since the start.
    pub fn get_system_status_at(&self, now: u64) -> (r: Result<SystemStatus, String>)
        ensures
            r matches Ok(status) && {
                &&& is_report_of(status.components@, self.workers@, now)
                &&& status.total_queries == self.total_queries
                &&& status.active_queries == self.active_queries
                &&& status.system_uptime == uptime(self.start_time, now)
                &&& status.last_updated == now
            },
    {
        let n = self.workers.len();
        let ghost workers = self.workers@;
        let ghost keys = self.workers.key_seq();
        let connections: u32 = if n > u32::MAX as usize {
            u32::MAX
        } else {
            n as u32
        };
        let mut components: StrMap<ComponentStatus> = StrMap::new();
        components.insert(
            String::from_str("coordinator"),
            ComponentStatus {
                id: String::from_str("coordinator"),
                status: HealthStatus::Healthy,
                cpu_usage: COORDINATOR_CPU_USAGE,
                memory_usage: COORDINATOR_MEMORY_USAGE,
                active_connections: connections,
                last_heartbeat: now,
            },
        );
        let mut i: usize = 0;
        while i < n
            invariant
                0 <= i <= n,
                n == keys.len(),
                n == workers.len(),
                keys == self.workers.key_seq(),
                workers == self.workers@,
                keys.no_duplicates(),
                forall|k: Seq<char>|
                    components@.contains_key(k) <==> (k == "coordinator"@ || exists|j: int|
                        0 <= j < i && keys[j] == k),
                forall|j: int| 0 <= j < i ==> components@[#[trigger] keys[j]] == component_of(workers[keys[j]]),
                (forall|j: int| 0 <= j < i ==> #[trigger] keys[j] != "coordinator"@) ==> is_coordinator_entry(
                    components@["coordinator"@],
                    n as nat,
                    now,
                ),
            decreases n - i,
        {
            let key = self.workers.key_at(i);
            let known = self.workers.value_at(i);
            let ghost earlier = components@;
            components.insert(
                key.clone(),
                ComponentStatus {
                    id: known.id.clone(),
                    status: known.status,
                    cpu_usage: known.cpu_usage,
                    memory_usage: known.memory_usage,
                    active_connections: known.active_queries,
                    last_heartbeat: known.last_heartbeat,
                },
            );
            proof {
                assert(components@ == earlier.insert(keys[i as int], component_of(workers[keys[i as int]])));
                assert forall|j: int| 0 <= j < i + 1 implies components@[#[trigger] keys[j]] == component_of(
                    workers[keys[j]],
                ) by {
                    if j < i {
                        assert(keys[j] != keys[i as int]);
                    }
                }
                assert forall|k: Seq<char>|
                    components@.contains_key(k) <==> (k == "coordinator"@ || exists|j: int|
                        0 <= j < i + 1 && keys[j] == k) by {
                    if components@.contains_key(k) && k != "coordinator"@ {
                        if k == keys[i as int] {
                        } else {
                            assert(earlier.contains_key(k));
                            let j = choose|j: int| 0 <= j < i && keys[j] == k;
                            assert(0 <= j < i + 1 && keys[j] == k);
                        }
                    }
                    if exists|j: int| 0 <= j < i + 1 && keys[j] == k {
                        let j = choose|j: int| 0 <= j < i + 1 && keys[j] == k;
                        if j < i {
                            assert(earlier.contains_key(k));
                        }
                    }
                }
            }
            i += 1;
        }
        proof {
            assert forall|k: Seq<char>|
                components@.contains_key(k) <==> (k == "coordinator"@ || workers.contains_key(k)) by {
                if workers.contains_key(k) {
                    assert(keys.contains(k));
                    let j = choose|j: int| 0 <= j < keys.len() && keys[j] == k;
                    assert(0 <= j < i && keys[j] == k);
                }
            }
            assert forall|k: Seq<char>| workers.contains_key(k) implies #[trigger] components@[k] == component_of(
                workers[k],
            ) by {
                assert(keys.contains(k));
                let j = choose|j: int| 0 <= j < keys.len() && keys[j] == k;
                assert(components@[keys[j]] == component_of(workers[keys[j]]));
            }
            if !workers.contains_key("coordinator"@) {
                assert forall|j: int| 0 <= j < i implies #[trigger] keys[j] != "coordinator"@ by {
                    assert(keys.contains(keys[j]));
                }
            }
        }
        let system_uptime: u64 = if now >= self.start_time {
            now - self.start_time
        } else {
            0
        };
        Ok(
            SystemStatus {
                components,
                total_queries: self.total_queries,
                active_queries: self.active_queries,
                system_uptime,
                last_updated: now,
            },
        )
    }

    /// The report on the cluster as of now.
    pub fn get_system_status(&self) -> (r: Result<SystemStatus, String>)
        ensures
            r matches Ok(status) && {
                &&& is_report_of(status.components@, self.workers@, status.last_updated)
                &&& status.total_queries == self.total_queries
                &&& status.active_queries == self.active_queries
                &&& status.system_uptime == uptime(self.start_time, status.last_updated)
            },
    {
        self.get_system_status_at(current_millis())
    }
}

/// A worker whose last heartbeat lies more than the timeout before a sweep
/// is unhealthy after that sweep, and healthy again after its next
/// heartbeat, whenever that comes and whatever it reports.
pub proof fn lemma_timeout_then_recovery(
    workers: Map<Seq<char>, WorkerInfo>,
    id: Seq<char>,
    sweep_time: u64,
    cpu_usage: u64,
    memory_usage: u64,
    active_queries: u32,
    heartbeat_time: u64,
)
    requires
        workers.contains_key(id),
        sweep_time - workers[id].last_heartbeat > HEARTBEAT_TIMEOUT_MS,
    ensures
        swept_all(workers, sweep_time).contains_key(id),
        swept_all(workers, sweep_time)[id].status == HealthStatus::Unhealthy,
        swept_all(workers, sweep_time).insert(
            id,
            swept_all(workers, sweep_time)[id].refreshed(cpu_usage, memory_usage, active_queries, heartbeat_time),
        )[id].status == HealthStatus::Healthy,
{
}

/// Registering resets: whatever was known of a worker before, afterwards
/// its record is that of a worker that has just registered, and every
/// other record is as it was. Registering twice with the same values is
/// the same as registering once.
pub proof fn lemma_register_resets(
    workers: Map<Seq<char>, WorkerInfo>,
    worker_id: String,
    address: String,
    port: u16,
    now: u64,
)
    ensures
        workers.insert(worker_id@, WorkerInfo::registered(worker_id, address, port, now))[worker_id@]
            == WorkerInfo::registered(worker_id, address, port, now),
        WorkerInfo::registered(worker_id, address, port, now).status == HealthStatus::Healthy,
        forall|other: Seq<char>|
            other != worker_id@ && workers.contains_key(other) ==> #[trigger] workers.insert(
                worker_id@,
                WorkerInfo::registered(worker_id, address, port, now),
            )[other] == workers[other],
        workers.insert(worker_id@, WorkerInfo::registered(worker_id, address, port, now)).insert(
            worker_id@,
            WorkerInfo::registered(worker_id, address, port, now),
        ) == workers.insert(worker_id@, WorkerInfo::registered(worker_id, address, port, now)),
{
    let once = workers.insert(worker_id@, WorkerInfo::registered(worker_id, address, port, now));
    assert(once.insert(worker_id@, WorkerInfo::registered(worker_id, address, port, now)) =~= once);
}

/// A sweep removes no worker and adds none, touches nothing but the status,
/// and leaves alone every worker heard of within the timeout.
pub proof fn lemma_sweep_only_marks(workers: Map<Seq<char>, WorkerInfo>, now: u64)
    ensures
        swept_all(workers, now).dom() == workers.dom(),
        forall|id: Seq<char>| #[trigger]
            workers.contains_key(id) ==> swept_all(workers, now)[id] == (WorkerInfo {
                status: swept_all(workers, now)[id].status,
                ..workers[id]
            }),
        forall|id: Seq<char>| #[trigger]
            workers.contains_key(id) && !is_stale(now, workers[id].last_heartbeat) ==> swept_all(workers, now)[id]
                == workers[id],
{
    assert(swept_all(workers, now).dom() =~= workers.dom());
}

} // verus!
