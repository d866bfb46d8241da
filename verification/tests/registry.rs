use distsql::coordinator::state::{
    CoordinatorState, HealthStatus, RegistryError, COORDINATOR_CPU_USAGE, COORDINATOR_MEMORY_USAGE,
    HEARTBEAT_TIMEOUT_MS,
};

const T0: u64 = 1_700_000_000_000;

fn registry_with(ids: &[&str], now: u64) -> CoordinatorState {
    let mut state = CoordinatorState::new_at(now);
    for id in ids {
        state.register_worker_at(id.to_string(), "127.0.0.1".to_string(), 50052, now).unwrap();
    }
    state
}

#[test]
fn new_registry_is_empty() {
    let state = CoordinatorState::new_at(T0);
    assert_eq!(state.workers.len(), 0);
    assert_eq!(state.total_queries, 0);
    assert_eq!(state.active_queries, 0);
    assert_eq!(state.start_time, T0);
    assert_eq!(state.snapshot().len(), 0);
}

#[test]
fn registering_makes_a_healthy_idle_record() {
    let mut state = CoordinatorState::new_at(T0);
    assert!(state.register_worker_at("w1".to_string(), "10.0.0.1".to_string(), 7000, T0 + 5).is_ok());
    let w = state.workers.get("w1").unwrap();
    assert_eq!(w.id, "w1");
    assert_eq!(w.address, "10.0.0.1");
    assert_eq!(w.port, 7000);
    assert_eq!(w.status, HealthStatus::Healthy);
    assert_eq!(f64::from_bits(w.cpu_usage), 0.0);
    assert_eq!(f64::from_bits(w.memory_usage), 0.0);
    assert_eq!(w.active_queries, 0);
    assert_eq!(w.last_heartbeat, T0 + 5);
}

#[test]
fn registering_again_resets_the_record() {
    let mut state = registry_with(&["w1", "w2"], T0);
    state.update_worker_status_at("w1", 12.5f64.to_bits(), 64.0f64.to_bits(), 3, T0 + 10).unwrap();
    state.sweep_at(T0 + 100_000);
    assert_eq!(state.workers.get("w1").unwrap().status, HealthStatus::Unhealthy);
    state.register_worker_at("w1".to_string(), "10.0.0.9".to_string(), 9, T0 + 100_001).unwrap();
    assert_eq!(state.workers.len(), 2);
    let w = state.workers.get("w1").unwrap();
    assert_eq!(w.address, "10.0.0.9");
    assert_eq!(w.port, 9);
    assert_eq!(w.status, HealthStatus::Healthy);
    assert_eq!(w.cpu_usage, 0);
    assert_eq!(w.memory_usage, 0);
    assert_eq!(w.active_queries, 0);
    assert_eq!(w.last_heartbeat, T0 + 100_001);
}

#[test]
fn heartbeat_replaces_the_figures() {
    let mut state = registry_with(&["w1", "w2"], T0);
    assert_eq!(state.update_worker_status_at("w2", 12.5f64.to_bits(), 64.0f64.to_bits(), 3, T0 + 10), Ok(()));
    let w = state.workers.get("w2").unwrap();
    assert_eq!(f64::from_bits(w.cpu_usage), 12.5);
    assert_eq!(f64::from_bits(w.memory_usage), 64.0);
    assert_eq!(w.active_queries, 3);
    assert_eq!(w.last_heartbeat, T0 + 10);
    assert_eq!(w.status, HealthStatus::Healthy);
    assert_eq!(w.address, "127.0.0.1");
    assert_eq!(w.port, 50052);
    let other = state.workers.get("w1").unwrap();
    assert_eq!(other.last_heartbeat, T0);
    assert_eq!(other.active_queries, 0);
}

#[test]
fn heartbeat_of_a_stranger_is_a_miss() {
    let mut state = registry_with(&["w1"], T0);
    assert_eq!(state.update_worker_status_at("w9", 1, 2, 3, T0 + 10), Err(RegistryError::NotFound));
    assert_eq!(state.workers.len(), 1);
    assert!(state.workers.get("w9").is_none());
    assert_eq!(state.workers.get("w1").unwrap().last_heartbeat, T0);
}

#[test]
fn sweep_marks_a_worker_silent_for_forty_seconds() {
    let mut state = CoordinatorState::new_at(T0);
    state.register_worker_at("w1".to_string(), "127.0.0.1".to_string(), 50052, T0 - 40_000).unwrap();
    state.sweep_at(T0);
    let snapshot = state.snapshot();
    assert_eq!(snapshot.len(), 1);
    assert_eq!(snapshot.get("w1").unwrap().status, HealthStatus::Unhealthy);
    assert_eq!(snapshot.get("w1").unwrap().status.name(), "unhealthy");
}

#[test]
fn timeout_then_heartbeat_restores_health() {
    let mut state = registry_with(&["w1", "w2"], T0);
    state.update_worker_status_at("w2", 0, 0, 0, T0 + 20_000).unwrap();
    state.sweep_at(T0 + 30_001);
    assert_eq!(state.workers.get("w1").unwrap().status, HealthStatus::Unhealthy);
    assert_eq!(state.workers.get("w2").unwrap().status, HealthStatus::Healthy);
    assert_eq!(state.update_worker_status_at("w1", 0, 0, 1, T0 + 30_002), Ok(()));
    assert_eq!(state.workers.get("w1").unwrap().status, HealthStatus::Healthy);
    assert_eq!(state.workers.get("w1").unwrap().status.name(), "healthy");
    state.sweep_at(T0 + 30_003);
    assert_eq!(state.workers.get("w1").unwrap().status, HealthStatus::Healthy);
}

#[test]
fn the_timeout_is_thirty_seconds_exactly() {
    assert_eq!(HEARTBEAT_TIMEOUT_MS, 30_000);
    let mut state = registry_with(&["w1"], T0);
    state.sweep_at(T0 + 30_000);
    assert_eq!(state.workers.get("w1").unwrap().status, HealthStatus::Healthy);
    state.sweep_at(T0 + 30_001);
    assert_eq!(state.workers.get("w1").unwrap().status, HealthStatus::Unhealthy);
}

#[test]
fn sweep_with_a_clock_that_stepped_back_marks_nothing() {
    let mut state = registry_with(&["w1"], T0);
    state.sweep_at(T0 - 1_000_000);
    assert_eq!(state.workers.get("w1").unwrap().status, HealthStatus::Healthy);
    state.sweep_at(0);
    assert_eq!(state.workers.get("w1").unwrap().status, HealthStatus::Healthy);
}

#[test]
fn sweep_removes_nothing_and_touches_only_the_status() {
    let mut state = registry_with(&["w1", "w2", "w3"], T0);
    state.update_worker_status_at("w2", 5, 6, 7, T0 + 1).unwrap();
    state.sweep_at(T0 + 1_000_000);
    assert_eq!(state.workers.len(), 3);
    let w = state.workers.get("w2").unwrap();
    assert_eq!(w.status, HealthStatus::Unhealthy);
    assert_eq!((w.cpu_usage, w.memory_usage, w.active_queries, w.last_heartbeat), (5, 6, 7, T0 + 1));
    assert_eq!(w.address, "127.0.0.1");
    // An unhealthy worker stays unhealthy without a heartbeat.
    state.sweep_at(T0 + 2_000_000);
    assert_eq!(state.workers.get("w2").unwrap().status, HealthStatus::Unhealthy);
}

#[test]
fn snapshot_is_a_copy() {
    let mut state = registry_with(&["w1", "w2"], T0);
    let before = state.snapshot();
    state.update_worker_status_at("w1", 1, 2, 3, T0 + 50).unwrap();
    state.register_worker_at("w3".to_string(), "a".to_string(), 1, T0 + 60).unwrap();
    assert_eq!(before.len(), 2);
    assert_eq!(before.get("w1").unwrap().last_heartbeat, T0);
    assert_eq!(before.get("w1").unwrap().active_queries, 0);
    assert!(before.get("w3").is_none());
    let after = state.snapshot();
    assert_eq!(after.len(), 3);
    assert_eq!(after.get("w1").unwrap().last_heartbeat, T0 + 50);
}

#[test]
fn status_of_an_empty_registry_holds_the_coordinator_alone() {
    let state = CoordinatorState::new_at(T0);
    let status = state.get_system_status_at(T0 + 5_000).unwrap();
    assert_eq!(status.components.len(), 1);
    let c = status.components.get("coordinator").unwrap();
    assert_eq!(c.id, "coordinator");
    assert_eq!(c.status, HealthStatus::Healthy);
    assert_eq!(c.cpu_usage, COORDINATOR_CPU_USAGE);
    assert_eq!(c.memory_usage, COORDINATOR_MEMORY_USAGE);
    assert_eq!(f64::from_bits(c.cpu_usage), 45.0);
    assert_eq!(f64::from_bits(c.memory_usage), 128.0);
    assert_eq!(c.active_connections, 0);
    assert_eq!(c.last_heartbeat, T0 + 5_000);
    assert_eq!(status.total_queries, 0);
    assert_eq!(status.active_queries, 0);
    assert_eq!(status.system_uptime, 5_000);
    assert_eq!(status.last_updated, T0 + 5_000);
}

#[test]
fn status_lists_every_worker() {
    let mut state = registry_with(&["w1", "w2"], T0);
    state.update_worker_status_at("w1", 25.0f64.to_bits(), 64.0f64.to_bits(), 4, T0 + 7).unwrap();
    state.sweep_at(T0 + 30_005);
    state.total_queries = 42;
    state.active_queries = 2;
    let status = state.get_system_status_at(T0 + 30_010).unwrap();
    assert_eq!(status.components.len(), 3);
    assert_eq!(status.components.get("coordinator").unwrap().active_connections, 2);
    let w1 = status.components.get("w1").unwrap();
    assert_eq!(w1.id, "w1");
    assert_eq!(w1.status, HealthStatus::Healthy);
    assert_eq!(f64::from_bits(w1.cpu_usage), 25.0);
    assert_eq!(f64::from_bits(w1.memory_usage), 64.0);
    assert_eq!(w1.active_connections, 4);
    assert_eq!(w1.last_heartbeat, T0 + 7);
    let w2 = status.components.get("w2").unwrap();
    assert_eq!(w2.status, HealthStatus::Unhealthy);
    assert_eq!(w2.last_heartbeat, T0);
    assert_eq!(status.total_queries, 42);
    assert_eq!(status.active_queries, 2);
    assert_eq!(status.system_uptime, 30_010);
}

#[test]
fn a_worker_named_coordinator_takes_the_coordinators_place() {
    let mut state = registry_with(&["coordinator"], T0);
    state.update_worker_status_at("coordinator", 1, 2, 9, T0 + 1).unwrap();
    let status = state.get_system_status_at(T0 + 2).unwrap();
    assert_eq!(status.components.len(), 1);
    let c = status.components.get("coordinator").unwrap();
    assert_eq!(c.active_connections, 9);
    assert_eq!(c.cpu_usage, 1);
    assert_eq!(c.last_heartbeat, T0 + 1);
}

#[test]
fn uptime_is_zero_where_the_clock_stepped_back() {
    let state = CoordinatorState::new_at(T0);
    assert_eq!(state.get_system_status_at(T0 - 1).unwrap().system_uptime, 0);
}

#[test]
fn the_clock_driven_functions_work_on_the_present() {
    let mut state = CoordinatorState::new();
    assert!(state.start_time > 1_600_000_000_000);
    state.register_worker("w1".to_string(), "127.0.0.1".to_string(), 1).unwrap();
    assert!(state.workers.get("w1").unwrap().last_heartbeat >= state.start_time);
    assert_eq!(state.update_worker_status("w1", 1, 2, 3), Ok(()));
    assert_eq!(state.update_worker_status("nobody", 1, 2, 3), Err(RegistryError::NotFound));
    state.sweep();
    assert_eq!(state.workers.get("w1").unwrap().status, HealthStatus::Healthy);
    let status = state.get_system_status().unwrap();
    assert_eq!(status.components.len(), 2);
    assert!(status.last_updated >= state.start_time);
}

#[test]
fn staleness_of_one_record() {
    let state = registry_with(&["w1"], T0);
    let w = state.workers.get("w1").unwrap();
    assert!(!w.is_stale_at(T0));
    assert!(!w.is_stale_at(T0 + 30_000));
    assert!(w.is_stale_at(T0 + 30_001));
    assert!(!w.is_stale_at(T0 - 1));
    let copy = w.clone();
    assert_eq!(copy.id, "w1");
    assert_eq!(copy.last_heartbeat, T0);
}
