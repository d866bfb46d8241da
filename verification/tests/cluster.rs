use distsql::coordinator::coordinator_service::{results_for, CoordinatorServiceImpl};
use distsql::coordinator::query_planner::QueryPlanner;
use distsql::coordinator::shard_manager::{holds_text, workers_of, ShardInfo, ShardManager};
use distsql::coordinator::state::{CoordinatorState, HealthStatus};
use distsql::ident::{random_tag, short_tag};
use distsql::models::shard_distribution::ShardDistribution;
use distsql::str_map::StrMap;
use distsql::utils::logger::Logger;
use distsql::utils::tracer::Tracer;
use distsql::visualizer::visualizer::{
    ComponentStatus, PerformanceMetrics, QueryResult, SystemStatus, VisualizationData,
};
use distsql::worker::data_store::{DataStore, Table};
use distsql::worker::query_executor::QueryExecutor;
use distsql::worker::state::WorkerState;
use distsql::worker::worker_service::WorkerServiceImpl;

fn s(text: &str) -> String {
    text.to_string()
}

fn texts(list: &[&str]) -> Vec<String> {
    list.iter().map(|t| t.to_string()).collect()
}

fn rows(list: &[&[&str]]) -> Vec<Vec<String>> {
    list.iter().map(|r| texts(r)).collect()
}

#[test]
fn the_sample_store() {
    let store = DataStore::new();
    assert_eq!(store.get_table_count(), 3);
    assert_eq!(store.get_total_rows(), 9);
    assert_eq!(store.get_table_names(), texts(&["users", "orders", "products"]));
    let users = store.get_table("users").unwrap();
    assert_eq!(users.name, "users");
    assert_eq!(users.columns, texts(&["id", "name", "age", "email"]));
    assert_eq!(
        users.rows,
        rows(&[
            &["1", "John Doe", "30", "john@example.com"],
            &["2", "Jane Smith", "25", "jane@example.com"],
            &["3", "Bob Johnson", "35", "bob@example.com"],
        ])
    );
    let orders = store.get_table("orders").unwrap();
    assert_eq!(orders.columns, texts(&["id", "user_id", "product", "amount", "date"]));
    assert_eq!(orders.rows[2], texts(&["3", "1", "Keyboard", "79.99", "2024-01-17"]));
    let products = store.get_table("products").unwrap();
    assert_eq!(products.columns, texts(&["id", "name", "price", "category"]));
    assert_eq!(products.rows[0], texts(&["1", "Laptop", "999.99", "Electronics"]));
    assert!(store.get_table("nothing").is_none());
    let all = store.get_all_tables();
    assert_eq!(all.len(), 3);
    assert_eq!(all[1].name, "orders");
}

#[test]
fn tables_are_stored_by_name() {
    let mut store = DataStore::new();
    store.add_table(Table { name: s("logs"), columns: texts(&["line"]), rows: rows(&[&["a"], &["b"]]) });
    assert_eq!(store.get_table_count(), 4);
    assert_eq!(store.get_total_rows(), 11);
    store.add_table(Table { name: s("users"), columns: texts(&["id"]), rows: Vec::new() });
    assert_eq!(store.get_table_count(), 4);
    assert_eq!(store.get_total_rows(), 8);
    assert_eq!(store.get_table("users").unwrap().columns, texts(&["id"]));
    assert_eq!(store.get_table_names(), texts(&["users", "orders", "products", "logs"]));
}

#[test]
fn the_sample_shards() {
    let m = ShardManager::new();
    let users = m.get_shards_for_table("users");
    assert_eq!(users.len(), 2);
    assert_eq!(users[0].shard_id, "users_shard_1");
    assert_eq!(users[0].worker_id, "worker1");
    assert_eq!(users[0].table_name, "users");
    assert_eq!(users[0].key_range, Some((s("A"), s("M"))));
    assert_eq!(users[0].row_count, 1000);
    assert_eq!(users[1].key_range, Some((s("N"), s("Z"))));
    assert_eq!(users[1].row_count, 1200);
    let orders = m.get_shards_for_table("orders");
    assert_eq!(orders.len(), 3);
    assert_eq!(orders[2].shard_id, "orders_shard_3");
    assert_eq!(orders[2].worker_id, "worker3");
    assert_eq!(orders[2].key_range, Some((s("10001"), s("15000"))));
    assert!(m.get_shards_for_table("products").is_empty());
    assert_eq!(m.get_total_rows(), 17200);
}

#[test]
fn shards_by_worker() {
    let m = ShardManager::new();
    let ids = |w: &str| m.get_worker_shards(w).iter().map(|x| x.shard_id.clone()).collect::<Vec<_>>();
    assert_eq!(ids("worker1"), texts(&["users_shard_1", "orders_shard_1"]));
    assert_eq!(ids("worker2"), texts(&["users_shard_2", "orders_shard_2"]));
    assert_eq!(ids("worker3"), texts(&["orders_shard_3"]));
    assert!(ids("worker4").is_empty());
}

#[test]
fn shards_are_added_behind_the_others() {
    let mut m = ShardManager::new();
    m.add_shard(s("users"), ShardInfo::with_range("users_shard_3", "worker1", "users", "a", "z", 5));
    m.add_shard(s("logs"), ShardInfo { shard_id: s("l1"), worker_id: s("worker9"), table_name: s("logs"), key_range: None, row_count: 1 });
    assert_eq!(m.get_shards_for_table("users").len(), 3);
    assert_eq!(m.get_shards_for_table("users")[2].shard_id, "users_shard_3");
    assert_eq!(m.get_shards_for_table("logs").len(), 1);
    assert_eq!(m.get_shards_for_table("orders").len(), 3);
    assert_eq!(m.get_total_rows(), 17206);
    let d = m.get_shard_distribution();
    assert_eq!(d.len(), 3);
    assert_eq!(d.get("users"), Some(&texts(&["worker1", "worker2"])));
    assert_eq!(d.get("orders"), Some(&texts(&["worker1", "worker2", "worker3"])));
    assert_eq!(d.get("logs"), Some(&texts(&["worker9"])));
}

#[test]
fn workers_are_listed_once() {
    let list = vec![
        ShardInfo::with_range("a", "w2", "t", "", "", 0),
        ShardInfo::with_range("b", "w1", "t", "", "", 0),
        ShardInfo::with_range("c", "w2", "t", "", "", 0),
    ];
    assert_eq!(workers_of(&list), texts(&["w2", "w1"]));
    assert!(workers_of(&Vec::new()).is_empty());
    assert!(holds_text(&texts(&["a", "b"]), "b"));
    assert!(!holds_text(&texts(&["a", "b"]), "c"));
    let copy = list[0].clone();
    assert_eq!(copy.shard_id, "a");
}

#[test]
fn a_plan_without_join_has_three_steps() {
    let plan = QueryPlanner::new().plan_lowered("SELECT 1", "select 1", s("q1"));
    assert_eq!(plan.query_id, "q1");
    assert_eq!(plan.sql_query, "SELECT 1");
    assert_eq!(plan.estimated_cost, 43);
    let got: Vec<(&str, &str, &str, u64, Vec<String>)> = plan
        .steps
        .iter()
        .map(|x| (x.step_id.as_str(), x.step_type.as_str(), x.description.as_str(), x.estimated_time_ms, x.dependencies.clone()))
        .collect();
    assert_eq!(
        got,
        vec![
            ("parse", "parser", "Parse SQL query", 5, texts(&[])),
            ("optimize", "optimizer", "Optimize query plan", 8, texts(&["parse"])),
            ("execute", "executor", "Execute query on workers", 30, texts(&["optimize"])),
        ]
    );
}

#[test]
fn a_plan_with_join_has_five_steps() {
    let plan = QueryPlanner::new().plan_query("SELECT * FROM a JOIN b ON a.x = b.y");
    assert_eq!(plan.query_id.len(), 36);
    assert_eq!(plan.sql_query, "SELECT * FROM a JOIN b ON a.x = b.y");
    assert_eq!(plan.estimated_cost, 100);
    let got: Vec<(&str, &str, &str, u64, Vec<String>)> = plan
        .steps
        .iter()
        .map(|x| (x.step_id.as_str(), x.step_type.as_str(), x.description.as_str(), x.estimated_time_ms, x.dependencies.clone()))
        .collect();
    assert_eq!(
        got,
        vec![
            ("parse", "parser", "Parse SQL query", 5, texts(&[])),
            ("optimize", "optimizer", "Optimize query plan", 10, texts(&["parse"])),
            ("shard", "shard_manager", "Determine shard distribution", 15, texts(&["optimize"])),
            ("execute", "executor", "Execute query on workers", 50, texts(&["shard"])),
            ("aggregate", "aggregator", "Aggregate results", 20, texts(&["execute"])),
        ]
    );
    assert_eq!(plan.steps.iter().map(|x| x.estimated_time_ms).sum::<u64>(), plan.estimated_cost);
    let plain = QueryPlanner::new().plan_query("select 1");
    assert_eq!(plain.steps.len(), 3);
    assert_eq!(plain.steps.iter().map(|x| x.estimated_time_ms).sum::<u64>(), plain.estimated_cost);
}

#[test]
fn the_workers_sample_rows() {
    let e = QueryExecutor::new();
    assert_eq!(e.execute("SELECT COUNT(*) FROM Users").unwrap(), rows(&[&["3"]]));
    assert_eq!(
        e.execute("select * from users WHERE age > 26").unwrap(),
        rows(&[&["John Doe", "30"], &["Bob Johnson", "35"]])
    );
    assert_eq!(
        e.execute("select * from users").unwrap(),
        rows(&[&["John Doe", "30"], &["Jane Smith", "25"], &["Bob Johnson", "35"]])
    );
    assert_eq!(
        e.execute("select * from ORDERS").unwrap(),
        rows(&[
            &["ORD001", "150.00", "2024-01-15"],
            &["ORD002", "275.50", "2024-01-16"],
            &["ORD003", "89.99", "2024-01-17"],
        ])
    );
    assert_eq!(
        e.execute("select * from products").unwrap(),
        rows(&[&["Laptop", "999.99"], &["Mouse", "29.99"], &["Keyboard", "79.99"]])
    );
    assert_eq!(
        e.execute("select 1").unwrap(),
        rows(&[&["Sample Result 1"], &["Sample Result 2"], &["Sample Result 3"]])
    );
    // The text is expected in lower case here: capitals do not count.
    assert_eq!(e.execute_lowered("SELECT * FROM USERS").unwrap().len(), 3);
    assert_eq!(e.execute_lowered("SELECT * FROM USERS").unwrap()[0], texts(&["Sample Result 1"]));
    let plan = e.get_query_plan("select 1");
    assert_eq!(plan.query_id.len(), 36);
    assert_eq!(plan.sql_query, "select 1");
    assert_eq!(plan.steps, texts(&["Parse SQL", "Validate syntax", "Execute query", "Return results"]));
    assert_eq!(plan.estimated_cost, 50);
    assert_eq!(e.query_plan_named("x", s("id")).query_id, "id");
}

#[test]
fn traces_are_kept_by_query() {
    let mut t = Tracer::new();
    assert!(t.get_trace(s("q1")).is_none());
    t.add_event_at(s("q1"), s("early"), s("dropped"), 5);
    assert!(t.get_all_traces().is_empty());
    t.start_query_trace_at(s("q1"), s("select 1"), 10);
    t.add_event_at(s("q1"), s("plan"), s("planned"), 11);
    let mut notes = StrMap::new();
    notes.insert(s("worker"), s("w1"));
    t.add_event_with_metadata_at(s("q1"), s("run"), s("dispatched"), notes, 12);
    t.add_event_at(s("q2"), s("x"), s("y"), 13);
    let trace = t.get_trace(s("q1")).unwrap();
    assert_eq!(trace.query_id, "q1");
    assert_eq!(trace.sql, "select 1");
    assert_eq!(trace.start_time, 10);
    assert_eq!(trace.events.len(), 2);
    assert_eq!(trace.events[0].timestamp, 11);
    assert_eq!(trace.events[0].event_type, "plan");
    assert_eq!(trace.events[0].description, "planned");
    assert!(trace.events[0].metadata.is_empty());
    assert_eq!(trace.events[1].metadata.get("worker"), Some(&s("w1")));
    assert_eq!(t.get_all_traces().len(), 1);
    let done = t.complete_query_trace(s("q1")).unwrap();
    assert_eq!(done.events.len(), 2);
    assert!(t.complete_query_trace(s("q1")).is_none());
    assert!(t.get_trace(s("q1")).is_none());
}

#[test]
fn a_trace_that_starts_again_is_new() {
    let mut t = Tracer::new();
    t.start_query_trace(s("q1"), s("a"));
    t.add_event(s("q1"), s("e"), s("d"));
    t.add_event_with_metadata(s("q1"), s("e2"), s("d2"), StrMap::new());
    assert_eq!(t.get_trace(s("q1")).unwrap().events.len(), 2);
    assert!(t.get_trace(s("q1")).unwrap().start_time > 1_600_000_000_000);
    t.start_query_trace_at(s("q1"), s("b"), 7);
    let trace = t.get_trace(s("q1")).unwrap();
    assert_eq!(trace.sql, "b");
    assert!(trace.events.is_empty());
    t.start_query_trace_at(s("q2"), s("c"), 8);
    assert_eq!(t.get_all_traces().len(), 2);
    t.clear_traces();
    assert!(t.get_all_traces().is_empty());
}

fn result(name: &str) -> QueryResult {
    QueryResult {
        query_id: s(name),
        sql_query: s("select 1"),
        execution_time_ms: 1,
        rows_returned: 0,
        results: Vec::new(),
        status: s("completed"),
        timestamp: 0,
    }
}

#[test]
fn the_dashboard_before_anything_is_known() {
    let d = VisualizationData::new_at(77);
    assert_eq!(d.system_status.components.len(), 4);
    for name in ["coordinator", "worker1", "worker2", "worker3"] {
        let c = d.system_status.components.get(name).unwrap();
        assert_eq!(c.id, name);
        assert_eq!(c.status, "unknown");
        assert_eq!((c.cpu_usage, c.memory_usage, c.active_connections, c.last_heartbeat), (0, 0, 0, 77));
    }
    assert_eq!(d.system_status.total_queries, 0);
    assert_eq!(d.system_status.active_queries, 0);
    assert_eq!(d.system_status.system_uptime, 0);
    assert_eq!(d.system_status.last_updated, 77);
    assert_eq!(d.performance_metrics.total_queries, 0);
    assert_eq!(d.performance_metrics.timestamp, 77);
    assert!(d.performance_metrics.worker_utilization.is_empty());
    assert!(d.recent_queries.is_empty());
    let now = VisualizationData::new();
    assert_eq!(now.system_status.components.len(), 4);
    assert_eq!(SystemStatus::default().components.len(), 4);
    assert_eq!(PerformanceMetrics::default().error_rate, 0);
    assert_eq!(ComponentStatus::unknown("x", 1).status, "unknown");
}

#[test]
fn the_dashboard_keeps_ten_queries() {
    let mut d = VisualizationData::new_at(0);
    for i in 0..10 {
        d.add_query_result(result(&format!("q{}", i)));
    }
    assert_eq!(d.recent_queries.len(), 10);
    assert_eq!(d.recent_queries[0].query_id, "q0");
    d.add_query_result(result("q10"));
    assert_eq!(d.recent_queries.len(), 10);
    assert_eq!(d.recent_queries[0].query_id, "q1");
    assert_eq!(d.recent_queries[9].query_id, "q10");
    let mut status = SystemStatus::default_at(5);
    status.total_queries = 42;
    d.update_system_status(status);
    assert_eq!(d.system_status.total_queries, 42);
    assert_eq!(d.system_status.last_updated, 5);
    assert_eq!(d.recent_queries.len(), 10);
}

#[test]
fn a_worker_counts_its_queries() {
    let mut w = WorkerState::new_at(s("w1"), s("127.0.0.1"), 50051, 1000);
    assert_eq!(w.worker_id, "w1");
    assert_eq!(w.coordinator_address, "127.0.0.1");
    assert_eq!(w.coordinator_port, 50051);
    assert_eq!(w.start_time, 1000);
    assert_eq!(w.data_store.get_table_count(), 3);
    let m = w.get_metrics();
    assert_eq!((m.total_queries, m.active_queries, m.cpu_usage, m.memory_usage, m.last_heartbeat), (0, 0, 0, 0, 1000));
    w.begin_query();
    assert_eq!(w.get_metrics().active_queries, 1);
    let answer = w.complete_query("select 1", s("id1"), rows(&[&["a"], &["b"]]), 12, 1700);
    assert_eq!(answer.query_id, "id1");
    assert_eq!(answer.sql_query, "select 1");
    assert_eq!(answer.execution_time_ms, 12);
    assert_eq!(answer.rows_returned, 2);
    assert_eq!(answer.results, rows(&[&["a"], &["b"]]));
    assert_eq!(answer.status, "completed");
    assert_eq!(answer.timestamp, Some(1700));
    assert_eq!((w.get_metrics().active_queries, w.get_metrics().total_queries), (0, 1));
    let whole = w.execute_query("select * from users where x").unwrap();
    assert_eq!(whole.query_id.len(), 36);
    assert_eq!(whole.rows_returned, 2);
    assert_eq!(whole.results, rows(&[&["John Doe", "30"], &["Bob Johnson", "35"]]));
    assert!(whole.timestamp.unwrap() > 1_600_000_000);
    assert_eq!((w.get_metrics().active_queries, w.get_metrics().total_queries), (0, 2));
    w.update_system_metrics_at(25.0f64.to_bits(), 64.0f64.to_bits(), 2000);
    let m = w.get_metrics();
    assert_eq!((f64::from_bits(m.cpu_usage), f64::from_bits(m.memory_usage), m.last_heartbeat), (25.0, 64.0, 2000));
    assert_eq!(m.total_queries, 2);
    w.update_system_metrics(1, 2);
    assert!(w.get_metrics().last_heartbeat > 1_600_000_000_000);
    assert!(WorkerState::new(s("w"), s("a"), 1).start_time > 1_600_000_000_000);
}

#[test]
fn the_service_answers_workers() {
    let mut service = CoordinatorServiceImpl::new(CoordinatorState::new_at(1000));
    let r = service.register_worker_at(s("w1"), s("10.0.0.1"), 7000, 1001);
    assert!(r.success);
    assert_eq!(r.message, "Worker w1 registered successfully");
    assert_eq!(service.state.workers.get("w1").unwrap().last_heartbeat, 1001);
    let h = service.heartbeat_at("w1", 1, 2, 3, 1002);
    assert!(h.success);
    assert_eq!(h.message, "Heartbeat received");
    assert_eq!(service.state.workers.get("w1").unwrap().active_queries, 3);
    let stranger = service.heartbeat_at("w9", 1, 2, 3, 1003);
    assert!(stranger.success);
    assert_eq!(stranger.message, "Heartbeat received");
    assert_eq!(service.state.workers.len(), 1);
    assert!(service.register_worker(s("w2"), s("a"), 1).success);
    assert!(service.heartbeat("w2", 0, 0, 0).success);
    assert_eq!(service.state.workers.get("w2").unwrap().status, HealthStatus::Healthy);
}

#[test]
fn the_service_answers_clients() {
    let mut service = CoordinatorServiceImpl::new(CoordinatorState::new_at(1000));
    service.register_worker_at(s("w1"), s("a"), 1, 1000);
    assert_eq!(
        results_for("select * from users"),
        rows(&[&["John Doe", "30"], &["Jane Smith", "25"], &["Bob Johnson", "35"]])
    );
    assert_eq!(
        results_for("select * from orders"),
        rows(&[&["ORD001", "150.00"], &["ORD002", "275.50"], &["ORD003", "89.99"]])
    );
    assert_eq!(results_for("select 1"), rows(&[&["Sample Result 1"], &["Sample Result 2"]]));
    let r = service.execute_query("SELECT * FROM Orders");
    assert!(r.success);
    assert_eq!(r.message, "Query executed successfully");
    let answer = r.result.unwrap();
    assert_eq!(answer.query_id.len(), 36);
    assert_eq!(answer.sql_query, "SELECT * FROM Orders");
    assert_eq!(answer.rows_returned, 3);
    assert_eq!(answer.results[0], texts(&["ORD001", "150.00"]));
    assert_eq!(answer.status, "completed");
    assert!(answer.timestamp.unwrap() > 1_600_000_000);
    assert_eq!((service.state.total_queries, service.state.active_queries), (1, 0));
    service.begin_query();
    assert_eq!(service.state.active_queries, 1);
    let status = service.get_system_status_at(1500);
    assert!(status.success);
    assert_eq!(status.message, "System status retrieved successfully");
    let report = status.status.unwrap();
    assert_eq!(report.components.len(), 2);
    assert_eq!((report.total_queries, report.active_queries, report.system_uptime), (1, 1, 500));
    let closed = service.complete_query("x", s("id"), Vec::new(), 3, 9);
    assert_eq!(closed.result.unwrap().rows_returned, 0);
    assert_eq!((service.state.total_queries, service.state.active_queries), (2, 0));
    assert!(service.get_system_status().success);
}

#[test]
fn tags() {
    assert_eq!(short_tag("0123456789"), "01234567");
    assert_eq!(short_tag("01234567"), "01234567");
    assert_eq!(short_tag("abc"), "abc");
    assert_eq!(short_tag(""), "");
    assert_eq!(short_tag("ééééééééé"), "éééééééé");
    let tag = random_tag();
    assert_eq!(tag.chars().count(), 8);
    assert!(tag.chars().all(|c| c.is_ascii_hexdigit()));
    assert_ne!(random_tag(), random_tag());
}

#[test]
fn the_worker_service_answers() {
    let mut service = WorkerServiceImpl::new(WorkerState::new_at(s("w1"), s("127.0.0.1"), 50051, 10_000));
    let r = service.execute_query("select * from products");
    assert!(r.success);
    assert_eq!(r.message, "Query executed successfully");
    let answer = r.result.unwrap();
    assert_eq!(answer.rows_returned, 3);
    assert_eq!(answer.results[1], texts(&["Mouse", "29.99"]));
    service.state.update_system_metrics_at(25.0f64.to_bits(), 64.0f64.to_bits(), 12_999);
    let status = service.get_worker_status_at(75_500);
    assert!(status.success);
    assert_eq!(status.message, "Worker status retrieved successfully");
    let st = status.status.unwrap();
    assert_eq!(st.worker_id, "w1");
    assert_eq!(st.status, "healthy");
    assert_eq!((f64::from_bits(st.cpu_usage), f64::from_bits(st.memory_usage)), (25.0, 64.0));
    assert_eq!((st.active_queries, st.total_queries), (0, 1));
    assert_eq!(st.uptime, Some(65));
    assert_eq!(st.last_heartbeat, Some(12));
    assert_eq!(service.get_worker_status_at(5).status.unwrap().uptime, Some(0));
    assert!(service.get_worker_status().status.unwrap().uptime.unwrap() > 1_000_000);
    let h = service.health_check_at(s("w7"), 99);
    assert_eq!(h.worker_id, "w7");
    assert!(h.healthy);
    assert_eq!(h.timestamp, 99);
    assert_eq!(h.status_message, "Worker w7 is healthy");
    assert!(service.health_check(s("w1")).timestamp > 1_600_000_000);
}

#[test]
fn the_default_tracer_is_empty() {
    let t = Tracer::default();
    assert!(t.get_all_traces().is_empty());
}

#[test]
fn two_workers_and_the_shard_of_user_42() {
    let mut state = CoordinatorState::new_at(1_000);
    state.register_worker_at(s("w1"), s("10.0.0.1"), 50052, 1_000).unwrap();
    state.register_worker_at(s("w2"), s("10.0.0.2"), 50052, 1_000).unwrap();
    assert_eq!(state.snapshot().len(), 2);
    let distribution = ShardDistribution::hash_based(s("users"), texts(&["user_id"]), 3);
    assert!(distribution.is_valid());
    let mut row = StrMap::new();
    row.insert(s("user_id"), s("42"));
    // The value is fixed by the bytes of "42" alone, so it is the same in
    // every process: 52 + 50 + 2 = 104, and 104 % 3 = 2.
    for _ in 0..100 {
        assert_eq!(distribution.determine_shard_id(&row).unwrap(), "users_shard_2");
    }
    let again = ShardDistribution::hash_based(s("users"), texts(&["user_id"]), 3);
    let mut same_row = StrMap::new();
    same_row.insert(s("user_id"), s("42"));
    assert_eq!(again.determine_shard_id(&same_row).unwrap(), "users_shard_2");
}

#[test]
fn log_lines() {
    assert_eq!(Logger::query_start("q1", "select 1"), "Query started: q1 - select 1");
    assert_eq!(Logger::query_complete("q1", 12), "Query completed: q1 - 12ms");
    assert_eq!(Logger::query_dispatch("q1", "w1"), "Query dispatched: q1 -> w1");
    assert_eq!(Logger::worker_task_start("w1", "t1"), "Worker task started: w1 - t1");
    assert_eq!(Logger::worker_task_complete("w1", "t1", 0), "Worker task completed: w1 - t1 - 0ms");
    assert_eq!(Logger::shard_operation("move", "s1", "to w2"), "Shard operation: move - s1 - to w2");
    assert_eq!(Logger::system_startup("coordinator", 50051), "System startup: coordinator on port 50051");
    assert_eq!(Logger::system_shutdown("coordinator"), "System shutdown: coordinator");
    assert_eq!(Logger::error_with_context("status", "gone"), "status: gone");
    assert_eq!(Logger::warning_with_context("sweep", "slow"), "sweep: slow");
    assert_eq!(Logger::debug_info("x"), "x");
    assert_eq!(Logger::trace_info(""), "");
}
