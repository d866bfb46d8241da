use distsql::models::condition::{Condition, DataType as ValueType, Operator};
use distsql::models::join::{Join, JoinType};
use distsql::models::plan_node::{NodeType, PlanNode};
use distsql::models::query::{Query, QueryType};
use distsql::models::shard_info::{ShardInfo, ShardStatus, ShardType};
use distsql::models::shard_key::{DataType, ParsedValue, ShardKey};
use std::collections::hash_map::DefaultHasher;
use std::hash::{Hash, Hasher};

fn s(text: &str) -> String {
    text.to_string()
}

fn join_of(kind: JoinType) -> Join {
    Join::new(s("users"), s("orders"), s("id"), s("user_id"), kind)
}

#[test]
fn joins_of_each_kind() {
    let j = Join::inner(s("users"), s("orders"), s("id"), s("user_id"));
    assert_eq!(j.left_table, "users");
    assert_eq!(j.right_table, "orders");
    assert_eq!(j.left_column, "id");
    assert_eq!(j.right_column, "user_id");
    assert_eq!(j.join_type, JoinType::Inner);
    assert!(j.is_inner() && !j.is_left() && !j.is_right() && !j.is_full());
    let l = Join::left(s("a"), s("b"), s("x"), s("y"));
    assert!(l.is_left() && !l.is_inner());
    let r = Join::right(s("a"), s("b"), s("x"), s("y"));
    assert!(r.is_right() && !r.is_full());
    let f = Join::full(s("a"), s("b"), s("x"), s("y"));
    assert!(f.is_full() && !f.is_right());
    assert_eq!(join_of(JoinType::Full).join_type, JoinType::Full);
}

#[test]
fn a_join_in_words() {
    assert_eq!(join_of(JoinType::Inner).to_string(), "users INNER JOIN orders ON users.id = orders.user_id");
    assert_eq!(join_of(JoinType::Left).to_string(), "users LEFT JOIN orders ON users.id = orders.user_id");
    assert_eq!(JoinType::Right.to_string(), "RIGHT");
    assert_eq!(JoinType::Full.to_string(), "FULL");
    let copy = join_of(JoinType::Right).clone();
    assert_eq!(copy.to_string(), "users RIGHT JOIN orders ON users.id = orders.user_id");
}

#[test]
fn a_query_with_a_name() {
    let q = Query::with_id(s("q1"), s("SELECT 1"), QueryType::Select);
    assert_eq!(q.query_id, "q1");
    assert_eq!(q.sql, "SELECT 1");
    assert_eq!(q.query_type, QueryType::Select);
    assert!(q.select_columns.is_empty());
    assert!(q.from_tables.is_empty());
    assert!(q.where_conditions.is_none());
    assert!(q.joins.is_none());
    assert!(q.metadata.is_empty());
    assert!(q.is_select());
    assert!(!q.has_conditions());
    assert!(!q.has_joins());
    assert!(!Query::with_id(s("q"), s("x"), QueryType::Insert).is_select());
    assert!(!Query::with_id(s("q"), s("x"), QueryType::Update).is_select());
    assert!(!Query::with_id(s("q"), s("x"), QueryType::Delete).is_select());
}

#[test]
fn a_query_named_after_the_time() {
    let q = Query::new_at(s("SELECT 1"), QueryType::Select, 1_700_000_000_123);
    assert_eq!(q.query_id, "query_1700000000123");
    assert_eq!(Query::new_at(s("x"), QueryType::Delete, 0).query_id, "query_0");
    let now = Query::new(s("SELECT 1"), QueryType::Select);
    let number: u64 = now.query_id.strip_prefix("query_").unwrap().parse().unwrap();
    assert!(number > 1_600_000_000_000);
    assert_eq!(now.sql, "SELECT 1");
}

#[test]
fn conditions_and_joins_are_added_in_order() {
    let mut q = Query::with_id(s("q1"), s("x"), QueryType::Select);
    q.add_condition(Condition::new(s("a"), Operator::Equals, s("1"), ValueType::Integer));
    q.add_condition(Condition::new(s("b"), Operator::Like, s("x%"), ValueType::String));
    q.add_join(join_of(JoinType::Inner));
    assert!(q.has_conditions());
    assert!(q.has_joins());
    let conditions = q.where_conditions.as_ref().unwrap();
    assert_eq!(conditions.len(), 2);
    assert_eq!(conditions[0].column, "a");
    assert_eq!(conditions[1].column, "b");
    assert_eq!(q.joins.as_ref().unwrap().len(), 1);
    assert_eq!(q.query_id, "q1");
    q.where_conditions = Some(Vec::new());
    assert!(!q.has_conditions());
}

#[test]
fn plan_nodes_of_each_kind() {
    let n = PlanNode::new(s("n1"), NodeType::Aggregate);
    assert_eq!(n.node_id, "n1");
    assert_eq!(n.node_type, NodeType::Aggregate);
    assert!(n.table_name.is_none() && n.columns.is_none() && n.conditions.is_none());
    assert!(n.children.is_empty() && n.worker_id.is_none() && n.metadata.is_empty());
    assert_eq!(n.estimated_rows, 0);

    let scan = PlanNode::scan(s("users"), Some(vec![s("id")]));
    assert_eq!(scan.node_id, "scan_users");
    assert_eq!(scan.node_type, NodeType::Scan);
    assert_eq!(scan.table_name, Some(s("users")));
    assert_eq!(scan.columns, Some(vec![s("id")]));

    let filter = PlanNode::filter_tagged(
        vec![Condition::new(s("a"), Operator::Equals, s("1"), ValueType::Integer)],
        "0123abcd-4567-89ab-cdef-0123456789ab",
    );
    assert_eq!(filter.node_id, "filter_0123abcd");
    assert_eq!(filter.node_type, NodeType::Filter);
    assert_eq!(filter.conditions.as_ref().unwrap().len(), 1);
    assert_eq!(PlanNode::filter_tagged(Vec::new(), "abc").node_id, "filter_abc");

    let project = PlanNode::project_tagged(vec![s("id"), s("name")], "ffffffff-rest");
    assert_eq!(project.node_id, "project_ffffffff");
    assert_eq!(project.node_type, NodeType::Project);
    assert_eq!(project.columns, Some(vec![s("id"), s("name")]));

    let join = PlanNode::join_tagged(s("users"), s("orders"), "12345678-rest");
    assert_eq!(join.node_id, "join_12345678");
    assert_eq!(join.node_type, NodeType::Join);
    assert_eq!(join.table_name, Some(s("users_orders")));
}

fn is_tag(text: &str) -> bool {
    text.len() == 8 && text.chars().all(|c| c.is_ascii_hexdigit() && !c.is_ascii_uppercase())
}

#[test]
fn random_names_have_eight_more_characters() {
    let f = PlanNode::filter(Vec::new());
    assert!(is_tag(f.node_id.strip_prefix("filter_").unwrap()));
    let p = PlanNode::project(vec![s("a")]);
    assert!(is_tag(p.node_id.strip_prefix("project_").unwrap()));
    let j = PlanNode::join(s("a"), s("b"));
    assert!(is_tag(j.node_id.strip_prefix("join_").unwrap()));
    assert_eq!(j.table_name, Some(s("a_b")));
    assert_ne!(PlanNode::filter(Vec::new()).node_id, f.node_id);
}

fn tree() -> PlanNode {
    let mut root = PlanNode::new(s("root"), NodeType::Join);
    root.set_estimated_rows(10);
    let mut left = PlanNode::scan(s("users"), None);
    left.set_estimated_rows(100);
    let mut leaf = PlanNode::new(s("leaf"), NodeType::Filter);
    leaf.set_estimated_rows(7);
    left.add_child(leaf);
    let mut right = PlanNode::scan(s("orders"), None);
    right.set_estimated_rows(1000);
    right.set_worker_id(s("w2"));
    root.add_child(left);
    root.add_child(right);
    root
}

#[test]
fn cost_adds_up_the_whole_tree() {
    let root = tree();
    assert!(!root.is_leaf());
    assert!(root.children[1].is_leaf());
    assert_eq!(root.children[0].children[0].estimated_cost(), 7);
    assert_eq!(root.children[0].estimated_cost(), 107);
    assert_eq!(root.estimated_cost(), 1117);
    assert_eq!(PlanNode::new(s("n"), NodeType::Scan).estimated_cost(), 0);
    assert_eq!(root.children[1].worker_id, Some(s("w2")));
    assert_eq!(root.children.len(), 2);
}

#[test]
fn a_renamed_copy_keeps_the_shape() {
    let root = tree();
    let copy = root.clone_with_new_id();
    assert!(is_tag(copy.node_id.strip_prefix("root_").unwrap()));
    assert_eq!(copy.node_type, NodeType::Join);
    assert_eq!(copy.estimated_rows, 10);
    assert_eq!(copy.children.len(), 2);
    assert!(is_tag(copy.children[0].node_id.strip_prefix("scan_users_").unwrap()));
    assert_eq!(copy.children[0].table_name, Some(s("users")));
    assert!(is_tag(copy.children[0].children[0].node_id.strip_prefix("leaf_").unwrap()));
    assert_eq!(copy.children[1].worker_id, Some(s("w2")));
    assert_eq!(copy.estimated_cost(), 1117);
    let one = root.renamed_with("abcdefgh-more", Vec::new());
    assert_eq!(one.node_id, "root_abcdefgh");
    assert!(one.children.is_empty());
    assert_eq!(one.estimated_rows, 10);
}

#[test]
fn shard_keys() {
    let k = ShardKey::new(s("user_id"), s("42"), DataType::Integer);
    assert_eq!(k.column_name, "user_id");
    assert_eq!(k.value, "42");
    assert_eq!(k.data_type, DataType::Integer);
    assert!(!k.is_primary_key);
    assert!(k.is_valid());
    let p = ShardKey::with_primary_key(s("id"), s("7"), DataType::Long, true);
    assert!(p.is_primary_key);
    assert!(!ShardKey::new(s(""), s("1"), DataType::String).is_valid());
    assert!(!ShardKey::new(s("a"), s(""), DataType::String).is_valid());
    assert_eq!(
        p.to_string(),
        "ShardKey{column=id, value=7, type=LONG, primary=true}"
    );
    assert_eq!(
        k.to_string(),
        "ShardKey{column=user_id, value=42, type=INTEGER, primary=false}"
    );
    for (t, word) in [
        (DataType::String, "STRING"),
        (DataType::Integer, "INTEGER"),
        (DataType::Long, "LONG"),
        (DataType::Double, "DOUBLE"),
        (DataType::Boolean, "BOOLEAN"),
        (DataType::Date, "DATE"),
    ] {
        assert_eq!(t.to_string(), word);
    }
}

#[test]
fn hash_of_a_shard_key() {
    let empty = ShardKey::new(s("a"), s(""), DataType::String);
    assert_eq!(empty.calculate_hash(), 0);
    assert_eq!(empty.calculate_consistent_hash(0), 0);
    assert_eq!(empty.calculate_consistent_hash(5), 0);
    let k = ShardKey::new(s("a"), s("hello"), DataType::String);
    let mut hasher = DefaultHasher::new();
    "hello".hash(&mut hasher);
    let expected = hasher.finish() as u32;
    assert_eq!(k.calculate_hash(), expected);
    assert_eq!(k.calculate_hash(), k.calculate_hash());
    assert_eq!(k.calculate_consistent_hash(7), expected % 7);
    assert_eq!(k.calculate_consistent_hash(1), 0);
    assert_eq!(distsql::models::shard_key::consistent_index(10, 4), 2);
    assert_eq!(distsql::models::shard_key::low_half(0x1_0000_0005), 5);
}

fn parse(value: &str, kind: DataType) -> Result<ParsedValue, String> {
    let number = value.parse::<f64>().ok().map(f64::to_bits);
    ShardKey::new(s("c"), s(value), kind).parse_value(number)
}

#[test]
fn values_are_read_by_their_type() {
    assert!(matches!(parse("abc", DataType::String), Ok(ParsedValue::String(t)) if t == "abc"));
    assert!(matches!(parse("2024-01-15", DataType::Date), Ok(ParsedValue::String(t)) if t == "2024-01-15"));
    assert!(matches!(parse("-42", DataType::Integer), Ok(ParsedValue::Integer(-42))));
    assert!(matches!(parse("2147483647", DataType::Integer), Ok(ParsedValue::Integer(i32::MAX))));
    assert!(matches!(parse("-2147483648", DataType::Integer), Ok(ParsedValue::Integer(i32::MIN))));
    assert_eq!(parse("2147483648", DataType::Integer).unwrap_err(), "Cannot parse '2147483648' as integer");
    assert_eq!(parse("x", DataType::Integer).unwrap_err(), "Cannot parse 'x' as integer");
    assert!(matches!(parse("2147483648", DataType::Long), Ok(ParsedValue::Long(2147483648))));
    assert_eq!(parse("1.5", DataType::Long).unwrap_err(), "Cannot parse '1.5' as long");
    assert!(matches!(parse("1.5", DataType::Double), Ok(ParsedValue::Double(b)) if f64::from_bits(b) == 1.5));
    assert_eq!(parse("one", DataType::Double).unwrap_err(), "Cannot parse 'one' as double");
    assert!(matches!(parse("true", DataType::Boolean), Ok(ParsedValue::Boolean(true))));
    assert!(matches!(parse("false", DataType::Boolean), Ok(ParsedValue::Boolean(false))));
    assert_eq!(parse("True", DataType::Boolean).unwrap_err(), "Cannot parse 'True' as boolean");
    assert_eq!(parse("1", DataType::Boolean).unwrap_err(), "Cannot parse '1' as boolean");
}

#[test]
fn a_new_shard_is_active_and_empty() {
    let sh = ShardInfo::new_at(s("users_shard_0"), s("w1"), s("users"), ShardType::HashBased, 1000);
    assert_eq!(sh.shard_id, "users_shard_0");
    assert_eq!(sh.worker_id, "w1");
    assert_eq!(sh.table_name, "users");
    assert_eq!(sh.shard_type, ShardType::HashBased);
    assert!(sh.shard_key.is_empty());
    assert_eq!((sh.row_count, sh.size_bytes, sh.created_at, sh.last_updated), (0, 0, 1000, 1000));
    assert_eq!(sh.status, ShardStatus::Active);
    assert!(sh.is_active() && !sh.is_migrating() && !sh.has_failed());
}

#[test]
fn every_change_of_a_shard_sets_the_time() {
    let mut sh = ShardInfo::new_at(s("s"), s("w1"), s("t"), ShardType::RangeBased, 1000);
    sh.update_row_count_at(50, 1100);
    assert_eq!((sh.row_count, sh.last_updated), (50, 1100));
    sh.update_size_bytes_at(4096, 1200);
    assert_eq!((sh.size_bytes, sh.row_count, sh.last_updated), (4096, 50, 1200));
    sh.set_status_at(ShardStatus::Migrating, 1300);
    assert!(sh.is_migrating() && !sh.is_active());
    assert_eq!(sh.last_updated, 1300);
    sh.add_shard_key_at(s("region"), s("eu"), 1400);
    assert_eq!(sh.shard_key.get("region"), Some(&s("eu")));
    assert_eq!(sh.last_updated, 1400);
    // The last writer wins.
    sh.update_row_count_at(60, 1500);
    sh.update_row_count_at(70, 1450);
    assert_eq!((sh.row_count, sh.last_updated), (70, 1450));
    sh.set_status_at(ShardStatus::Failed, 1600);
    assert!(sh.has_failed());
    sh.set_status_at(ShardStatus::Inactive, 1700);
    assert!(!sh.is_active() && !sh.is_migrating() && !sh.has_failed());
    assert_eq!(sh.created_at, 1000);
    assert_eq!(sh.age_ms_at(1750), 750);
    assert_eq!(sh.age_ms_at(999), 0);
    assert_eq!(sh.time_since_update_ms_at(1750), 50);
    assert_eq!(sh.time_since_update_ms_at(0), 0);
}

#[test]
fn changes_by_the_clock() {
    let mut sh = ShardInfo::new(s("s"), s("w1"), s("t"), ShardType::HashBased);
    assert!(sh.created_at > 1_600_000_000_000);
    assert_eq!(sh.created_at, sh.last_updated);
    let created = sh.created_at;
    sh.update_row_count(5);
    sh.update_size_bytes(6);
    sh.set_status(ShardStatus::Failed);
    sh.add_shard_key(s("k"), s("v"));
    assert_eq!((sh.row_count, sh.size_bytes), (5, 6));
    assert!(sh.has_failed());
    assert_eq!(sh.shard_key.get("k"), Some(&s("v")));
    assert!(sh.last_updated >= created);
    assert_eq!(sh.created_at, created);
    assert!(sh.age_ms() < 60_000);
    assert!(sh.time_since_update_ms() < 60_000);
}

#[test]
fn a_shard_in_words() {
    let mut sh = ShardInfo::new_at(s("users_shard_1"), s("w1"), s("users"), ShardType::RoundRobin, 1);
    sh.update_row_count_at(1200, 2);
    assert_eq!(
        sh.to_string(),
        "ShardInfo{id=users_shard_1, worker=w1, table=users, type=ROUND_ROBIN, rows=1200, status=ACTIVE}"
    );
    assert_eq!(ShardType::HashBased.to_string(), "HASH_BASED");
    assert_eq!(ShardType::RangeBased.to_string(), "RANGE_BASED");
    assert_eq!(ShardType::Custom.to_string(), "CUSTOM");
    assert_eq!(ShardStatus::Active.to_string(), "ACTIVE");
    assert_eq!(ShardStatus::Migrating.to_string(), "MIGRATING");
    assert_eq!(ShardStatus::Inactive.to_string(), "INACTIVE");
    assert_eq!(ShardStatus::Failed.to_string(), "FAILED");
}
