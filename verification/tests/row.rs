use distsql::models::result_set::ResultSet;
use distsql::models::row::Row;
use distsql::str_map::StrMap;

fn texts(list: &[&str]) -> Vec<String> {
    list.iter().map(|s| s.to_string()).collect()
}

fn row_of(list: &[&str]) -> Row {
    Row::new(texts(list), "users".to_string())
}

#[test]
fn a_new_row_is_not_routed() {
    let r = row_of(&["1", "John Doe"]);
    assert_eq!(r.values, texts(&["1", "John Doe"]));
    assert_eq!(r.table_name, "users");
    assert!(r.metadata.is_empty());
    assert_eq!(r.worker_id, None);
    assert_eq!(r.shard_id, None);
    assert_eq!(r.column_count(), 2);
    assert!(!r.is_empty());
    assert!(Row::new(Vec::new(), "t".to_string()).is_empty());
}

#[test]
fn a_row_with_notes() {
    let mut notes = StrMap::new();
    notes.insert("source".to_string(), "import".to_string());
    let r = Row::with_metadata(texts(&["1"]), "t".to_string(), notes);
    assert_eq!(r.get_metadata("source"), Some(&"import".to_string()));
    assert_eq!(r.get_metadata("other"), None);
    assert_eq!(r.worker_id, None);
}

#[test]
fn values_by_position() {
    let mut r = row_of(&["a", "b"]);
    assert_eq!(r.get_value(0), Some(&"a".to_string()));
    assert_eq!(r.get_value(1), Some(&"b".to_string()));
    assert_eq!(r.get_value(2), None);
    assert_eq!(r.set_value(1, "B".to_string()), Ok(()));
    assert_eq!(r.values, texts(&["a", "B"]));
    assert_eq!(
        r.set_value(2, "c".to_string()),
        Err("Index 2 out of bounds for row with 2 columns".to_string())
    );
    assert_eq!(r.values, texts(&["a", "B"]));
    r.add_value("c".to_string());
    assert_eq!(r.values, texts(&["a", "B", "c"]));
    assert_eq!(r.column_count(), 3);
}

#[test]
fn routing_and_notes() {
    let mut r = row_of(&["a"]);
    r.set_worker_id("w1".to_string());
    r.set_shard_id("users_shard_2".to_string());
    r.set_metadata("k".to_string(), "v".to_string());
    r.set_metadata("k".to_string(), "w".to_string());
    assert_eq!(r.worker_id, Some("w1".to_string()));
    assert_eq!(r.shard_id, Some("users_shard_2".to_string()));
    assert_eq!(r.get_metadata("k"), Some(&"w".to_string()));
    assert_eq!(r.values, texts(&["a"]));
}

#[test]
fn projection_picks_columns_in_the_order_asked() {
    let mut r = row_of(&["a", "b", "c"]);
    r.set_worker_id("w1".to_string());
    r.set_metadata("k".to_string(), "v".to_string());
    let p = r.project_columns(&[2, 0, 2]).unwrap();
    assert_eq!(p.values, texts(&["c", "a", "c"]));
    assert_eq!(p.table_name, "users");
    assert_eq!(p.worker_id, Some("w1".to_string()));
    assert_eq!(p.shard_id, None);
    assert_eq!(p.get_metadata("k"), Some(&"v".to_string()));
    assert!(r.project_columns(&[]).unwrap().is_empty());
    match r.project_columns(&[1, 7, 9]) {
        Err(message) => assert_eq!(message, "Column index 7 not found"),
        Ok(_) => panic!("an index out of range was accepted"),
    }
}

#[test]
fn a_row_in_words() {
    assert_eq!(row_of(&["1", "John Doe", "30"]).to_string(), "1,John Doe,30");
    assert_eq!(row_of(&[]).to_string(), "");
    assert_eq!(row_of(&["", ""]).to_string(), ",");
}

#[test]
fn a_copied_row_is_the_same() {
    let mut r = row_of(&["a", "b"]);
    r.set_shard_id("s".to_string());
    r.set_metadata("k".to_string(), "v".to_string());
    let c = r.clone();
    r.add_value("more".to_string());
    assert_eq!(c.values, texts(&["a", "b"]));
    assert_eq!(c.table_name, "users");
    assert_eq!(c.shard_id, Some("s".to_string()));
    assert_eq!(c.worker_id, None);
    assert_eq!(c.get_metadata("k"), Some(&"v".to_string()));
}

#[test]
fn a_new_result_is_empty() {
    let r = ResultSet::new("q1".to_string());
    assert_eq!(r.query_id, "q1");
    assert_eq!(r.row_count(), 0);
    assert_eq!(r.column_count(), 0);
    assert!(r.is_empty());
    assert_eq!(r.execution_time_ms, 0);
    assert!(r.metadata.is_empty());
    assert!(r.get_row(0).is_none());
    assert_eq!(r.get_rows().len(), 0);
}

#[test]
fn a_result_with_data() {
    let mut r = ResultSet::with_data(
        "q1".to_string(),
        vec![row_of(&["1", "a"]), row_of(&["2", "b"])],
        texts(&["id", "name"]),
        12,
    );
    assert_eq!(r.row_count(), 2);
    assert_eq!(r.column_count(), 2);
    assert_eq!(r.execution_time_ms, 12);
    assert_eq!(r.get_row(1).unwrap().values, texts(&["2", "b"]));
    assert!(r.get_row(2).is_none());
    r.add_row(row_of(&["3", "c"]));
    r.add_rows(vec![row_of(&["4", "d"]), row_of(&["5", "e"])]);
    assert_eq!(r.row_count(), 5);
    assert_eq!(r.get_rows()[4].values, texts(&["5", "e"]));
    assert_eq!(r.get_rows()[2].values, texts(&["3", "c"]));
    r.set_execution_time(99);
    assert_eq!(r.execution_time_ms, 99);
    r.add_metadata("k".to_string(), "v".to_string());
    assert_eq!(r.get_metadata("k"), Some(&"v".to_string()));
    assert_eq!(r.get_metadata("x"), None);
    r.clear();
    assert!(r.is_empty());
    assert_eq!(r.column_count(), 2);
    assert_eq!(r.execution_time_ms, 99);
}

#[test]
fn comma_separated_form() {
    let r = ResultSet::with_data(
        "q1".to_string(),
        vec![row_of(&["1", "a"]), row_of(&["2", "b"])],
        texts(&["id", "name"]),
        12,
    );
    assert_eq!(r.to_csv(), "id,name\n1,a\n2,b\n");
    assert_eq!(ResultSet::new("q".to_string()).to_csv(), "\n");
}

#[test]
fn merging_adds_rows_time_and_notes() {
    let mut a = ResultSet::with_data("q1".to_string(), vec![row_of(&["1"])], texts(&["id"]), 10);
    a.add_metadata("k".to_string(), "old".to_string());
    a.add_metadata("only_a".to_string(), "1".to_string());
    let mut b = ResultSet::with_data("q2".to_string(), vec![row_of(&["2"]), row_of(&["3"])], texts(&["x"]), 5);
    b.add_metadata("k".to_string(), "new".to_string());
    b.add_metadata("only_b".to_string(), "2".to_string());
    a.merge(b);
    assert_eq!(a.query_id, "q1");
    assert_eq!(a.column_names, texts(&["id"]));
    assert_eq!(a.row_count(), 3);
    assert_eq!(a.get_row(2).unwrap().values, texts(&["3"]));
    assert_eq!(a.execution_time_ms, 15);
    assert_eq!(a.get_metadata("k"), Some(&"new".to_string()));
    assert_eq!(a.get_metadata("only_a"), Some(&"1".to_string()));
    assert_eq!(a.get_metadata("only_b"), Some(&"2".to_string()));
    assert_eq!(a.metadata.len(), 3);
}

#[test]
fn a_result_in_words() {
    let r = ResultSet::with_data(
        "q1".to_string(),
        vec![row_of(&["1", "a"]), row_of(&["2", "b"])],
        texts(&["id", "name"]),
        12,
    );
    assert_eq!(
        r.to_string(),
        "ResultSet for query: q1\nRows: 2, Columns: 2\nExecution time: 12ms\nData:\nid,name\n1,a\n2,b\n\n"
    );
    assert_eq!(
        ResultSet::new("q".to_string()).to_string(),
        "ResultSet for query: q\nRows: 0, Columns: 0\nExecution time: 0ms\n"
    );
}

#[test]
fn rows_from_values() {
    let r = Row::from(texts(&["a", "b"]));
    assert_eq!(r.values, texts(&["a", "b"]));
    assert_eq!(r.table_name, "unknown");
    assert!(r.metadata.is_empty());
    assert_eq!((r.worker_id, r.shard_id), (None, None));
    let values = texts(&["x"]);
    let q = Row::from((values.as_slice(), "orders"));
    assert_eq!(q.values, values);
    assert_eq!(q.table_name, "orders");
    assert!(q.metadata.is_empty());
}
