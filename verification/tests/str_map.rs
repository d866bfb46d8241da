use distsql::str_map::{copy_of_strings, StrMap};

#[test]
fn a_new_map_is_empty() {
    let m: StrMap<u32> = StrMap::new();
    assert_eq!(m.len(), 0);
    assert!(m.is_empty());
    assert!(m.get("a").is_none());
    assert!(!m.contains_key("a"));
    assert_eq!(m.position("a"), None);
}

#[test]
fn insert_then_get() {
    let mut m: StrMap<u32> = StrMap::new();
    assert_eq!(m.insert("a".to_string(), 1), None);
    assert_eq!(m.insert("b".to_string(), 2), None);
    assert_eq!(m.len(), 2);
    assert!(!m.is_empty());
    assert_eq!(m.get("a"), Some(&1));
    assert_eq!(m.get("b"), Some(&2));
    assert_eq!(m.get("c"), None);
    assert!(m.contains_key("b"));
    assert_eq!(m.position("b"), Some(1));
}

#[test]
fn insert_of_a_known_key_replaces_in_place() {
    let mut m: StrMap<u32> = StrMap::new();
    m.insert("a".to_string(), 1);
    m.insert("b".to_string(), 2);
    assert_eq!(m.insert("a".to_string(), 10), Some(1));
    assert_eq!(m.len(), 2);
    assert_eq!(m.get("a"), Some(&10));
    assert_eq!(m.key_at(0), "a");
    assert_eq!(m.key_at(1), "b");
    assert_eq!(*m.value_at(0), 10);
    assert_eq!(*m.value_at(1), 2);
}

#[test]
fn replace_at_hands_back_the_old_value() {
    let mut m: StrMap<String> = StrMap::new();
    m.insert("a".to_string(), "x".to_string());
    m.insert("b".to_string(), "y".to_string());
    assert_eq!(m.replace_at(1, "z".to_string()), "y");
    assert_eq!(m.get("b"), Some(&"z".to_string()));
    assert_eq!(m.get("a"), Some(&"x".to_string()));
    assert_eq!(m.len(), 2);
}

#[test]
fn remove_takes_the_entry_out() {
    let mut m: StrMap<u32> = StrMap::new();
    m.insert("a".to_string(), 1);
    m.insert("b".to_string(), 2);
    m.insert("c".to_string(), 3);
    assert_eq!(m.remove("b"), Some(2));
    assert_eq!(m.remove("b"), None);
    assert_eq!(m.len(), 2);
    assert_eq!(m.key_at(0), "a");
    assert_eq!(m.key_at(1), "c");
    assert_eq!(m.get("c"), Some(&3));
    m.clear();
    assert!(m.is_empty());
    assert_eq!(m.get("a"), None);
}

#[test]
fn absorb_prefers_the_newcomer() {
    let mut m: StrMap<u32> = StrMap::new();
    m.insert("a".to_string(), 1);
    m.insert("b".to_string(), 2);
    let mut other: StrMap<u32> = StrMap::new();
    other.insert("b".to_string(), 20);
    other.insert("c".to_string(), 30);
    m.absorb(other);
    assert_eq!(m.len(), 3);
    assert_eq!(m.get("a"), Some(&1));
    assert_eq!(m.get("b"), Some(&20));
    assert_eq!(m.get("c"), Some(&30));
}

#[test]
fn a_clone_holds_the_same() {
    let mut m: StrMap<String> = StrMap::new();
    m.insert("a".to_string(), "x".to_string());
    m.insert("b".to_string(), "y".to_string());
    let c = m.clone();
    let d = copy_of_strings(&m);
    m.insert("a".to_string(), "changed".to_string());
    for copy in [&c, &d] {
        assert_eq!(copy.len(), 2);
        assert_eq!(copy.key_at(0), "a");
        assert_eq!(copy.get("a"), Some(&"x".to_string()));
        assert_eq!(copy.get("b"), Some(&"y".to_string()));
    }
}

#[test]
fn keys_are_compared_by_their_characters() {
    let mut m: StrMap<u32> = StrMap::new();
    m.insert("Key".to_string(), 1);
    assert_eq!(m.get("key"), None);
    assert_eq!(m.get("Key "), None);
    assert_eq!(m.get(""), None);
    m.insert("".to_string(), 2);
    assert_eq!(m.get(""), Some(&2));
}
