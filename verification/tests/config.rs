use maa_roguelike::{ConfigurationMap, Value};

#[test]
fn new_map_is_empty() {
    let map = ConfigurationMap::new();
    assert_eq!(map.len(), 0);
    assert!(map.is_empty());
    assert!(map.get("mode").is_none());
    assert!(!map.contains_key("mode"));
    assert!(!map.contains_key(""));
}

#[test]
fn insert_adds_new_keys_at_the_end() {
    let mut map = ConfigurationMap::new();
    map.insert("mode", Value::Int(4));
    map.insert("theme", Value::Text("Sami".to_string()));
    map.insert("", Value::Bool(true));
    assert_eq!(map.len(), 3);
    assert!(!map.is_empty());
    assert_eq!(map.key_at(0), "mode");
    assert_eq!(map.key_at(1), "theme");
    assert_eq!(map.key_at(2), "");
    assert_eq!(map.value_at(0), &Value::Int(4));
    assert_eq!(map.value_at(1), &Value::Text("Sami".to_string()));
    assert_eq!(map.value_at(2), &Value::Bool(true));
    assert_eq!(map.get("mode"), Some(&Value::Int(4)));
    assert_eq!(map.get("theme"), Some(&Value::Text("Sami".to_string())));
    assert_eq!(map.get(""), Some(&Value::Bool(true)));
    assert!(map.get("Mode").is_none());
    assert!(map.get("mod").is_none());
    assert!(map.contains_key("theme"));
    assert!(!map.contains_key("themes"));
}

#[test]
fn insert_replaces_in_place() {
    let mut map = ConfigurationMap::new();
    map.insert("a", Value::Int(1));
    map.insert("b", Value::Int(2));
    map.insert("c", Value::Int(3));
    map.insert("b", Value::List(vec!["x".to_string()]));
    assert_eq!(map.len(), 3);
    assert_eq!(map.key_at(0), "a");
    assert_eq!(map.key_at(1), "b");
    assert_eq!(map.key_at(2), "c");
    assert_eq!(map.get("b"), Some(&Value::List(vec!["x".to_string()])));
    assert_eq!(map.get("a"), Some(&Value::Int(1)));
    assert_eq!(map.get("c"), Some(&Value::Int(3)));
    map.insert("a", Value::Int(1));
    assert_eq!(map.len(), 3);
}

#[test]
fn no_key_occurs_twice() {
    let mut map = ConfigurationMap::new();
    for round in 0..3 {
        for key in ["x", "y", "z", "x", "y"] {
            map.insert(key, Value::Int(round));
        }
    }
    assert_eq!(map.len(), 3);
    for i in 0..map.len() {
        for j in 0..map.len() {
            assert_eq!(i == j, map.key_at(i) == map.key_at(j));
        }
        assert_eq!(map.value_at(i), &Value::Int(2));
    }
}

#[test]
fn maps_nest() {
    let mut inner = ConfigurationMap::new();
    inner.insert("hope", Value::Bool(true));
    let mut map = ConfigurationMap::new();
    map.insert("list", Value::Object(inner));
    match map.get("list") {
        Some(Value::Object(found)) => {
            assert_eq!(found.len(), 1);
            assert_eq!(found.get("hope"), Some(&Value::Bool(true)));
            assert!(found.get("list").is_none());
        }
        other => panic!("{:?}", other),
    }
}

#[test]
fn equal_maps_hold_equal_entries_in_order() {
    let build = |keys: &[&str]| {
        let mut map = ConfigurationMap::new();
        for key in keys {
            map.insert(key, Value::Bool(true));
        }
        map
    };
    assert_eq!(build(&["a", "b"]), build(&["a", "b"]));
    assert_ne!(build(&["a", "b"]), build(&["b", "a"]));
    assert_ne!(build(&["a", "b"]), build(&["a"]));
    assert_ne!(Value::Int(1), Value::Bool(true));
    assert_ne!(Value::Text("1".to_string()), Value::Int(1));
}

#[test]
fn a_clone_holds_the_same_entries() {
    let mut inner = ConfigurationMap::new();
    inner.insert("hope", Value::Bool(true));
    inner.insert("ideas", Value::Bool(true));
    let mut map = ConfigurationMap::new();
    map.insert("mode", Value::Int(4));
    map.insert("theme", Value::Text("Sami".to_string()));
    map.insert("list", Value::List(vec!["a".to_string(), "b".to_string()]));
    map.insert("awards", Value::Object(inner));
    let copy = map.clone();
    assert_eq!(copy, map);
    assert_eq!(copy.len(), 4);
    assert_eq!(copy.key_at(3), "awards");
    let mut changed = map.clone();
    changed.insert("mode", Value::Int(5));
    assert_ne!(changed, map);
    assert_eq!(map.get("mode"), Some(&Value::Int(4)));
    assert_eq!(Value::Int(7).clone(), Value::Int(7));
    assert_eq!(Value::Bool(false).clone(), Value::Bool(false));
    assert_eq!(ConfigurationMap::new().clone(), ConfigurationMap::new());
}
