use exists_map::ExistsMap;

#[test]
fn test_exists_map_basic() {
    let mut exists_map = ExistsMap::<i32, i32>::with_seed(fastrand::usize(..));

    for i in 50..=100 {
        exists_map.insert(i, i);
    }
    assert!(exists_map.contains(&50));
    assert!(exists_map.contains(&75));
    assert!(exists_map.contains(&100));
    let val = exists_map.get(&50).unwrap();
    assert_eq!(*val, 50);
    let val = exists_map.get(&75).unwrap();
    assert_eq!(*val, 75);
    let val = exists_map.get(&100).unwrap();
    assert_eq!(*val, 100);

    assert_eq!(None, exists_map.get(&-1));
    assert_eq!(None, exists_map.get(&0));
    assert_eq!(None, exists_map.get(&49));
    assert_eq!(None, exists_map.get(&101));

    let val = exists_map.remove(&50).unwrap();
    assert_eq!(val, 50);
    assert_eq!(None, exists_map.get(&50));
    assert!(!exists_map.contains(&50));
    let val = exists_map.remove(&75).unwrap();
    assert_eq!(val, 75);
    assert_eq!(None, exists_map.get(&75));
    assert!(!exists_map.contains(&75));
    let val = exists_map.remove(&100).unwrap();
    assert_eq!(val, 100);
    assert_eq!(None, exists_map.get(&100));
    assert!(!exists_map.contains(&100));
}

#[test]
fn test_exists_map_string() {
    let mut exists_map = ExistsMap::<String, String>::with_seed(fastrand::usize(..));

    exists_map.insert("hello".into(), "hello".into());
    exists_map.insert("world".into(), "world".into());
    exists_map.insert("foo".into(), "foo".into());

    let hello = "hello".to_string();
    assert!(exists_map.contains(&hello));
    assert!(exists_map.contains(hello.as_str()));

    assert!(exists_map.contains("hello"));
    assert!(exists_map.contains("world"));
    assert!(exists_map.contains("foo"));
    let val = exists_map.get(&"hello".into()).unwrap();
    assert_eq!(val, "hello");
    let val = exists_map.get(&"world".into()).unwrap();
    assert_eq!(val, "world");
    let val = exists_map.get(&"foo".into()).unwrap();
    assert_eq!(val, "foo");

    assert_eq!(None, exists_map.get(&"baz".into()));
    assert!(!exists_map.contains("baz"));
    assert_eq!(None, exists_map.get(&"bar".into()));
    assert!(!exists_map.contains("bar"));
    assert_eq!(None, exists_map.get(&"frank".into()));
    assert!(!exists_map.contains("frank"));
    assert_eq!(None, exists_map.get(&"larry".into()));
    assert!(!exists_map.contains("larry"));

    let val = exists_map.remove("hello").unwrap();
    assert_eq!(val, "hello");
    assert_eq!(None, exists_map.get(&"hello".into()));
    assert!(!exists_map.contains("hello"));
    let val = exists_map.remove("world").unwrap();
    assert_eq!(val, "world");
    assert_eq!(None, exists_map.get(&"world".into()));
    assert!(!exists_map.contains("world"));
    let val = exists_map.remove("foo").unwrap();
    assert_eq!(val, "foo");
    assert_eq!(None, exists_map.get(&"foo".into()));
    assert!(!exists_map.contains("foo"));
}

#[test]
fn integer_keys_with_a_fixed_seed() {
    let mut m = ExistsMap::<i32, i32>::with_seed(7);
    for i in 50..=100 {
        assert_eq!(m.insert(i, i), None);
    }
    assert!(m.contains(&50));
    assert!(m.contains(&75));
    assert!(m.contains(&100));
    assert_eq!(m.get(&50), Some(&50));
    assert_eq!(m.get(&49), None);
    assert_eq!(m.get(&101), None);
    assert_eq!(m.get(&-1), None);
    assert_eq!(m.get(&0), None);
    assert_eq!(m.remove(&50), Some(50));
    assert_eq!(m.get(&50), None);
    assert!(!m.contains(&50));
    assert!(m.contains(&51));
}

#[test]
fn text_keys_stay_until_their_own_removal() {
    let mut m = ExistsMap::<String, String>::with_seed(11);
    m.insert("hello".to_string(), "hello".to_string());
    m.insert("world".to_string(), "world".to_string());
    m.insert("foo".to_string(), "foo".to_string());

    assert_eq!(m.remove("hello"), Some("hello".to_string()));
    assert!(!m.contains("hello"));
    assert!(m.contains("world"));
    assert!(m.contains("foo"));

    assert_eq!(m.remove("world"), Some("world".to_string()));
    assert!(!m.contains("world"));
    assert_eq!(m.get(&"foo".to_string()), Some(&"foo".to_string()));

    assert_eq!(m.remove("foo"), Some("foo".to_string()));
    assert!(!m.contains("foo"));
    assert_eq!(m.get(&"foo".to_string()), None);
}

#[test]
fn every_inserted_key_is_found_with_its_value() {
    let mut m = ExistsMap::<u64, String>::new();
    let keys: Vec<u64> = vec![0, 1, 2, 255, 256, 65_536, u64::MAX];
    for k in keys.iter() {
        assert_eq!(m.insert(*k, format!("v{}", k)), None);
    }
    for k in keys.iter() {
        assert_eq!(m.get(k), Some(&format!("v{}", k)));
        assert!(m.contains(k));
    }
}

#[test]
fn a_key_never_inserted_is_absent() {
    let mut m = ExistsMap::<u32, u8>::with_seed(3);
    assert_eq!(m.get(&9), None);
    assert!(!m.contains(&9));
    assert_eq!(m.remove(&9), None);
    m.insert(1, 10);
    m.insert(2, 20);
    assert_eq!(m.get(&9), None);
    assert!(!m.contains(&9));
    assert_eq!(m.remove(&9), None);
    assert_eq!(m.get(&1), Some(&10));
    assert_eq!(m.get(&2), Some(&20));
}

#[test]
fn second_insert_returns_first_value() {
    let mut m = ExistsMap::<i64, &'static str>::default();
    assert_eq!(m.insert(-4, "first"), None);
    assert_eq!(m.insert(-4, "second"), Some("first"));
    assert_eq!(m.get(&-4), Some(&"second"));
}

#[test]
fn second_remove_returns_nothing() {
    let mut m = ExistsMap::<String, i32>::with_seed(5);
    m.insert("k".to_string(), 1);
    assert_eq!(m.remove("k"), Some(1));
    assert_eq!(m.get(&"k".to_string()), None);
    assert!(!m.contains("k"));
    assert_eq!(m.remove("k"), None);
    assert_eq!(m.remove(&"k".to_string()), None);
}

#[test]
fn owned_and_borrowed_text_agree() {
    let mut m = ExistsMap::<String, ()>::new();
    let stored = ["", "a", "hello", "gr\u{fc}\u{df}e", "\u{65e5}\u{672c}\u{8a9e}"];
    let missing = ["b", "hell", "hello ", "Hello"];
    for s in stored.iter() {
        m.insert(s.to_string(), ());
    }
    for s in stored.iter() {
        let owned = s.to_string();
        assert!(m.contains(&owned));
        assert!(m.contains(*s));
        assert_eq!(m.contains(&owned), m.contains(owned.as_str()));
    }
    for s in missing.iter() {
        let owned = s.to_string();
        assert!(!m.contains(&owned));
        assert!(!m.contains(*s));
    }
}

#[test]
fn a_clone_answers_alike_and_is_independent() {
    let mut m = ExistsMap::<i32, i32>::with_seed(1);
    m.insert(1, 100);
    m.insert(2, 200);
    let mut copy = m.clone();
    assert_eq!(copy.get(&1), Some(&100));
    assert_eq!(copy.get(&2), Some(&200));
    assert_eq!(copy.get(&3), None);
    assert_eq!(copy.remove(&1), Some(100));
    assert!(!copy.contains(&1));
    assert!(m.contains(&1));
}

#[test]
fn new_and_default_maps_are_empty() {
    let m = ExistsMap::<i32, i32>::new();
    let d = ExistsMap::<i32, i32>::default();
    let s = ExistsMap::<i32, i32>::with_seed(0);
    for k in [-1, 0, 1, i32::MIN, i32::MAX] {
        assert!(!m.contains(&k));
        assert!(!d.contains(&k));
        assert!(!s.contains(&k));
        assert_eq!(m.get(&k), None);
    }
}
