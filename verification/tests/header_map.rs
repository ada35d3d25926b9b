use mail_report::headers::HeaderMap;

#[test]
fn get_on_absent_key_returns_na_sentinel() {
    let map = HeaderMap::new();
    let got = map.get("From");
    assert_eq!(got, "NA");
    assert_ne!(got, "");
}

#[test]
fn insert_then_get_returns_value() {
    let mut map = HeaderMap::new();
    let prev = map.insert("Subject".to_string(), "hello".to_string());
    assert_eq!(prev, None);
    assert_eq!(map.get("Subject"), "hello");
}

#[test]
fn insert_same_key_twice_keeps_second_value() {
    let mut map = HeaderMap::new();
    assert_eq!(map.insert("From".to_string(), "first@a.example".to_string()), None);
    let prev = map.insert("From".to_string(), "second@b.example".to_string());
    assert_eq!(prev, Some("first@a.example".to_string()));
    assert_eq!(map.get("From"), "second@b.example");
    assert_eq!(map.len(), 1);
}

#[test]
fn keys_are_case_sensitive() {
    let mut map = HeaderMap::new();
    map.insert("From".to_string(), "x".to_string());
    assert_eq!(map.get("from"), "NA");
    assert_eq!(map.get("From"), "x");
}

#[test]
fn insertion_order_is_kept() {
    let mut map = HeaderMap::new();
    map.insert("A".to_string(), "1".to_string());
    map.insert("B".to_string(), "2".to_string());
    map.insert("A".to_string(), "3".to_string());
    let entries = map.entries();
    assert_eq!(entries.len(), 2);
    assert_eq!(entries[0].name, "A");
    assert_eq!(entries[0].value, "3");
    assert_eq!(entries[1].name, "B");
    assert_eq!(entries[1].value, "2");
}
