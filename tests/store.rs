use relay::record::Record;
use relay::store::{BackendError, SessionStore, StoreError};

fn record_with(members: &[(&str, &str)]) -> Record {
    let mut r = Record::new();
    for (k, v) in members {
        r.insert((*k).to_owned(), (*v).to_owned());
    }
    r
}

#[test]
fn record_insert_replaces_or_appends() {
    let mut r = record_with(&[("a", "1"), ("b", "\"x\"")]);
    r.insert("a".to_owned(), "2".to_owned());
    r.insert("c".to_owned(), "null".to_owned());
    assert_eq!(r.get("a").as_deref(), Some("2"));
    assert_eq!(r.get("b").as_deref(), Some("\"x\""));
    assert_eq!(r.get("c").as_deref(), Some("null"));
    assert_eq!(r.get("d"), None);
    assert_eq!(r.to_json(), "{\"a\":2,\"b\":\"x\",\"c\":null}");
}

#[test]
fn empty_record_json() {
    assert_eq!(Record::new().to_json(), "{}");
}

#[test]
fn record_parse_keeps_member_texts() {
    let r = Record::parse("{\"token\": {\"a\": 1}, \"other\": \"x\"}").unwrap();
    assert_eq!(r.get("other").as_deref(), Some("\"x\""));
    assert_eq!(r.get("token").as_deref(), Some("{\"a\":1}"));
    assert!(Record::parse("[]").is_none());
    assert!(Record::parse("{").is_none());
}

#[test]
fn record_copy_is_equal() {
    let r = record_with(&[("x", "1"), ("y", "2")]);
    assert_eq!(r.duplicate().to_json(), r.to_json());
}

#[test]
fn set_then_get_returns_record() {
    let mut s = SessionStore::new();
    let r = record_with(&[("token", "{}"), ("other", "\"x\"")]);
    let w = s.set("k1".to_owned(), r.duplicate(), 60);
    assert_eq!(w.key, "k1");
    assert_eq!(w.ttl_secs, 60);
    assert_eq!(w.text, "{\"token\":{},\"other\":\"x\"}");
    let got = s.get("k1").unwrap();
    assert_eq!(got.to_json(), r.to_json());
    assert!(s.get("k2").is_none());
}

#[test]
fn set_overwrites_previous_record() {
    let mut s = SessionStore::new();
    s.set("k".to_owned(), record_with(&[("a", "1")]), 10);
    s.set("k".to_owned(), record_with(&[("a", "2")]), 10);
    assert_eq!(s.get("k").unwrap().to_json(), "{\"a\":2}");
}

#[test]
fn remove_then_get_is_absent() {
    let mut s = SessionStore::new();
    s.set("k".to_owned(), record_with(&[("a", "1")]), 10);
    s.set("j".to_owned(), record_with(&[("b", "2")]), 10);
    s.remove("k");
    assert!(s.get("k").is_none());
    assert!(s.get("j").is_some());
    s.remove("k");
    s.remove("never");
    assert!(s.get("k").is_none());
    assert_eq!(s.load("k", Ok(None)).unwrap().map(|r| r.to_json()), None);
}

#[test]
fn load_reports_backend_and_parse_failures() {
    let mut s = SessionStore::new();
    assert!(matches!(s.load("k", Err(BackendError)), Err(StoreError::Backend)));
    assert!(matches!(s.load("k", Ok(Some("garbage".to_owned()))), Err(StoreError::Deserialization)));
    assert!(s.get("k").is_none());
}

#[test]
fn load_caches_what_it_read() {
    let mut s = SessionStore::new();
    let got = s.load("k", Ok(Some("{\"token\":1}".to_owned()))).unwrap().unwrap();
    assert_eq!(got.to_json(), "{\"token\":1}");
    assert_eq!(s.get("k").unwrap().to_json(), "{\"token\":1}");
}
