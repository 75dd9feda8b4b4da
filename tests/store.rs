use consul::{Client, Config, KVPair, Kind, MemStore, Method};

fn pair(key: &str, value: &str) -> KVPair {
    KVPair { key: key.to_string(), value: value.to_string(), ..Default::default() }
}

fn locked(key: &str, value: &str, session: &str) -> KVPair {
    KVPair { session: Some(session.to_string()), ..pair(key, value) }
}

#[test]
fn put_then_get_round_trips_value_and_flags() {
    let mut store = MemStore::new();
    let p = KVPair { flags: Some(42), ..pair("app/config", "bytes \u{0} and \u{e9}") };
    assert!(store.put(&p));
    let got = store.get("app/config").unwrap();
    assert_eq!(got.value, "bytes \u{0} and \u{e9}");
    assert_eq!(got.flags, Some(42));
    assert_eq!(got.key, "app/config");
    assert_eq!(got.session, None);
}

#[test]
fn put_overwrites_value_and_flags() {
    let mut store = MemStore::new();
    assert!(store.put(&KVPair { flags: Some(1), ..pair("k", "one") }));
    assert!(store.put(&KVPair { flags: Some(7), ..pair("k", "two") }));
    let got = store.get("k").unwrap();
    assert_eq!(got.value, "two");
    assert_eq!(got.flags, Some(7));
    assert_eq!(store.list("").len(), 1);
}

#[test]
fn absent_flags_read_back_as_zero() {
    let mut store = MemStore::new();
    assert!(store.put(&pair("k", "v")));
    assert_eq!(store.get("k").unwrap().flags, Some(0));
}

#[test]
fn get_of_absent_key_is_none() {
    let store = MemStore::new();
    assert!(store.get("missing").is_none());
}

#[test]
fn delete_twice_succeeds_and_key_is_gone() {
    let mut store = MemStore::new();
    assert!(store.put(&pair("k", "v")));
    assert!(store.delete("k"));
    assert!(store.delete("k"));
    assert!(store.get("k").is_none());
}

#[test]
fn delete_of_absent_key_succeeds() {
    let mut store = MemStore::new();
    assert!(store.delete("never-written"));
}

#[test]
fn modify_index_never_decreases_over_writes() {
    let mut store = MemStore::new();
    let mut last = 0u64;
    for i in 0..10 {
        assert!(store.put(&pair("counter", &i.to_string())));
        let got = store.get("counter").unwrap();
        let idx = got.modifyindex.unwrap();
        assert!(idx >= last);
        assert!(idx > last);
        assert!(got.modifyindex.unwrap() >= got.createindex.unwrap());
        last = idx;
    }
    assert_eq!(store.get("counter").unwrap().createindex, Some(1));
    assert_eq!(last, 10);
}

#[test]
fn lock_scenario_two_sessions() {
    let mut store = MemStore::new();
    let s1 = store.create_session();
    let s2 = store.create_session();
    assert_ne!(s1, s2);
    assert_eq!(store.acquire(&locked("lock/a", "held", &s1)).unwrap(), true);
    assert_eq!(store.acquire(&locked("lock/a", "held", &s2)).unwrap(), false);
    assert_eq!(store.release(&locked("lock/a", "held", &s1)).unwrap(), true);
    assert_eq!(store.acquire(&locked("lock/a", "held", &s2)).unwrap(), true);
    assert_eq!(store.get("lock/a").unwrap().session, Some(s2));
}

#[test]
fn lock_is_exclusive_until_released() {
    let mut store = MemStore::new();
    let s1 = store.create_session();
    let s2 = store.create_session();
    assert!(store.acquire(&locked("k", "a", &s1)).unwrap());
    assert!(!store.release(&locked("k", "b", &s2)).unwrap());
    assert!(store.put(&pair("k", "plain write")));
    assert!(!store.acquire(&locked("k", "c", &s2)).unwrap());
    let got = store.get("k").unwrap();
    assert_eq!(got.session, Some(s1.clone()));
    assert_eq!(got.value, "plain write");
    assert_eq!(got.lockindex, Some(1));
}

#[test]
fn lock_is_freed_when_holder_session_ends() {
    let mut store = MemStore::new();
    let s1 = store.create_session();
    let s2 = store.create_session();
    assert!(store.acquire(&locked("k", "a", &s1)).unwrap());
    assert!(store.destroy_session(&s1));
    assert!(!store.renew_session(&s1));
    assert_eq!(store.get("k").unwrap().session, None);
    assert!(store.acquire(&locked("k", "b", &s2)).unwrap());
    assert_eq!(store.get("k").unwrap().lockindex, Some(2));
}

#[test]
fn acquire_by_unknown_session_is_refused() {
    let mut store = MemStore::new();
    assert!(!store.acquire(&locked("k", "v", "no-such-session")).unwrap());
    assert!(store.get("k").is_none());
}

#[test]
fn lock_calls_without_session_fail() {
    let mut store = MemStore::new();
    let e = store.acquire(&pair("k", "v")).unwrap_err();
    assert!(matches!(e.kind(), Kind::MissingSessionFlag));
    let e = store.release(&pair("k", "v")).unwrap_err();
    assert!(matches!(e.kind(), Kind::MissingSessionFlag));
}

#[test]
fn reacquire_by_holder_keeps_lock_index() {
    let mut store = MemStore::new();
    let s1 = store.create_session();
    assert!(store.acquire(&locked("k", "a", &s1)).unwrap());
    assert!(store.acquire(&locked("k", "b", &s1)).unwrap());
    let got = store.get("k").unwrap();
    assert_eq!(got.lockindex, Some(1));
    assert_eq!(got.value, "b");
}

#[test]
fn list_scenario_prefix() {
    let mut store = MemStore::new();
    assert!(store.list("").is_empty());
    assert!(store.put(&pair("a/1", "x")));
    assert!(store.put(&pair("a/2", "y")));
    let listed = store.list("a");
    assert_eq!(listed.len(), 2);
    assert_eq!(listed[0].key, "a/1");
    assert_eq!(listed[1].key, "a/2");
    assert_eq!(listed[0].value, "x");
    assert_eq!(listed[1].value, "y");
}

#[test]
fn list_skips_other_prefixes() {
    let mut store = MemStore::new();
    assert!(store.put(&pair("a/1", "x")));
    assert!(store.put(&pair("b/1", "y")));
    assert!(store.put(&pair("ab", "z")));
    let listed = store.list("a/");
    assert_eq!(listed.len(), 1);
    assert_eq!(listed[0].key, "a/1");
    assert_eq!(store.list("a").len(), 2);
    assert_eq!(store.list("").len(), 3);
    assert!(store.list("c").is_empty());
}

#[test]
fn blocking_read_waits_then_wakes_on_write() {
    let mut store = MemStore::new();
    assert!(store.put(&pair("watched", "v1")));
    let (first, idx) = store.poll("watched", 0).unwrap();
    assert_eq!(first.unwrap().value, "v1");
    assert!(store.poll("watched", idx).is_none());
    assert!(store.put(&pair("other", "x")));
    assert!(store.poll("watched", idx).is_none());
    assert!(store.put(&pair("watched", "v2")));
    let (second, idx2) = store.poll("watched", idx).unwrap();
    assert!(idx2 > idx);
    assert_eq!(second.unwrap().value, "v2");
}

#[test]
fn blocking_read_of_absent_key_uses_store_index() {
    let mut store = MemStore::new();
    assert!(store.poll("nothing", 0).is_some());
    assert!(store.poll("nothing", 5).is_none());
    assert!(store.put(&pair("x", "1")));
    let (entry, idx) = store.poll("nothing", 0).unwrap();
    assert!(entry.is_none());
    assert_eq!(idx, 1);
}

#[test]
fn kv_test() {
    let client = Client::new(Config::new());
    let mut store = MemStore::new();

    assert_eq!(client.list_entries("", &None).path, "/v1/kv/");
    assert!(store.list("").is_empty());

    let p = pair("testkey", "testvalue");
    let put = client.put_entry(&p, &None);
    assert_eq!(put.method, Method::Put);
    assert_eq!(put.path, "/v1/kv/testkey");
    assert!(store.put(&p));

    assert_eq!(client.get_entry("testkey", &None).path, "/v1/kv/testkey");
    assert_eq!(store.get("testkey").unwrap().value, "testvalue");

    assert!(!store.list("t").is_empty());

    assert_eq!(client.delete_entry("testkey", &None).method, Method::Delete);
    assert!(store.delete("testkey"));
    assert!(store.list("").is_empty());

    let raw = pair("testkeyraw", "testvalue");
    assert!(store.put(&raw));
    assert_eq!(store.get("testkeyraw").unwrap().value, "testvalue");
}

#[test]
fn created_sessions_are_distinct_and_counted() {
    let mut store = MemStore::new();
    assert_eq!(store.session_counter(), 0);
    let a = store.create_session();
    let b = store.create_session();
    let c = store.create_session();
    assert_eq!(a, "session-1");
    assert_eq!(b, "session-2");
    assert_eq!(c, "session-3");
    assert_eq!(store.session_counter(), 3);
    assert!(store.destroy_session(&b));
    let d = store.create_session();
    assert_eq!(d, "session-4");
    assert!(store.renew_session(&a) && store.renew_session(&c) && store.renew_session(&d));
    assert!(!store.renew_session(&b));
}
