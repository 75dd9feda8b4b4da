use consul::lock::AcquireStep;
use consul::{DistributedLock, KVPair, Kind, MemStore, Response, WatchEvent, Watcher};

#[test]
fn watcher_starts_at_zero_and_tracks_index() {
    let mut w = Watcher::new(10);
    assert_eq!(w.last_index(), 0);
    let o = w.options(Some("dc1".into()));
    assert_eq!(o.wait_index, Some(0));
    assert_eq!(o.wait_time, Some(10));
    assert_eq!(o.datacenter, Some("dc1".into()));
    assert_eq!(w.observe(5), WatchEvent::Changed);
    assert_eq!(w.observe(5), WatchEvent::Unchanged);
    assert_eq!(w.observe(3), WatchEvent::Reset);
    assert_eq!(w.last_index(), 3);
    assert_eq!(w.observe(4), WatchEvent::Changed);
}

#[test]
fn watcher_step_needs_index() {
    let mut w = Watcher::new(10);
    let resp = Response { status: 200, index: None, body: "[]".into() };
    let e = w.step(&resp, Ok(vec![])).unwrap_err();
    assert!(matches!(e.kind(), Kind::MissingIndex));
    assert_eq!(w.last_index(), 0);
}

#[test]
fn watcher_step_reports_change_and_entry() {
    let mut w = Watcher::new(10);
    let p = KVPair { key: "k".into(), value: "v".into(), ..Default::default() };
    let resp = Response { status: 200, index: Some(9), body: "[..]".into() };
    let (event, entry) = w.step(&resp, Ok(vec![p.clone()])).unwrap();
    assert_eq!(event, WatchEvent::Changed);
    assert_eq!(entry, Some(p));
    assert_eq!(w.last_index(), 9);
    let failed = Response { status: 500, index: Some(11), body: "x".into() };
    assert!(w.step(&failed, Ok(vec![])).is_err());
    assert_eq!(w.last_index(), 9);
}

#[test]
fn lock_waits_for_holder_then_acquires() {
    let mut store = MemStore::new();
    let s1 = store.create_session();
    let s2 = store.create_session();
    let mut mine = DistributedLock::new("lock/a".into(), "held".into(), true, 10);
    let theirs = DistributedLock::new("lock/a".into(), "held".into(), true, 10);

    assert!(store.acquire(&theirs.pair(Some(s1.clone()))).unwrap());
    let accepted = store.acquire(&mine.pair(Some(s2.clone()))).unwrap();
    let opts = match mine.on_acquire(accepted) {
        AcquireStep::Wait(o) => o,
        _ => panic!("a blocking lock waits"),
    };
    assert_eq!(opts.wait_index, Some(0));
    assert!(!mine.is_held());

    let (entry, idx) = store.poll("lock/a", 0).unwrap();
    let resp = Response { status: 200, index: Some(idx), body: "[..]".into() };
    assert_eq!(mine.on_wake(&resp, Ok(entry.into_iter().collect())).unwrap(), false);
    assert!(store.poll("lock/a", idx).is_none());

    assert!(store.release(&theirs.pair(Some(s1.clone()))).unwrap());
    let (entry, idx2) = store.poll("lock/a", mine.wait_options().wait_index.unwrap()).unwrap();
    assert!(idx2 > idx);
    let resp = Response { status: 200, index: Some(idx2), body: "[..]".into() };
    assert_eq!(mine.on_wake(&resp, Ok(entry.into_iter().collect())).unwrap(), true);
    let accepted = store.acquire(&mine.pair(Some(s2.clone()))).unwrap();
    assert!(matches!(mine.on_acquire(accepted), AcquireStep::Acquired));
    assert!(mine.is_held());

    mine.on_session_lost();
    assert!(!mine.is_held());
}

#[test]
fn lock_without_blocking_is_contended() {
    let mut lock = DistributedLock::new("k".into(), "v".into(), false, 10);
    assert!(matches!(lock.on_acquire(false), AcquireStep::Contended));
    assert!(matches!(lock.on_acquire(true), AcquireStep::Acquired));
    lock.on_release(false);
    assert!(lock.is_held());
    lock.on_release(true);
    assert!(!lock.is_held());
}

#[test]
fn lock_pair_carries_key_value_session() {
    let lock = DistributedLock::new("k".into(), "v".into(), false, 10);
    let p = lock.pair(Some("s".into()));
    assert_eq!(p.key, "k");
    assert_eq!(p.value, "v");
    assert_eq!(p.session, Some("s".into()));
    assert_eq!(lock.pair(None).session, None);
}

#[test]
fn on_wake_passes_errors_on() {
    let mut lock = DistributedLock::new("k".into(), "v".into(), true, 10);
    let no_index = Response { status: 200, index: None, body: "[]".into() };
    assert!(matches!(lock.on_wake(&no_index, Ok(vec![])).unwrap_err().kind(), Kind::MissingIndex));
    let failed = Response { status: 503, index: Some(4), body: "busy".into() };
    let e = lock.on_wake(&failed, Ok(vec![])).unwrap_err();
    assert!(matches!(e.kind(), Kind::UnexpectedResponse));
    assert_eq!(e.source_text().unwrap(), "busy");
    assert_eq!(lock.wait_options().wait_index, Some(0));
}
