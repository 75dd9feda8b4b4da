use consul::kv::{entries_response, entry_response};
use consul::{Body, Client, Config, KVPair, Kind, Method, QueryOptions, Response};

fn client() -> Client {
    Client::new(Config::new())
}

fn params(v: &[(&str, &str)]) -> Vec<(String, String)> {
    v.iter().map(|(a, b)| (a.to_string(), b.to_string())).collect()
}

fn ok(body: &str) -> Response {
    Response { status: 200, index: Some(7), body: body.to_string() }
}

#[test]
fn get_entry_builds_path_and_wait_params() {
    let opts = Some(QueryOptions {
        datacenter: Some("dc2".to_string()),
        wait_index: Some(12),
        wait_time: Some(10),
        filter: None,
    });
    let r = client().get_entry("foo/bar", &opts);
    assert_eq!(r.method, Method::Get);
    assert_eq!(r.path, "/v1/kv/foo/bar");
    assert_eq!(r.params, params(&[("dc", "dc2"), ("index", "12"), ("wait", "10s")]));
    assert!(matches!(r.body, Body::Empty));
}

#[test]
fn client_datacenter_is_the_default() {
    let mut config = Config::new();
    config.datacenter = Some("east".to_string());
    let c = Client::new(config);
    let r = c.get_entry("k", &None);
    assert_eq!(r.params, params(&[("dc", "east")]));
    let opts = Some(QueryOptions { datacenter: Some("west".to_string()), ..Default::default() });
    assert_eq!(c.get_entry("k", &opts).params, params(&[("dc", "west")]));
}

#[test]
fn list_entries_asks_for_recursion() {
    let r = client().list_entries("a", &None);
    assert_eq!(r.path, "/v1/kv/a");
    assert_eq!(r.params, params(&[("recurse", "")]));
}

#[test]
fn put_entry_sends_value_and_nonzero_flags() {
    let p = KVPair { key: "k".into(), value: "v".into(), flags: Some(5), ..Default::default() };
    let r = client().put_entry(&p, &None);
    assert_eq!(r.method, Method::Put);
    assert_eq!(r.params, params(&[("flags", "5")]));
    match r.body {
        Body::Raw(b) => assert_eq!(b, "v"),
        _ => panic!("expected a raw body"),
    }
    let zero = KVPair { flags: Some(0), ..p };
    assert!(client().put_entry(&zero, &None).params.is_empty());
}

#[test]
fn delete_entry_uses_delete() {
    let r = client().delete_entry("gone", &None);
    assert_eq!(r.method, Method::Delete);
    assert_eq!(r.path, "/v1/kv/gone");
}

#[test]
fn acquire_and_release_carry_the_session() {
    let p = KVPair {
        key: "lock/a".into(),
        value: "held".into(),
        session: Some("s1".into()),
        ..Default::default()
    };
    let a = client().acquire_entry(&p, &None).unwrap();
    assert_eq!(a.path, "/v1/kv/lock/a");
    assert_eq!(a.params, params(&[("acquire", "s1")]));
    let r = client().release_entry(&p, &None).unwrap();
    assert_eq!(r.params, params(&[("release", "s1")]));
}

#[test]
fn acquire_without_session_is_missing_session_flag() {
    let p = KVPair { key: "lock/a".into(), ..Default::default() };
    let e = client().acquire_entry(&p, &None).unwrap_err();
    assert!(matches!(e.kind(), Kind::MissingSessionFlag));
    let e = client().release_entry(&p, &None).unwrap_err();
    assert!(matches!(e.kind(), Kind::MissingSessionFlag));
}

#[test]
fn entry_response_takes_first_pair() {
    let p = KVPair { key: "k".into(), value: "dg==".into(), ..Default::default() };
    let got = entry_response(&ok("[...]"), Ok(vec![p.clone()])).unwrap();
    assert_eq!(got, Some(p));
}

#[test]
fn entry_response_not_found_is_none() {
    let resp = Response { status: 404, index: Some(3), body: String::new() };
    assert_eq!(entry_response(&resp, Err("not decoded".into())).unwrap(), None);
}

#[test]
fn entry_response_empty_body_is_none() {
    assert_eq!(entry_response(&ok(""), Err("not decoded".into())).unwrap(), None);
}

#[test]
fn entry_response_other_status_is_unexpected() {
    let resp = Response { status: 500, index: None, body: "boom".into() };
    let e = entry_response(&resp, Ok(vec![])).unwrap_err();
    assert!(matches!(e.kind(), Kind::UnexpectedResponse));
    assert_eq!(e.source_text().unwrap(), "boom");
}

#[test]
fn entry_response_bad_body_is_decode_error() {
    let e = entry_response(&ok("{"), Err("EOF".into())).unwrap_err();
    assert!(matches!(e.kind(), Kind::Decode));
    assert_eq!(e.message(), "decoding error: EOF");
}

#[test]
fn entries_response_absent_prefix_is_empty() {
    let resp = Response { status: 404, index: Some(1), body: String::new() };
    assert!(entries_response(&resp, Err("x".into())).unwrap().is_empty());
    let two = vec![KVPair::default(), KVPair::default()];
    assert_eq!(entries_response(&ok("[..]"), Ok(two)).unwrap().len(), 2);
}
