use consul::keepalive::{parse_ttl, renew_outcome, DEFAULT_MAX_FAILURES};
use consul::session::{created_response, destroyed_response, session_response};
use consul::{
    Body, Client, Config, KVPair, KeepAlive, KeepAliveAction, KeepAliveState, Kind, Method,
    RenewOutcome, Response, SessionEntry, SessionID,
};

fn client() -> Client {
    Client::new(Config::new())
}

#[test]
fn ttl_parses_in_milliseconds() {
    assert_eq!(parse_ttl("15s"), Some(15_000));
    assert_eq!(parse_ttl("10m"), Some(600_000));
    assert_eq!(parse_ttl("2h"), Some(7_200_000));
    assert_eq!(parse_ttl("0s"), Some(0));
}

#[test]
fn ttl_rejects_other_text() {
    assert_eq!(parse_ttl(""), None);
    assert_eq!(parse_ttl("s"), None);
    assert_eq!(parse_ttl("15"), None);
    assert_eq!(parse_ttl("15x"), None);
    assert_eq!(parse_ttl("15ms"), None);
    assert_eq!(parse_ttl("1s5"), None);
    assert_eq!(parse_ttl("99999999999999999999s"), None);
    assert_eq!(parse_ttl("18446744073709552s"), None);
    assert_eq!(parse_ttl("18446744073709551s"), Some(18_446_744_073_709_551_000));
}

#[test]
fn keep_alive_renews_at_half_ttl() {
    let entry = SessionEntry {
        id: Some("abc".into()),
        ttl: Some("15s".into()),
        ..Default::default()
    };
    let mut k = KeepAlive::for_session(&entry).unwrap();
    assert_eq!(k.start(), KeepAliveAction::RenewAfter(7_500));
    assert_eq!(k.on_renew(RenewOutcome::Renewed), KeepAliveAction::RenewAfter(7_500));
    assert_eq!(k.session(), Some("abc".to_string()));
}

#[test]
fn keep_alive_needs_id_and_ttl() {
    let no_ttl = SessionEntry { id: Some("abc".into()), ..Default::default() };
    assert!(KeepAlive::for_session(&no_ttl).is_none());
    let bad_ttl = SessionEntry { id: Some("abc".into()), ttl: Some("soon".into()), ..Default::default() };
    assert!(KeepAlive::for_session(&bad_ttl).is_none());
    let no_id = SessionEntry { ttl: Some("15s".into()), ..Default::default() };
    assert!(KeepAlive::for_session(&no_id).is_none());
}

#[test]
fn keep_alive_gives_up_after_bounded_failures() {
    let mut k = KeepAlive::new("s1".into(), 20_000, DEFAULT_MAX_FAILURES, 2_000);
    for _ in 0..DEFAULT_MAX_FAILURES - 1 {
        assert_eq!(k.on_renew(RenewOutcome::Failed), KeepAliveAction::RenewAfter(2_000));
        assert_eq!(k.state(), KeepAliveState::Active);
    }
    assert_eq!(k.on_renew(RenewOutcome::Failed), KeepAliveAction::SignalLost);
    assert_eq!(k.state(), KeepAliveState::Lost);
    assert_eq!(k.session(), None);
    assert_eq!(k.on_renew(RenewOutcome::Renewed), KeepAliveAction::Stop);
    assert_eq!(k.state(), KeepAliveState::Lost);
    let pair = KVPair { key: "lock/a".into(), session: k.session(), ..Default::default() };
    let e = client().acquire_entry(&pair, &None).unwrap_err();
    assert!(matches!(e.kind(), Kind::MissingSessionFlag));
}

#[test]
fn keep_alive_success_resets_failures() {
    let mut k = KeepAlive::new("s1".into(), 20_000, 2, 500);
    assert_eq!(k.on_renew(RenewOutcome::Failed), KeepAliveAction::RenewAfter(500));
    assert_eq!(k.on_renew(RenewOutcome::Renewed), KeepAliveAction::RenewAfter(10_000));
    assert_eq!(k.on_renew(RenewOutcome::Failed), KeepAliveAction::RenewAfter(500));
    assert_eq!(k.on_renew(RenewOutcome::Failed), KeepAliveAction::SignalLost);
}

#[test]
fn keep_alive_loses_session_when_gone() {
    let mut k = KeepAlive::new("s1".into(), 20_000, 10, 500);
    assert_eq!(k.on_renew(RenewOutcome::Gone), KeepAliveAction::SignalLost);
    assert_eq!(k.state(), KeepAliveState::Lost);
}

#[test]
fn keep_alive_cancel_stops() {
    let mut k = KeepAlive::new("s1".into(), 20_000, 0, 500);
    k.cancel();
    assert_eq!(k.state(), KeepAliveState::Stopped);
    assert_eq!(k.start(), KeepAliveAction::Stop);
    assert_eq!(k.on_renew(RenewOutcome::Renewed), KeepAliveAction::Stop);
    assert_eq!(k.session(), None);
}

#[test]
fn zero_failure_bound_means_one() {
    let mut k = KeepAlive::new("s1".into(), 20_000, 0, 500);
    assert_eq!(k.on_renew(RenewOutcome::Failed), KeepAliveAction::SignalLost);
}

#[test]
fn session_requests() {
    let c = client();
    let entry = SessionEntry { name: Some("n".into()), ttl: Some("15s".into()), ..Default::default() };
    let r = c.create_session(entry.clone(), &None);
    assert_eq!(r.method, Method::Put);
    assert_eq!(r.path, "/v1/session/create");
    match r.body {
        Body::Session(e) => assert_eq!(e, entry),
        _ => panic!("expected the session as body"),
    }
    assert_eq!(c.destroy_session("x", &None).path, "/v1/session/destroy/x");
    assert_eq!(c.renew_session("x", &None).path, "/v1/session/renew/x");
    assert_eq!(c.renew_session("x", &None).method, Method::Put);
    assert_eq!(c.get_session_info("x", &None).path, "/v1/session/info/x");
    assert_eq!(c.list_sessions(&None).path, "/v1/session/list");
    assert_eq!(c.list_session_for_node("n1", &None).path, "/v1/session/node/n1");
}

#[test]
fn created_response_gives_id() {
    let resp = Response { status: 200, index: None, body: "{\"ID\":\"a\"}".into() };
    let id = created_response(&resp, Ok(SessionID { id: "a".into() })).unwrap();
    assert_eq!(id.id, "a");
    let empty = Response { status: 200, index: None, body: String::new() };
    let e = created_response(&empty, Err("x".into())).unwrap_err();
    assert!(matches!(e.kind(), Kind::InvalidResponse));
    let bad = Response { status: 500, index: None, body: "invalid TTL".into() };
    let e = created_response(&bad, Err("x".into())).unwrap_err();
    assert!(matches!(e.kind(), Kind::UnexpectedResponse));
    assert_eq!(e.message(), "unexpected response from server: invalid TTL");
}

#[test]
fn renew_of_gone_session_is_none() {
    let gone = Response { status: 404, index: None, body: "not found".into() };
    assert_eq!(session_response(&gone, Err("x".into())).unwrap(), None);
    let empty_list = Response { status: 200, index: None, body: "[]".into() };
    assert_eq!(session_response(&empty_list, Ok(vec![])).unwrap(), None);
    let one = SessionEntry { id: Some("a".into()), ..Default::default() };
    let alive = Response { status: 200, index: None, body: "[{}]".into() };
    assert_eq!(session_response(&alive, Ok(vec![one.clone()])).unwrap(), Some(one));
}

#[test]
fn destroy_answers_true() {
    let resp = Response { status: 200, index: None, body: "true".into() };
    assert_eq!(destroyed_response(&resp).unwrap(), true);
    let resp = Response { status: 200, index: None, body: "false".into() };
    assert_eq!(destroyed_response(&resp).unwrap(), false);
    let resp = Response { status: 200, index: None, body: "maybe".into() };
    assert!(matches!(destroyed_response(&resp).unwrap_err().kind(), Kind::Decode));
}

#[test]
fn renew_outcome_maps_answers() {
    assert_eq!(renew_outcome(&Ok(Some(SessionEntry::default()))), RenewOutcome::Renewed);
    assert_eq!(renew_outcome(&Ok(None)), RenewOutcome::Gone);
    assert_eq!(renew_outcome(&Err(consul::error::request("timeout".into()))), RenewOutcome::Failed);
}
