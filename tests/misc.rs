use consul::request::{query_meta, request_url, write_response};
use consul::{
    error, Agent, Client, Config, ConsulID, ConsulName, Health, IntentionAction, Keystore, Kind,
    Method, QueryOptions, Response, Status, Error,
};

fn params(v: &[(&str, &str)]) -> Vec<(String, String)> {
    v.iter().map(|(a, b)| (a.to_string(), b.to_string())).collect()
}

#[test]
fn ids_and_names_refuse_slash() {
    assert_eq!(ConsulID::from("web-1").unwrap().to_str(), "web-1");
    assert!(ConsulID::from("a/b").is_err());
    assert_eq!(ConsulName::from("redis").unwrap().to_str(), "redis");
    assert!(ConsulName::from("/").is_err());
    assert_eq!(ConsulName::from("").unwrap().to_str(), "");
}

#[test]
fn error_descriptions() {
    assert_eq!(Error::new(Kind::MissingIndex).description(), "missing index");
    assert_eq!(error::missing_session_flag().message(), "missing session flag");
    assert_eq!(error::request("timeout".into()).message(), "error sending request: timeout");
    assert_eq!(error::builder("x".into()).description(), "builder error");
    assert_eq!(error::invalid_response("x".into()).description(), "invalid response from server");
    assert_eq!(error::key_not_found("k".into()).description(), "key not found");
    assert_eq!(error::service_not_found("s".into()).description(), "service not found");
    assert!(matches!(error::decode("d".into()).kind(), Kind::Decode));
    assert!(error::missing_index().source_text().is_none());
    let e = Error::new(Kind::Request).with("down".into());
    assert_eq!(e.source_text().unwrap(), "down");
}

#[test]
fn config_defaults_and_env() {
    assert_eq!(Config::new().address, "http://localhost:8500");
    assert_eq!(Config::from_env_values(None, None).address, "http://127.0.0.1:8500");
    assert_eq!(Config::from_env_values(Some("10.0.0.1:8500".into()), None).address, "http://10.0.0.1:8500");
    let c = Config::from_env_values(Some("https://x:1".into()), Some("tok".into()));
    assert_eq!(c.address, "https://x:1");
    assert_eq!(c.token, Some("tok".into()));
    assert_eq!(Config::new_from_consul_host("http://h", None, None).address, "http://h:8500");
    assert_eq!(Config::new_from_consul_host("http://h", Some(80), None).address, "http://h:80");
}

#[test]
fn request_url_encodes_query() {
    let c = Client::new(Config::new());
    let r = c.list_entries("a", &None);
    assert_eq!(request_url(&c.config.address, &r).unwrap(), "http://localhost:8500/v1/kv/a?recurse=");
    let opts = Some(QueryOptions { wait_index: Some(3), wait_time: Some(10), ..Default::default() });
    let r = c.get_entry("x y", &opts);
    assert_eq!(
        request_url(&c.config.address, &r).unwrap(),
        "http://localhost:8500/v1/kv/x%20y?index=3&wait=10s"
    );
}

#[test]
fn request_url_refuses_bad_address() {
    let c = Client::new(Config::new());
    let r = c.get_entry("k", &None);
    let e = request_url("not a url", &r).unwrap_err();
    assert!(matches!(e.kind(), Kind::Builder));
}

#[test]
fn write_response_reads_booleans() {
    let r = |status: u16, body: &str| Response { status, index: None, body: body.into() };
    assert_eq!(write_response(&r(200, "true")).unwrap(), true);
    assert_eq!(write_response(&r(200, "false")).unwrap(), false);
    assert!(matches!(write_response(&r(200, "yes")).unwrap_err().kind(), Kind::Decode));
    assert!(matches!(write_response(&r(403, "denied")).unwrap_err().kind(), Kind::UnexpectedResponse));
    assert!(matches!(write_response(&r(404, "")).unwrap_err().kind(), Kind::UnexpectedResponse));
}

#[test]
fn query_meta_needs_index() {
    let resp = Response { status: 200, index: Some(4), body: String::new() };
    let meta = query_meta(&resp, 12).unwrap();
    assert_eq!(meta.last_index, Some(4));
    assert_eq!(meta.request_time, 12);
    let resp = Response { status: 200, index: None, body: String::new() };
    assert!(matches!(query_meta(&resp, 0).unwrap_err().kind(), Kind::MissingIndex));
}

#[test]
fn health_service_filter() {
    let c = Client::new(Config::new());
    let r = Health::service(&c, "web", Some("v1"), true, &None);
    assert_eq!(r.method, Method::Get);
    assert_eq!(r.path, "/v1/health/service/web");
    assert_eq!(r.params, params(&[("passing", "1"), ("filter", "\"v1\" in Service.Tags")]));
    let opts = Some(QueryOptions { filter: Some("A".into()), ..Default::default() });
    let r = Health::service(&c, "web", Some("v1"), false, &opts);
    assert_eq!(r.params, params(&[("filter", "(A) and \"v1\" in Service.Tags")]));
    let r = Health::service(&c, "web", None, false, &None);
    assert!(r.params.is_empty());
}

#[test]
fn health_node_filter() {
    let c = Client::new(Config::new());
    let r = Health::node(&c, "n1", Some("serfHealth"), None, None, &None);
    assert_eq!(r.path, "/v1/health/node/n1");
    assert_eq!(r.params, params(&[("filter", "CheckID == \"serfHealth\"")]));
    let r = Health::node(&c, "n1", Some("c"), Some("svc"), Some("t"), &None);
    assert_eq!(
        r.params,
        params(&[("filter", "(ServiceName == \"svc\") and \"t\" in ServiceTags")])
    );
    let opts = Some(QueryOptions { filter: Some(String::new()), ..Default::default() });
    let r = Health::node(&c, "n1", None, None, None, &opts);
    assert_eq!(r.params, params(&[("filter", "")]));
}

#[test]
fn agent_requests() {
    let c = Client::new(Config::new());
    assert_eq!(c.members(true).params, params(&[("wan", "1")]));
    assert!(c.members(false).params.is_empty());
    let m = c.maintenance_mode(true, Some("upgrade"));
    assert_eq!(m.method, Method::Put);
    assert_eq!(m.path, "/v1/agent/maintenance");
    assert_eq!(m.params, params(&[("enabled", "true"), ("reason", "upgrade")]));
    assert_eq!(c.maintenance_mode(false, None).params, params(&[("enabled", "false")]));
    let j = c.join("10.0.0.2", true);
    assert_eq!(j.path, "/v1/agent/join/10.0.0.2");
    assert_eq!(j.params, params(&[("wan", "true")]));
    assert_eq!(c.checks().path, "/v1/agent/checks");
    assert_eq!(c.reload().path, "/v1/agent/reload");
    assert_eq!(c.leave().path, "/v1/agent/leave");
    assert_eq!(c.force_leave().path, "/v1/agent/force-leave");
}

#[test]
fn status_requests() {
    let c = Client::new(Config::new());
    assert_eq!(c.leader(&None).path, "/v1/status/leader");
    assert_eq!(c.peers(&None).path, "/v1/status/peers");
}

#[test]
fn keystore_requests() {
    let k = Keystore::new("http://127.0.0.1:8500");
    assert_eq!(k.address(), "http://127.0.0.1:8500");
    let r = k.acquire_lock("lock".into(), "me".into(), &"s1".to_string());
    assert_eq!(r.path, "/v1/kv/lock");
    assert_eq!(r.params, params(&[("acquire", "s1")]));
    let r = k.release_lock("lock".into(), "me", &"s1".to_string());
    assert_eq!(r.params, params(&[("release", "s1")]));
    assert_eq!(k.delete_key("lock".into()).method, Method::Delete);
    assert_eq!(k.get_key("lock".into()).method, Method::Get);
    assert_eq!(k.set_key("lock".into(), "v".into()).method, Method::Put);
    assert!(Keystore::lock_result("true"));
    assert!(!Keystore::lock_result("false"));
    assert!(!Keystore::lock_result("true\n"));
}

#[test]
fn intention_action_defaults_to_deny() {
    assert_eq!(IntentionAction::default(), IntentionAction::Deny);
}

#[test]
fn request_url_refuses_oversized_source() {
    let c = Client::new(Config::new());
    let mut r = c.get_entry("k#frag", &None);
    r.params.push(("big".to_string(), "x".repeat(100_000_001)));
    let e = request_url(&c.config.address, &r).unwrap_err();
    assert!(matches!(e.kind(), Kind::Builder));
}

#[test]
fn request_url_keeps_fragment_after_query() {
    let c = Client::new(Config::new());
    let opts = Some(QueryOptions { wait_index: Some(1234567), ..Default::default() });
    let r = c.get_entry("k#frag", &opts);
    assert_eq!(
        request_url(&c.config.address, &r).unwrap(),
        "http://localhost:8500/v1/kv/k?index=1234567#frag"
    );
}

#[test]
fn keystore_value_response() {
    let k = consul::KVPair { key: "a".into(), value: "dmFs".into(), ..Default::default() };
    let ok = Response { status: 200, index: Some(1), body: "[..]".into() };
    assert_eq!(Keystore::value_response(&ok, Ok(vec![k])).unwrap(), Some("dmFs".to_string()));
    let missing = Response { status: 404, index: Some(1), body: String::new() };
    assert_eq!(Keystore::value_response(&missing, Err("x".into())).unwrap(), None);
    let bad = Response { status: 500, index: None, body: "err".into() };
    assert!(matches!(Keystore::value_response(&bad, Ok(vec![])).unwrap_err().kind(), Kind::UnexpectedResponse));
}
