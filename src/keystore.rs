//! A plain handle on the key/value store: text values under keys, and locks
//! taken and given up by session.

use crate::error::Error;
use crate::kv::{entry_response, kv_path, KVPair};
use crate::request::{first_outcome, pairs_view, text_eq, Body, Method, Request, Response};
use vstd::prelude::*;

verus! {

/// A handle on the key/value store of the agent at one address.
#[derive(Debug, Clone)]
pub struct Keystore {
    address: String,
}

fn key_request(method: Method, key: &str, params: Vec<(String, String)>, body: Body) -> (r:
    Request)
    ensures
        r.method == method,
        r.path@ == kv_path(key@),
        r.params@ == params@,
        r.body == body,
{
    let mut path = String::from_str("/v1/kv/");
    path.append(key);
    Request { method, path, params, body }
}

fn session_param(name: &str, session_id: &String) -> (r: Vec<(String, String)>)
    ensures
        pairs_view(r@) == seq![(name@, session_id@)],
{
    let mut v: Vec<(String, String)> = Vec::new();
    v.push((String::from_str(name), session_id.clone()));
    assert(pairs_view(v@) =~= seq![(name@, session_id@)]);
    v
}

impl Keystore {
    /// The address of the agent.
    pub closed spec fn spec_address(&self) -> Seq<char> {
        self.address@
    }

    /// A handle on the store of the agent at `address`.
    pub fn new(address: &str) -> (r: Keystore)
        ensures
            r.spec_address() == address@,
    {
        Keystore { address: String::from_str(address) }
    }

    /// The address of the agent, which the requests' paths go below.
    pub fn address(&self) -> (r: &str)
        ensures
            r@ == self.spec_address(),
    {
        self.address.as_str()
    }

    /// The request that writes `value` under `key`.
    pub fn set_key(&self, key: String, value: String) -> (r: Request)
        ensures
            r.method == Method::Put,
            r.path@ == kv_path(key@),
            r.params@.len() == 0,
            r.body == Body::Raw(value),
    {
        key_request(Method::Put, key.as_str(), Vec::new(), Body::Raw(value))
    }

    /// The request that writes `value` under `key` and takes its lock for
    /// the session `session_id`.
    pub fn acquire_lock(&self, key: String, value: String, session_id: &String) -> (r: Request)
        ensures
            r.method == Method::Put,
            r.path@ == kv_path(key@),
            pairs_view(r.params@) == seq![("acquire"@, session_id@)],
            r.body == Body::Raw(value),
    {
        key_request(
            Method::Put,
            key.as_str(),
            session_param("acquire", session_id),
            Body::Raw(value),
        )
    }

    /// The request that writes `value` under `key` and gives up its lock held
    /// by the session `session_id`.
    pub fn release_lock(&self, key: String, value: &str, session_id: &String) -> (r: Request)
        ensures
            r.method == Method::Put,
            r.path@ == kv_path(key@),
            pairs_view(r.params@) == seq![("release"@, session_id@)],
            r.body is Raw && r.body->Raw_0@ == value@,
    {
        key_request(
            Method::Put,
            key.as_str(),
            session_param("release", session_id),
            Body::Raw(String::from_str(value)),
        )
    }

    /// The request that reads the entry `key`.
    pub fn get_key(&self, key: String) -> (r: Request)
        ensures
            r.method == Method::Get,
            r.path@ == kv_path(key@),
            r.params@.len() == 0,
            r.body is Empty,
    {
        key_request(Method::Get, key.as_str(), Vec::new(), Body::Empty)
    }

    /// The request that deletes the entry `key`.
    pub fn delete_key(&self, key: String) -> (r: Request)
        ensures
            r.method == Method::Delete,
            r.path@ == kv_path(key@),
            r.params@.len() == 0,
            r.body is Empty,
    {
        key_request(Method::Delete, key.as_str(), Vec::new(), Body::Empty)
    }

    /// Reads the answer to [`Keystore::get_key`], `decoded` being the
    /// transport's decoding of its body as a list of entries: the value of
    /// the entry, none when the key does not exist, and the errors of
    /// [`entry_response`].
    pub fn value_response(resp: &Response, decoded: Result<Vec<KVPair>, String>) -> (r: Result<
        Option<String>,
        Error,
    >)
        ensures
            match first_outcome(resp.status, resp.body@, decoded) {
                Ok(Some(p)) => r is Ok && r->Ok_0 == Some(p.value),
                Ok(None) => r is Ok && r->Ok_0 is None,
                Err((k, s)) => r is Err && r->Err_0.spec_kind() == k && r->Err_0.spec_source()
                    == Some(s),
            },
    {
        match entry_response(resp, decoded) {
            Ok(Some(p)) => Ok(Some(p.value)),
            Ok(None) => Ok(None),
            Err(e) => Err(e),
        }
    }

    /// Whether the answer to a lock request says the agent took the lock
    /// (or gave it up): its body is exactly `true`.
    pub fn lock_result(body: &str) -> (r: bool)
        ensures
            r == (body@ == "true"@),
    {
        text_eq(body, "true")
    }
}

} // verus!
