//! Sessions: their definition, the requests that create, renew and destroy
//! them, and the keep-alive policy that renews one before its time-to-live
//! runs out.

use crate::client::Client;
use crate::error::{self, Error, Kind};
use crate::payload::QueryOptions;
use crate::request::{
    first_outcome, first_response, is_success, list_outcome, list_response, matches_list,
    matches_outcome, pairs_view, push_option_params, query_params, write_outcome,
    write_response, Body, Method, Request, Response,
};
use vstd::prelude::*;

verus! {

/// The answer to a session creation: the new session's id.
#[derive(Debug, Default, Clone, PartialEq, Eq)]
pub struct SessionID {
    pub id: String,
}

/// A session as the agent describes it, or as a creation request defines it.
#[derive(Debug, Default, Clone, PartialEq, Eq)]
pub struct SessionEntry {
    pub createindex: Option<u64>,
    /// The id that the agent assigned.
    pub id: Option<String>,
    /// A human-readable label.
    pub name: Option<String>,
    /// The agent that owns the session.
    pub node: Option<String>,
    /// How long, in seconds, others wait before taking a lock that this
    /// session held when it ended.
    pub lockdelay: Option<u64>,
    /// What happens to the session's locks when it ends: `release` or `delete`.
    pub behavior: Option<String>,
    /// Health checks whose failure ends the session.
    pub checks: Option<Vec<String>>,
    /// The time-to-live, such as `15s`.
    pub ttl: Option<String>,
}


/// The request for `path` with the given method, whose parameters are those
/// of `options`.
pub open spec fn is_session_request(
    r: Request,
    method: Method,
    path: Seq<char>,
    options: Option<QueryOptions>,
    default_dc: Option<String>,
) -> bool {
    &&& r.method == method
    &&& r.path@ == path
    &&& pairs_view(r.params@) == query_params(options, default_dc)
}

impl Client {
    fn session_request(
        &self,
        method: Method,
        prefix: &str,
        name: &str,
        body: Body,
        options: &Option<QueryOptions>,
    ) -> (r: Request)
        ensures
            is_session_request(r, method, prefix@ + name@, *options, self.config.datacenter),
            r.body == body,
    {
        let mut path = String::from_str(prefix);
        path.append(name);
        let mut params: Vec<(String, String)> = Vec::new();
        push_option_params(&mut params, options, &self.config.datacenter);
        assert(pairs_view(params@) =~= Seq::empty() + query_params(
            *options,
            self.config.datacenter,
        ));
        Request { method, path, params, body }
    }

    /// The request that creates the session `session` defines.
    pub fn create_session(&self, session: SessionEntry, options: &Option<QueryOptions>) -> (r:
        Request)
        ensures
            is_session_request(
                r,
                Method::Put,
                "/v1/session/create"@,
                *options,
                self.config.datacenter,
            ),
            r.body == Body::Session(session),
    {
        let r = self.session_request(Method::Put, "/v1/session/create", "", Body::Session(session), options);
        assert(("/v1/session/create"@ + ""@) =~= "/v1/session/create"@) by {
            reveal_strlit("");
        }
        r
    }

    /// The request that ends the session `id`.
    pub fn destroy_session(&self, id: &str, options: &Option<QueryOptions>) -> (r: Request)
        ensures
            is_session_request(
                r,
                Method::Put,
                "/v1/session/destroy/"@ + id@,
                *options,
                self.config.datacenter,
            ),
            r.body is Empty,
    {
        self.session_request(Method::Put, "/v1/session/destroy/", id, Body::Empty, options)
    }

    /// The request that reads the session `id`.
    pub fn get_session_info(&self, id: &str, options: &Option<QueryOptions>) -> (r: Request)
        ensures
            is_session_request(
                r,
                Method::Get,
                "/v1/session/info/"@ + id@,
                *options,
                self.config.datacenter,
            ),
            r.body is Empty,
    {
        self.session_request(Method::Get, "/v1/session/info/", id, Body::Empty, options)
    }

    /// The request that lists every session.
    pub fn list_sessions(&self, options: &Option<QueryOptions>) -> (r: Request)
        ensures
            is_session_request(
                r,
                Method::Get,
                "/v1/session/list"@,
                *options,
                self.config.datacenter,
            ),
            r.body is Empty,
    {
        let r = self.session_request(Method::Get, "/v1/session/list", "", Body::Empty, options);
        assert(("/v1/session/list"@ + ""@) =~= "/v1/session/list"@) by {
            reveal_strlit("");
        }
        r
    }

    /// The request that lists the sessions of the agent `node`.
    pub fn list_session_for_node(&self, node: &str, options: &Option<QueryOptions>) -> (r:
        Request)
        ensures
            is_session_request(
                r,
                Method::Get,
                "/v1/session/node/"@ + node@,
                *options,
                self.config.datacenter,
            ),
            r.body is Empty,
    {
        self.session_request(Method::Get, "/v1/session/node/", node, Body::Empty, options)
    }

    /// The request that renews the session `id`.
    pub fn renew_session(&self, id: &str, options: &Option<QueryOptions>) -> (r: Request)
        ensures
            is_session_request(
                r,
                Method::Put,
                "/v1/session/renew/"@ + id@,
                *options,
                self.config.datacenter,
            ),
            r.body is Empty,
    {
        self.session_request(Method::Put, "/v1/session/renew/", id, Body::Empty, options)
    }
}

/// What a creation makes of a response, `decoded` being the transport's
/// decoding of its body: the new session's id on success; an
/// `UnexpectedResponse` error with the body for any status but success; an
/// `InvalidResponse` error for an empty body; a `Decode` error when the body
/// did not decode.
pub open spec fn created_outcome(
    status: u16,
    body: Seq<char>,
    decoded: Result<SessionID, String>,
) -> Result<SessionID, (Kind, Seq<char>)> {
    if !is_success(status) {
        Err((Kind::UnexpectedResponse, body))
    } else if body.len() == 0 {
        Err((Kind::InvalidResponse, "empty body"@))
    } else {
        match decoded {
            Ok(v) => Ok(v),
            Err(e) => Err((Kind::Decode, e@)),
        }
    }
}

/// Reads the answer to [`Client::create_session`]: see [`created_outcome`].
pub fn created_response(resp: &Response, decoded: Result<SessionID, String>) -> (r: Result<
    SessionID,
    Error,
>)
    ensures
        match (r, created_outcome(resp.status, resp.body@, decoded)) {
            (Ok(a), Ok(b)) => a == b,
            (Err(e), Err((k, s))) => e.spec_kind() == k && e.spec_source() == Some(s),
            _ => false,
        },
{
    if resp.status < 200 || resp.status >= 300 {
        Err(error::unexpected_response(resp.body.clone()))
    } else if resp.body.as_str().unicode_len() == 0 {
        Err(error::invalid_response(String::from_str("empty body")))
    } else {
        match decoded {
            Ok(v) => Ok(v),
            Err(e) => Err(error::decode(e)),
        }
    }
}

/// Reads the answer to [`Client::renew_session`] or
/// [`Client::get_session_info`]: the session, or none when it no longer
/// exists ("not found", or an empty list), which ends it for good.
pub fn session_response(resp: &Response, decoded: Result<Vec<SessionEntry>, String>) -> (r:
    Result<Option<SessionEntry>, Error>)
    ensures
        matches_outcome(r, first_outcome(resp.status, resp.body@, decoded)),
{
    first_response(resp, decoded)
}

/// Reads the answer to [`Client::list_sessions`] or
/// [`Client::list_session_for_node`].
pub fn sessions_response(resp: &Response, decoded: Result<Vec<SessionEntry>, String>) -> (r:
    Result<Vec<SessionEntry>, Error>)
    ensures
        matches_list(r, list_outcome(resp.status, resp.body@, decoded)),
{
    list_response(resp, decoded)
}

/// Reads the answer to [`Client::destroy_session`]: the agent's `true` or
/// `false` (see [`write_outcome`]).
pub fn destroyed_response(resp: &Response) -> (r: Result<bool, Error>)
    ensures
        match (r, write_outcome(resp.status, resp.body@)) {
            (Ok(a), Ok(b)) => a == b,
            (Err(e), Err((k, s))) => e.spec_kind() == k && e.spec_source() == Some(s),
            _ => false,
        },
{
    write_response(resp)
}

} // verus!
