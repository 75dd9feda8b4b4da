//! The key/value store: its entries, the requests of each operation, and the
//! reading of their answers.

use crate::client::Client;
use crate::error::{self, Error, Kind};
use crate::payload::QueryOptions;
use crate::request::{
    copy_text, decimal, decimal_text, first_outcome, first_response, list_outcome, list_response,
    matches_list, matches_outcome, pairs_view, push_option_params, query_params, Body, Method,
    Request, Response,
};
use vstd::prelude::*;

verus! {

/// An entry of the store.
#[derive(Debug, Default, Clone, PartialEq, Eq)]
pub struct KVPair {
    /// The entry's key, a `/`-separated path.
    pub key: String,
    /// The change index at which the entry was created.
    pub createindex: Option<u64>,
    /// The change index of the entry's last write.
    pub modifyindex: Option<u64>,
    /// How many times the entry's lock was taken.
    pub lockindex: Option<u64>,
    /// An opaque tag of the application's, kept with the value.
    pub flags: Option<u64>,
    /// The value.
    pub value: String,
    /// The session that holds the entry's lock, if any.
    pub session: Option<String>,
}

impl KVPair {
    /// A copy of this pair.
    pub fn copied(&self) -> (r: KVPair)
        ensures
            r == *self,
    {
        KVPair {
            key: self.key.clone(),
            createindex: self.createindex,
            modifyindex: self.modifyindex,
            lockindex: self.lockindex,
            flags: self.flags,
            value: self.value.clone(),
            session: copy_text(&self.session),
        }
    }
}

/// The path of the entry `key`.
pub open spec fn kv_path(key: Seq<char>) -> Seq<char> {
    "/v1/kv/"@ + key
}

/// The parameter that carries an entry's flags: none when they are absent or
/// zero.
pub open spec fn flag_params(flags: Option<u64>) -> Seq<(Seq<char>, Seq<char>)> {
    match flags {
        Some(f) if f != 0 => seq![("flags"@, decimal(f as nat))],
        _ => Seq::empty(),
    }
}

/// The request for `path` with the given method, leading parameters and body,
/// followed by the parameters of `options`.
pub open spec fn is_request_for(
    r: Request,
    method: Method,
    path: Seq<char>,
    params: Seq<(Seq<char>, Seq<char>)>,
    options: Option<QueryOptions>,
    default_dc: Option<String>,
) -> bool {
    &&& r.method == method
    &&& r.path@ == path
    &&& pairs_view(r.params@) == params + query_params(options, default_dc)
}

fn kv_path_text(key: &str) -> (r: String)
    ensures
        r@ == kv_path(key@),
{
    let mut path = String::from_str("/v1/kv/");
    path.append(key);
    path
}

fn push_flags(params: &mut Vec<(String, String)>, flags: Option<u64>)
    ensures
        pairs_view(final(params)@) == pairs_view(old(params)@) + flag_params(flags),
{
    let ghost start = pairs_view(params@);
    if let Some(f) = flags {
        if f != 0 {
            params.push((String::from_str("flags"), decimal_text(f)));
        }
    }
    assert(pairs_view(params@) =~= start + flag_params(flags));
}

/// Which lock operation a request performs.
enum LockOp {
    Acquire,
    Release,
}

/// The name of the parameter of a lock operation.
spec fn lock_param(op: LockOp) -> Seq<char> {
    match op {
        LockOp::Acquire => "acquire"@,
        LockOp::Release => "release"@,
    }
}

impl Client {
    /// The request that reads the entry `key`.
    pub fn get_entry(&self, key: &str, options: &Option<QueryOptions>) -> (r: Request)
        ensures
            is_request_for(
                r,
                Method::Get,
                kv_path(key@),
                Seq::empty(),
                *options,
                self.config.datacenter,
            ),
            r.body is Empty,
    {
        let mut params: Vec<(String, String)> = Vec::new();
        push_option_params(&mut params, options, &self.config.datacenter);
        assert(pairs_view(params@) =~= Seq::empty() + query_params(
            *options,
            self.config.datacenter,
        ));
        Request { method: Method::Get, path: kv_path_text(key), params, body: Body::Empty }
    }

    /// The request that lists every entry whose key begins with `prefix`.
    pub fn list_entries(&self, prefix: &str, options: &Option<QueryOptions>) -> (r: Request)
        ensures
            is_request_for(
                r,
                Method::Get,
                kv_path(prefix@),
                seq![("recurse"@, Seq::empty())],
                *options,
                self.config.datacenter,
            ),
            r.body is Empty,
    {
        let mut params: Vec<(String, String)> = Vec::new();
        params.push((String::from_str("recurse"), String::new()));
        assert(pairs_view(params@) =~= seq![("recurse"@, Seq::<char>::empty())]);
        push_option_params(&mut params, options, &self.config.datacenter);
        Request { method: Method::Get, path: kv_path_text(prefix), params, body: Body::Empty }
    }

    /// The request that writes `pair`'s value and flags under its key.
    pub fn put_entry(&self, pair: &KVPair, options: &Option<QueryOptions>) -> (r: Request)
        ensures
            is_request_for(
                r,
                Method::Put,
                kv_path(pair.key@),
                flag_params(pair.flags),
                *options,
                self.config.datacenter,
            ),
            r.body == Body::Raw(pair.value),
    {
        let mut params: Vec<(String, String)> = Vec::new();
        push_flags(&mut params, pair.flags);
        assert(pairs_view(params@) =~= flag_params(pair.flags));
        push_option_params(&mut params, options, &self.config.datacenter);
        Request {
            method: Method::Put,
            path: kv_path_text(pair.key.as_str()),
            params,
            body: Body::Raw(pair.value.clone()),
        }
    }

    /// The request that deletes the entry `key`.
    pub fn delete_entry(&self, key: &str, options: &Option<QueryOptions>) -> (r: Request)
        ensures
            is_request_for(
                r,
                Method::Delete,
                kv_path(key@),
                Seq::empty(),
                *options,
                self.config.datacenter,
            ),
            r.body is Empty,
    {
        let mut params: Vec<(String, String)> = Vec::new();
        push_option_params(&mut params, options, &self.config.datacenter);
        assert(pairs_view(params@) =~= Seq::empty() + query_params(
            *options,
            self.config.datacenter,
        ));
        Request { method: Method::Delete, path: kv_path_text(key), params, body: Body::Empty }
    }

    fn lock_entry(&self, pair: &KVPair, op: LockOp, options: &Option<QueryOptions>) -> (r: Result<
        Request,
        Error,
    >)
        ensures
            match pair.session {
                Some(s) => r is Ok && is_request_for(
                    r->Ok_0,
                    Method::Put,
                    kv_path(pair.key@),
                    flag_params(pair.flags) + seq![(lock_param(op), s@)],
                    *options,
                    self.config.datacenter,
                ) && r->Ok_0.body == Body::Raw(pair.value),
                None => r is Err && r->Err_0.spec_kind() == Kind::MissingSessionFlag,
            },
    {
        match &pair.session {
            Some(s) => {
                let mut params: Vec<(String, String)> = Vec::new();
                push_flags(&mut params, pair.flags);
                let name = match op {
                    LockOp::Acquire => String::from_str("acquire"),
                    LockOp::Release => String::from_str("release"),
                };
                params.push((name, s.clone()));
                assert(pairs_view(params@) =~= flag_params(pair.flags) + seq![
                    (lock_param(op), s@),
                ]);
                push_option_params(&mut params, options, &self.config.datacenter);
                Ok(
                    Request {
                        method: Method::Put,
                        path: kv_path_text(pair.key.as_str()),
                        params,
                        body: Body::Raw(pair.value.clone()),
                    },
                )
            },
            None => Err(error::missing_session_flag()),
        }
    }

    /// The request that writes `pair`'s value and takes its key's lock for
    /// `pair`'s session. A `MissingSessionFlag` error, with no request, when
    /// the pair names no session.
    pub fn acquire_entry(&self, pair: &KVPair, options: &Option<QueryOptions>) -> (r: Result<
        Request,
        Error,
    >)
        ensures
            match pair.session {
                Some(s) => r is Ok && is_request_for(
                    r->Ok_0,
                    Method::Put,
                    kv_path(pair.key@),
                    flag_params(pair.flags) + seq![("acquire"@, s@)],
                    *options,
                    self.config.datacenter,
                ) && r->Ok_0.body == Body::Raw(pair.value),
                None => r is Err && r->Err_0.spec_kind() == Kind::MissingSessionFlag,
            },
    {
        self.lock_entry(pair, LockOp::Acquire, options)
    }

    /// The request that writes `pair`'s value and gives up its key's lock held
    /// by `pair`'s session. A `MissingSessionFlag` error, with no request,
    /// when the pair names no session.
    pub fn release_entry(&self, pair: &KVPair, options: &Option<QueryOptions>) -> (r: Result<
        Request,
        Error,
    >)
        ensures
            match pair.session {
                Some(s) => r is Ok && is_request_for(
                    r->Ok_0,
                    Method::Put,
                    kv_path(pair.key@),
                    flag_params(pair.flags) + seq![("release"@, s@)],
                    *options,
                    self.config.datacenter,
                ) && r->Ok_0.body == Body::Raw(pair.value),
                None => r is Err && r->Err_0.spec_kind() == Kind::MissingSessionFlag,
            },
    {
        self.lock_entry(pair, LockOp::Release, options)
    }
}

/// Reads the answer to [`Client::get_entry`]; `decoded` is the transport's
/// decoding of the body as a list of entries.
pub fn entry_response(resp: &Response, decoded: Result<Vec<KVPair>, String>) -> (r: Result<
    Option<KVPair>,
    Error,
>)
    ensures
        matches_outcome(r, first_outcome(resp.status, resp.body@, decoded)),
{
    first_response(resp, decoded)
}

/// Reads the answer to [`Client::list_entries`]; `decoded` is the
/// transport's decoding of the body as a list of entries.
pub fn entries_response(resp: &Response, decoded: Result<Vec<KVPair>, String>) -> (r: Result<
    Vec<KVPair>,
    Error,
>)
    ensures
        matches_list(r, list_outcome(resp.status, resp.body@, decoded)),
{
    list_response(resp, decoded)
}

} // verus!
