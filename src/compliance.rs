//! How an agent that keeps the store's semantics answers the key/value
//! requests that the client builds, and the laws that then hold from the
//! client's side.
//!
//! [`agent_kv`] reads a request as the agent does: the key from the path
//! below `/v1/kv/`, the lock operation and the flags from the query, the value
//! from the body; and applies it to a [`StoreModel`]. Each law takes requests
//! that meet exactly the `ensures` of the client's request builders, so it
//! holds of whatever those builders return.

use crate::kv::{flag_params, is_request_for, kv_path};
use crate::payload::QueryOptions;
use crate::request::{
    chosen_datacenter, decimal, filter_of, option_params, query_params, wait_time_of, Body,
    Method, Request,
};
use crate::store::{
    lemma_write_wakes_watcher, lookup, or_zero, poll_ready, query_index, store_acquire, store_delete, store_list, store_put, store_release,
    store_wf, EntryModel, StoreModel, lemma_delete_twice, lemma_lock_exclusive,
    lemma_put_index_grows, lemma_put_then_get,
};
use vstd::prelude::*;

verus! {

/// The agent's answer to a key/value request.
pub enum KvAnswer {
    /// A write's `true` or `false`.
    Written(bool),
    /// The entries a read returns (none when the key is absent).
    Read(Seq<EntryModel>),
    /// A request the key/value endpoint does not serve.
    Refused,
}

/// The value of the first query parameter called `name`.
pub open spec fn param(ps: Seq<(Seq<char>, Seq<char>)>, name: Seq<char>) -> Option<Seq<char>>
    decreases ps.len(),
{
    if ps.len() == 0 {
        None
    } else if ps[0].0 == name {
        Some(ps[0].1)
    } else {
        param(ps.drop_first(), name)
    }
}

/// The key that a path below `/v1/kv/` names.
pub open spec fn kv_key_of(path: Seq<char>) -> Option<Seq<char>> {
    let p = "/v1/kv/"@;
    if p.len() <= path.len() && path.subrange(0, p.len() as int) == p {
        Some(path.subrange(p.len() as int, path.len() as int))
    } else {
        None
    }
}

/// The flags that the query carries: the number the `flags` parameter writes
/// in decimal, zero without one.
pub open spec fn flags_of(ps: Seq<(Seq<char>, Seq<char>)>) -> u64 {
    match param(ps, "flags"@) {
        Some(t) => if exists|n: u64| decimal(n as nat) == t {
            choose|n: u64| decimal(n as nat) == t
        } else {
            0
        },
        None => 0,
    }
}

/// The entry `key`, as the list a read returns.
pub open spec fn entry_list(m: StoreModel, key: Seq<char>) -> Seq<EntryModel> {
    match lookup(m, key) {
        Some(e) => seq![e],
        None => Seq::empty(),
    }
}

/// How the agent applies the key/value request `r` to the store `m`: the
/// store after it, and the answer.
pub open spec fn agent_kv(m: StoreModel, r: Request) -> (StoreModel, KvAnswer) {
    let ps = crate::request::pairs_view(r.params@);
    match kv_key_of(r.path@) {
        None => (m, KvAnswer::Refused),
        Some(key) => match r.method {
            Method::Get => if param(ps, "recurse"@) is Some {
                (m, KvAnswer::Read(store_list(m, key)))
            } else {
                (m, KvAnswer::Read(entry_list(m, key)))
            },
            Method::Delete => (store_delete(m, key), KvAnswer::Written(true)),
            Method::Put => {
                let value = match r.body {
                    Body::Raw(v) => v@,
                    _ => Seq::empty(),
                };
                let flags = flags_of(ps);
                match param(ps, "acquire"@) {
                    Some(s) => {
                        let (m2, ok) = store_acquire(m, key, value, flags, s);
                        (m2, KvAnswer::Written(ok))
                    },
                    None => match param(ps, "release"@) {
                        Some(s) => {
                            let (m2, ok) = store_release(m, key, s);
                            (m2, KvAnswer::Written(ok))
                        },
                        None => (store_put(m, key, value, flags), KvAnswer::Written(true)),
                    },
                }
            },
        },
    }
}

proof fn lemma_param_concat(
    a: Seq<(Seq<char>, Seq<char>)>,
    b: Seq<(Seq<char>, Seq<char>)>,
    name: Seq<char>,
)
    ensures
        param(a + b, name) == match param(a, name) {
            Some(v) => Some(v),
            None => param(b, name),
        },
    decreases a.len(),
{
    if a.len() > 0 {
        assert((a + b).drop_first() =~= a.drop_first() + b);
        assert((a + b)[0] == a[0]);
        lemma_param_concat(a.drop_first(), b, name);
    } else {
        assert(a + b =~= b);
    }
}

proof fn lemma_param_single(x: (Seq<char>, Seq<char>), name: Seq<char>)
    ensures
        param(seq![x], name) == if x.0 == name {
            Some(x.1)
        } else {
            None
        },
{
    reveal_with_fuel(param, 2);
    assert(seq![x].drop_first() =~= Seq::<(Seq<char>, Seq<char>)>::empty());
}

proof fn lemma_names_distinct()
    ensures
        "dc"@ != "flags"@,
        "dc"@ != "acquire"@,
        "dc"@ != "release"@,
        "dc"@ != "recurse"@,
        "flags"@ != "acquire"@,
        "flags"@ != "release"@,
        "acquire"@ != "release"@,
{
    reveal_strlit("dc");
    reveal_strlit("flags");
    reveal_strlit("acquire");
    reveal_strlit("release");
    reveal_strlit("recurse");
    assert("dc"@.len() != "recurse"@.len());
    assert("dc"@.len() != "flags"@.len());
    assert("flags"@[0] != "acquire"@[0]);
    assert("flags"@[0] != "release"@[0]);
    assert("acquire"@[0] != "release"@[0]);
}

/// The parameters of a request without options carry at most the datacenter.
proof fn lemma_plain_params(dc: Option<String>, name: Seq<char>)
    requires
        name != "dc"@,
    ensures
        param(query_params(None, dc), name) is None,
{
    match dc {
        Some(d) => lemma_param_single(("dc"@, d@), name),
        None => {},
    }
}

proof fn lemma_flags_read(flags: Option<u64>, dc: Option<String>, name: Seq<char>)
    ensures
        name != "dc"@ && name != "flags"@ ==> param(
            flag_params(flags) + query_params(None, dc),
            name,
        ) is None,
        flags_of(flag_params(flags) + query_params(None, dc)) == or_zero(flags),
{
    lemma_names_distinct();
    lemma_param_concat(flag_params(flags), query_params(None, dc), name);
    lemma_param_concat(flag_params(flags), query_params(None, dc), "flags"@);
    lemma_plain_params(dc, "flags"@);
    if name != "dc"@ {
        lemma_plain_params(dc, name);
    }
    match flags {
        Some(f) if f != 0 => {
            lemma_param_single(("flags"@, decimal(f as nat)), name);
            lemma_param_single(("flags"@, decimal(f as nat)), "flags"@);
            let t = decimal(f as nat);
            assert(decimal(f as nat) == t);
            let n = choose|n: u64| decimal(n as nat) == t;
            crate::store::lemma_decimal_injective(n as nat, f as nat);
        },
        _ => {},
    }
}

proof fn lemma_key_read(key: Seq<char>)
    ensures
        kv_key_of(kv_path(key)) == Some(key),
{
    let p = "/v1/kv/"@;
    assert(kv_path(key).subrange(0, p.len() as int) =~= p);
    assert(kv_path(key).subrange(p.len() as int, kv_path(key).len() as int) =~= key);
}

/// The acquire parameters that the client builds for session `s` read back
/// as that session and those flags.
proof fn lemma_acquire_params(flags: Option<u64>, dc: Option<String>, s: String)
    ensures
        param(flag_params(flags) + seq![("acquire"@, s@)] + query_params(None, dc), "acquire"@)
            == Some(s@),
        flags_of(flag_params(flags) + seq![("acquire"@, s@)] + query_params(None, dc))
            == or_zero(flags),
{
    lemma_names_distinct();
    let q = query_params(None, dc);
    let f = flag_params(flags);
    assert(f + seq![("acquire"@, s@)] + q =~= f + (seq![("acquire"@, s@)] + q));
    lemma_param_concat(f, seq![("acquire"@, s@)] + q, "acquire"@);
    lemma_param_concat(f, seq![("acquire"@, s@)] + q, "flags"@);
    lemma_param_concat(seq![("acquire"@, s@)], q, "acquire"@);
    lemma_param_concat(seq![("acquire"@, s@)], q, "flags"@);
    lemma_param_single(("acquire"@, s@), "acquire"@);
    lemma_param_single(("acquire"@, s@), "flags"@);
    lemma_flags_read(flags, dc, "acquire"@);
    lemma_flags_read(flags, dc, "flags"@);
    lemma_param_concat(f, q, "flags"@);
    lemma_plain_params(dc, "flags"@);
    match flags {
        Some(x) if x != 0 => {
            lemma_param_single(("flags"@, decimal(x as nat)), "acquire"@);
            lemma_param_single(("flags"@, decimal(x as nat)), "flags"@);
        },
        _ => {},
    }
}

/// Round trip through the client: against an agent that keeps the store's
/// semantics, the write that [`crate::Client::put_entry`] builds for a pair
/// is accepted, and the read that [`crate::Client::get_entry`] then builds
/// for the same key returns one entry, with exactly the pair's value and
/// flags (zero when absent).
pub proof fn lemma_client_put_then_get(
    m: StoreModel,
    dc: Option<String>,
    key: Seq<char>,
    value: String,
    flags: Option<u64>,
    put: Request,
    get: Request,
)
    requires
        store_wf(m),
        is_request_for(put, Method::Put, kv_path(key), flag_params(flags), None, dc),
        put.body == Body::Raw(value),
        is_request_for(get, Method::Get, kv_path(key), Seq::empty(), None, dc),
    ensures
        agent_kv(m, put).1 == KvAnswer::Written(true),
        agent_kv(agent_kv(m, put).0, get).1 is Read,
        agent_kv(agent_kv(m, put).0, get).1->Read_0.len() == 1,
        agent_kv(agent_kv(m, put).0, get).1->Read_0[0].key == key,
        agent_kv(agent_kv(m, put).0, get).1->Read_0[0].value == value@,
        agent_kv(agent_kv(m, put).0, get).1->Read_0[0].flags == or_zero(flags),
{
    lemma_key_read(key);
    lemma_names_distinct();
    lemma_flags_read(flags, dc, "acquire"@);
    lemma_flags_read(flags, dc, "release"@);
    assert(Seq::<(Seq<char>, Seq<char>)>::empty() + query_params(None, dc) =~= query_params(
        None,
        dc,
    ));
    lemma_plain_params(dc, "recurse"@);
    lemma_put_then_get(m, key, value@, or_zero(flags));
    let m1 = store_put(m, key, value@, or_zero(flags));
    assert(agent_kv(m, put).0 == m1);
    assert(lookup(m1, key) is Some);
    crate::store::lemma_lookup_key(m1, key);
}

/// Deleting through the client is idempotent: against an agent that keeps
/// the store's semantics, the delete that [`crate::Client::delete_entry`]
/// builds succeeds when sent twice in a row, and a read that
/// [`crate::Client::get_entry`] builds afterwards returns no entry.
pub proof fn lemma_client_delete_twice(
    m: StoreModel,
    dc: Option<String>,
    key: Seq<char>,
    del: Request,
    get: Request,
)
    requires
        store_wf(m),
        is_request_for(del, Method::Delete, kv_path(key), Seq::empty(), None, dc),
        is_request_for(get, Method::Get, kv_path(key), Seq::empty(), None, dc),
    ensures
        agent_kv(m, del).1 == KvAnswer::Written(true),
        agent_kv(agent_kv(m, del).0, del).1 == KvAnswer::Written(true),
        agent_kv(agent_kv(agent_kv(m, del).0, del).0, get).1 == KvAnswer::Read(Seq::empty()),
{
    lemma_key_read(key);
    lemma_names_distinct();
    assert(Seq::<(Seq<char>, Seq<char>)>::empty() + query_params(None, dc) =~= query_params(
        None,
        dc,
    ));
    lemma_plain_params(dc, "recurse"@);
    lemma_delete_twice(m, key);
    let m2 = store_delete(store_delete(m, key), key);
    assert(entry_list(m2, key) =~= Seq::<EntryModel>::empty());
}

/// Change indexes seen through the client never go down: against an agent
/// that keeps the store's semantics, after a write that
/// [`crate::Client::put_entry`] builds, a read of the key reports a change
/// index no lower than the one it reported before the write.
pub proof fn lemma_client_put_index_grows(
    m: StoreModel,
    dc: Option<String>,
    key: Seq<char>,
    value: String,
    flags: Option<u64>,
    put: Request,
    get: Request,
)
    requires
        store_wf(m),
        lookup(m, key) is Some,
        is_request_for(put, Method::Put, kv_path(key), flag_params(flags), None, dc),
        put.body == Body::Raw(value),
        is_request_for(get, Method::Get, kv_path(key), Seq::empty(), None, dc),
    ensures
        agent_kv(m, get).1 is Read,
        agent_kv(m, get).1->Read_0.len() == 1,
        agent_kv(agent_kv(m, put).0, get).1 is Read,
        agent_kv(agent_kv(m, put).0, get).1->Read_0.len() == 1,
        agent_kv(agent_kv(m, put).0, get).1->Read_0[0].modify_index >= agent_kv(
            m,
            get,
        ).1->Read_0[0].modify_index,
{
    lemma_key_read(key);
    lemma_names_distinct();
    lemma_flags_read(flags, dc, "acquire"@);
    lemma_flags_read(flags, dc, "release"@);
    assert(Seq::<(Seq<char>, Seq<char>)>::empty() + query_params(None, dc) =~= query_params(
        None,
        dc,
    ));
    lemma_plain_params(dc, "recurse"@);
    lemma_put_then_get(m, key, value@, or_zero(flags));
    lemma_put_index_grows(m, key, value@, or_zero(flags));
}

/// Lock exclusivity through the client: against an agent that keeps the
/// store's semantics, once the acquire that [`crate::Client::acquire_entry`]
/// builds for session `s1` on a key was accepted, the acquire it builds for
/// another session `s2` on that key is refused and changes nothing.
pub proof fn lemma_client_lock_exclusive(
    m: StoreModel,
    dc: Option<String>,
    key: Seq<char>,
    s1: String,
    s2: String,
    value: String,
    flags: Option<u64>,
    first: Request,
    second: Request,
)
    requires
        store_wf(m),
        s1@ != s2@,
        is_request_for(
            first,
            Method::Put,
            kv_path(key),
            flag_params(flags) + seq![("acquire"@, s1@)],
            None,
            dc,
        ),
        first.body == Body::Raw(value),
        is_request_for(
            second,
            Method::Put,
            kv_path(key),
            flag_params(flags) + seq![("acquire"@, s2@)],
            None,
            dc,
        ),
        second.body == Body::Raw(value),
        agent_kv(m, first).1 == KvAnswer::Written(true),
    ensures
        agent_kv(agent_kv(m, first).0, second).1 == KvAnswer::Written(false),
        agent_kv(agent_kv(m, first).0, second).0 == agent_kv(m, first).0,
{
    lemma_key_read(key);
    lemma_names_distinct();
    lemma_acquire_params(flags, dc, s1);
    lemma_acquire_params(flags, dc, s2);
    let m1 = agent_kv(m, first).0;
    crate::store::lemma_acquire_held(m, key, value@, or_zero(flags), s1@);
    lemma_lock_exclusive(m1, key, s1@, s2@, value@, or_zero(flags));
}

/// The number that the query parameter `name` writes in decimal; zero
/// without one.
pub open spec fn number_param(ps: Seq<(Seq<char>, Seq<char>)>, name: Seq<char>) -> u64 {
    match param(ps, name) {
        Some(t) => if exists|n: u64| decimal(n as nat) == t {
            choose|n: u64| decimal(n as nat) == t
        } else {
            0
        },
        None => 0,
    }
}

/// When the agent answers a blocking read `r` of one key: with the read's
/// change index once it has moved past the `index` parameter (or at once
/// without one), `None` while it holds the answer back.
pub open spec fn agent_poll(m: StoreModel, r: Request) -> Option<u64> {
    let ps = crate::request::pairs_view(r.params@);
    match kv_key_of(r.path@) {
        Some(key) => if poll_ready(m, key, number_param(ps, "index"@)) {
            Some(query_index(m, key))
        } else {
            None
        },
        None => None,
    }
}

/// Wake on change through the client: against an agent that keeps the
/// store's semantics, a blocking read that [`crate::Client::get_entry`] builds
/// with the index `last_index` the reader saw is answered once the write that
/// [`crate::Client::put_entry`] builds for the key is applied, with a change
/// index above `last_index`.
pub proof fn lemma_client_write_wakes_read(
    m: StoreModel,
    dc: Option<String>,
    key: Seq<char>,
    value: String,
    flags: Option<u64>,
    options: QueryOptions,
    put: Request,
    get: Request,
)
    requires
        store_wf(m),
        options.wait_index is Some,
        options.wait_index->Some_0 <= m.index,
        m.index < u64::MAX,
        is_request_for(put, Method::Put, kv_path(key), flag_params(flags), None, dc),
        put.body == Body::Raw(value),
        is_request_for(get, Method::Get, kv_path(key), Seq::empty(), Some(options), dc),
    ensures
        agent_poll(agent_kv(m, put).0, get) is Some,
        agent_poll(agent_kv(m, put).0, get)->Some_0 > options.wait_index->Some_0,
{
    lemma_key_read(key);
    lemma_names_distinct();
    lemma_flags_read(flags, dc, "acquire"@);
    lemma_flags_read(flags, dc, "release"@);
    let i = options.wait_index->Some_0;
    let o = Some(options);
    let dcs = match chosen_datacenter(o, dc) {
        Some(d) => seq![("dc"@, d)],
        None => Seq::<(Seq<char>, Seq<char>)>::empty(),
    };
    let idx = seq![("index"@, decimal(i as nat))];
    let waits = match wait_time_of(o) {
        Some(w) => seq![("wait"@, decimal(w as nat) + "s"@)],
        None => Seq::<(Seq<char>, Seq<char>)>::empty(),
    };
    let flts = match filter_of(o) {
        Some(f) => seq![("filter"@, f)],
        None => Seq::<(Seq<char>, Seq<char>)>::empty(),
    };
    let ps = crate::request::pairs_view(get.params@);
    assert(ps =~= dcs + (idx + (waits + flts)));
    reveal_strlit("index");
    reveal_strlit("dc");
    assert("dc"@.len() != "index"@.len());
    lemma_param_concat(dcs, idx + (waits + flts), "index"@);
    lemma_param_concat(idx, waits + flts, "index"@);
    lemma_param_single(("index"@, decimal(i as nat)), "index"@);
    match chosen_datacenter(o, dc) {
        Some(d) => lemma_param_single(("dc"@, d), "index"@),
        None => {},
    }
    assert(param(ps, "index"@) == Some(decimal(i as nat)));
    let n = choose|n: u64| decimal(n as nat) == decimal(i as nat);
    crate::store::lemma_decimal_injective(n as nat, i as nat);
    assert(number_param(ps, "index"@) == i);
    assert(agent_kv(m, put).0 == store_put(m, key, value@, or_zero(flags)));
    lemma_write_wakes_watcher(m, key, value@, or_zero(flags), i);
}

/// A lost session gets no lock through the client: against an agent that
/// keeps the store's semantics and no longer knows session `s` (it expired or
/// was destroyed), the acquire that [`crate::Client::acquire_entry`] builds
/// for `s` is refused and changes nothing. (Once the keep-alive has given the
/// session up, it vouches for no session, and the client builds no acquire at
/// all: see [`crate::keepalive::lemma_failures_lose_session`].)
pub proof fn lemma_client_lost_session_refused(
    m: StoreModel,
    dc: Option<String>,
    key: Seq<char>,
    s: String,
    value: String,
    flags: Option<u64>,
    req: Request,
)
    requires
        !m.sessions.contains(s@),
        is_request_for(
            req,
            Method::Put,
            kv_path(key),
            flag_params(flags) + seq![("acquire"@, s@)],
            None,
            dc,
        ),
        req.body == Body::Raw(value),
    ensures
        agent_kv(m, req) == (m, KvAnswer::Written(false)),
{
    lemma_key_read(key);
    lemma_acquire_params(flags, dc, s);
}

} // verus!
