//! Requests to the agent, and the reading of its responses.
//!
//! The library does not move bytes itself: it describes each request as a
//! [`Request`] value, a transport supplied by the caller carries it, and the
//! transport's answer comes back as a [`Response`] value.

use crate::error::{self, Error, Kind};
use crate::payload::{QueryMeta, QueryOptions};
use crate::session::SessionEntry;
use vstd::prelude::*;

verus! {

/// The HTTP methods the API uses.
#[derive(Debug, Clone, Copy, PartialEq, Eq, Structural)]
pub enum Method {
    Get,
    Put,
    Delete,
}

/// The body of a request.
#[derive(Debug, Clone)]
pub enum Body {
    /// No body.
    Empty,
    /// These bytes, sent as they are.
    Raw(String),
    /// A session definition, sent as its JSON object.
    Session(SessionEntry),
}

/// A request to the agent: a method, a path below the agent's address, query
/// parameters in order, and a body.
#[derive(Debug, Clone)]
pub struct Request {
    pub method: Method,
    pub path: String,
    pub params: Vec<(String, String)>,
    pub body: Body,
}

/// The agent's answer as the transport hands it over: the status code, the
/// change-index header when there was one, and the body text.
#[derive(Debug, Clone)]
pub struct Response {
    pub status: u16,
    pub index: Option<u64>,
    pub body: String,
}

/// A copy of an optional text.
pub fn copy_text(o: &Option<String>) -> (r: Option<String>)
    ensures
        r == *o,
{
    match o {
        Some(s) => Some(s.clone()),
        None => None,
    }
}

/// A list of text pairs, as sequences of characters.
pub open spec fn pairs_view(v: Seq<(String, String)>) -> Seq<(Seq<char>, Seq<char>)> {
    v.map_values(|p: (String, String)| (p.0@, p.1@))
}

/// The digit character of `d < 10`.
pub open spec fn digit_char(d: nat) -> char {
    if d == 0 { '0' }
    else if d == 1 { '1' }
    else if d == 2 { '2' }
    else if d == 3 { '3' }
    else if d == 4 { '4' }
    else if d == 5 { '5' }
    else if d == 6 { '6' }
    else if d == 7 { '7' }
    else if d == 8 { '8' }
    else { '9' }
}

/// The decimal notation of `n`, without leading zeros.
pub open spec fn decimal(n: nat) -> Seq<char>
    decreases n,
{
    if n < 10 {
        seq![digit_char(n)]
    } else {
        decimal(n / 10).push(digit_char(n % 10))
    }
}

/// The one-character text of the digit `d`.
fn digit_text(d: u64) -> (r: &'static str)
    requires
        d < 10,
    ensures
        r@ == seq![digit_char(d as nat)],
{
    if d == 0 {
        proof {
            reveal_strlit("0");
        }
        "0"
    } else if d == 1 {
        proof {
            reveal_strlit("1");
        }
        "1"
    } else if d == 2 {
        proof {
            reveal_strlit("2");
        }
        "2"
    } else if d == 3 {
        proof {
            reveal_strlit("3");
        }
        "3"
    } else if d == 4 {
        proof {
            reveal_strlit("4");
        }
        "4"
    } else if d == 5 {
        proof {
            reveal_strlit("5");
        }
        "5"
    } else if d == 6 {
        proof {
            reveal_strlit("6");
        }
        "6"
    } else if d == 7 {
        proof {
            reveal_strlit("7");
        }
        "7"
    } else if d == 8 {
        proof {
            reveal_strlit("8");
        }
        "8"
    } else {
        proof {
            reveal_strlit("9");
        }
        "9"
    }
}

/// The decimal notation of `n`.
pub(crate) fn decimal_text(n: u64) -> (r: String)
    ensures
        r@ == decimal(n as nat),
    decreases n,
{
    if n < 10 {
        String::from_str(digit_text(n))
    } else {
        let mut s = decimal_text(n / 10);
        s.append(digit_text(n % 10));
        s
    }
}

/// The query parameters that a read's options add, after those of the
/// operation itself: the datacenter (the option's, else the client's), the
/// index to wait on, the wait time in seconds, and the filter.
pub open spec fn option_params(
    datacenter: Option<Seq<char>>,
    wait_index: Option<u64>,
    wait_time: Option<u64>,
    filter: Option<Seq<char>>,
) -> Seq<(Seq<char>, Seq<char>)> {
    let dc = match datacenter {
        Some(d) => seq![("dc"@, d)],
        None => Seq::empty(),
    };
    let idx = match wait_index {
        Some(i) => seq![("index"@, decimal(i as nat))],
        None => Seq::empty(),
    };
    let wait = match wait_time {
        Some(w) => seq![("wait"@, decimal(w as nat) + "s"@)],
        None => Seq::empty(),
    };
    let flt = match filter {
        Some(f) => seq![("filter"@, f)],
        None => Seq::empty(),
    };
    dc + idx + wait + flt
}

/// The datacenter a request goes to: the one in its options, else the
/// client's default.
pub open spec fn chosen_datacenter(
    options: Option<QueryOptions>,
    default_dc: Option<String>,
) -> Option<Seq<char>> {
    match options {
        Some(o) if o.datacenter is Some => Some(o.datacenter->Some_0@),
        _ => match default_dc {
            Some(d) => Some(d@),
            None => None,
        },
    }
}

/// The index to wait on that the options ask for.
pub open spec fn wait_index_of(options: Option<QueryOptions>) -> Option<u64> {
    match options {
        Some(o) => o.wait_index,
        None => None,
    }
}

/// The wait time that the options ask for.
pub open spec fn wait_time_of(options: Option<QueryOptions>) -> Option<u64> {
    match options {
        Some(o) => o.wait_time,
        None => None,
    }
}

/// The filter that the options ask for.
pub open spec fn filter_of(options: Option<QueryOptions>) -> Option<Seq<char>> {
    match options {
        Some(o) => match o.filter {
            Some(f) => Some(f@),
            None => None,
        },
        None => None,
    }
}

/// The parameters that `options` adds to a request of a client whose default
/// datacenter is `default_dc`.
pub open spec fn query_params(
    options: Option<QueryOptions>,
    default_dc: Option<String>,
) -> Seq<(Seq<char>, Seq<char>)> {
    option_params(
        chosen_datacenter(options, default_dc),
        wait_index_of(options),
        wait_time_of(options),
        filter_of(options),
    )
}

/// Appends to `params` the parameters that `options` asks for.
pub fn push_option_params(
    params: &mut Vec<(String, String)>,
    options: &Option<QueryOptions>,
    default_dc: &Option<String>,
)
    ensures
        pairs_view(final(params)@) == pairs_view(old(params)@) + query_params(
            *options,
            *default_dc,
        ),
{
    let ghost start = pairs_view(params@);
    let dc: Option<&String> = match options {
        Some(o) => match &o.datacenter {
            Some(d) => Some(d),
            None => default_dc.as_ref(),
        },
        None => default_dc.as_ref(),
    };
    if let Some(d) = dc {
        params.push((String::from_str("dc"), d.clone()));
    }
    let ghost after_dc = pairs_view(params@);
    let (wait_index, wait_time) = match options {
        Some(o) => (o.wait_index, o.wait_time),
        None => (None, None),
    };
    if let Some(i) = wait_index {
        params.push((String::from_str("index"), decimal_text(i)));
    }
    let ghost after_idx = pairs_view(params@);
    if let Some(w) = wait_time {
        let mut text = decimal_text(w);
        text.append("s");
        params.push((String::from_str("wait"), text));
    }
    let ghost after_wait = pairs_view(params@);
    if let Some(o) = options {
        if let Some(f) = &o.filter {
            params.push((String::from_str("filter"), f.clone()));
        }
    }
    proof {
        let dcs = match chosen_datacenter(*options, *default_dc) {
            Some(d) => seq![("dc"@, d)],
            None => Seq::<(Seq<char>, Seq<char>)>::empty(),
        };
        let idx = match wait_index_of(*options) {
            Some(i) => seq![("index"@, decimal(i as nat))],
            None => Seq::<(Seq<char>, Seq<char>)>::empty(),
        };
        let waits = match wait_time_of(*options) {
            Some(w) => seq![("wait"@, decimal(w as nat) + "s"@)],
            None => Seq::<(Seq<char>, Seq<char>)>::empty(),
        };
        assert(after_dc =~= start + dcs);
        assert(after_idx =~= start + dcs + idx);
        let flts = match filter_of(*options) {
            Some(f) => seq![("filter"@, f)],
            None => Seq::<(Seq<char>, Seq<char>)>::empty(),
        };
        assert(after_wait =~= start + dcs + idx + waits);
        assert(pairs_view(params@) =~= start + dcs + idx + waits + flts);
        assert(start + (dcs + idx + waits + flts) =~= start + dcs + idx + waits + flts);
    }
}

/// The URL text that the `url` crate makes of `base` with the form-encoded
/// query `params` appended, or `None` where `base` does not parse as a URL.
pub uninterp spec fn url_with_query(
    base: Seq<char>,
    params: Seq<(Seq<char>, Seq<char>)>,
) -> Option<Seq<char>>;

/// The longest URL source, in characters, that [`request_url`] accepts:
/// the base, and each parameter's name and value counted with its two
/// separators.
pub const MAX_URL_SOURCE: u64 = 100_000_000;

/// The characters that `params` adds to a URL source: each name and value,
/// and two separators (`=` and `&`) per pair.
pub open spec fn params_len(params: Seq<(Seq<char>, Seq<char>)>) -> nat
    decreases params.len(),
{
    if params.len() == 0 {
        0
    } else {
        params_len(params.drop_last()) + params.last().0.len() + params.last().1.len() + 2
    }
}

/// Relies on `url::Url::parse_with_params`: it parses `base` and appends
/// `params` as the form-encoded query; the outcome depends on the arguments
/// alone. The parsed URL's length must stay within `u32`, which the crate
/// unwraps when it opens the query (`query_pairs_mut`) and when it puts a
/// fragment back after the parameters. Each character serializes to at most
/// twelve bytes (four UTF-8 bytes, percent-encoded), and each pair adds two
/// separators, so the bound on the base and all the parameters together keeps
/// the URL under 1.3 GB.
#[verifier::external_body]
fn parse_with_params(base: &str, params: &Vec<(String, String)>) -> (r: Option<String>)
    requires
        base@.len() + params_len(pairs_view(params@)) <= MAX_URL_SOURCE,
    ensures
        url_with_query(base@, pairs_view(params@)) == match r {
            Some(u) => Some(u@),
            None => None::<Seq<char>>,
        },
{
    url::Url::parse_with_params(base, params.iter()).ok().map(String::from)
}

/// Whether `base` with `params` fits the bound of [`MAX_URL_SOURCE`].
fn fits_url_source(base: &str, params: &Vec<(String, String)>) -> (r: bool)
    ensures
        r == (base@.len() + params_len(pairs_view(params@)) <= MAX_URL_SOURCE),
{
    let base_len = base.unicode_len();
    if base_len as u64 > MAX_URL_SOURCE {
        return false;
    }
    let mut total: u64 = base_len as u64;
    let mut i: usize = 0;
    while i < params.len()
        invariant
            i <= params@.len(),
            total == base@.len() + params_len(pairs_view(params@).take(i as int)),
            total <= MAX_URL_SOURCE,
        decreases params@.len() - i,
    {
        proof {
            let v = pairs_view(params@);
            assert(v.take(i + 1).drop_last() =~= v.take(i as int));
            assert(v.take(i + 1).last() == v[i as int]);
        }
        let name_len = params[i].0.as_str().unicode_len() as u64;
        let value_len = params[i].1.as_str().unicode_len() as u64;
        if name_len > MAX_URL_SOURCE - total || value_len > MAX_URL_SOURCE - total - name_len
            || 2 > MAX_URL_SOURCE - total - name_len - value_len {
            proof {
                lemma_params_len_grows(pairs_view(params@), i as int + 1);
            }
            return false;
        }
        total = total + name_len + value_len + 2;
        i = i + 1;
    }
    assert(pairs_view(params@).take(params@.len() as int) =~= pairs_view(params@));
    true
}

proof fn lemma_params_len_grows(params: Seq<(Seq<char>, Seq<char>)>, i: int)
    requires
        0 <= i <= params.len(),
    ensures
        params_len(params.take(i)) <= params_len(params),
    decreases params.len() - i,
{
    if i < params.len() {
        lemma_params_len_grows(params, i + 1);
        assert(params.take(i + 1).drop_last() =~= params.take(i));
    } else {
        assert(params.take(i) =~= params);
    }
}

/// The URL of `req` on the agent at `address`: the address followed by the
/// request's path, with its parameters as the query. A `Builder` error when
/// the address, path and parameters together are longer than
/// [`MAX_URL_SOURCE`], or when they do not parse as a URL.
pub fn request_url(address: &str, req: &Request) -> (r: Result<String, Error>)
    ensures
        if address@.len() + req.path@.len() + params_len(pairs_view(req.params@))
            > MAX_URL_SOURCE {
            r is Err && r->Err_0.spec_kind() == Kind::Builder
        } else {
            match url_with_query(address@ + req.path@, pairs_view(req.params@)) {
                Some(u) => r is Ok && r->Ok_0@ == u,
                None => r is Err && r->Err_0.spec_kind() == Kind::Builder,
            }
        },
{
    let mut base = String::from_str(address);
    base.append(req.path.as_str());
    if !fits_url_source(base.as_str(), &req.params) {
        return Err(error::builder(String::from_str("URL too long")));
    }
    match parse_with_params(base.as_str(), &req.params) {
        Some(u) => Ok(u),
        None => {
            let mut msg = String::from_str("invalid URL: ");
            msg.append(base.as_str());
            Err(error::builder(msg))
        },
    }
}

/// Whether `status` is a success (2xx).
pub open spec fn is_success(status: u16) -> bool {
    200 <= status < 300
}

/// What a read makes of a response, `decoded` being the transport's decoding
/// of its body: `None` for "not found" or an empty body, the decoded value on
/// success, an `UnexpectedResponse` error with the body for any other status,
/// and a `Decode` error when the body did not decode.
pub open spec fn read_outcome<T>(
    status: u16,
    body: Seq<char>,
    decoded: Result<T, String>,
) -> Result<Option<T>, (Kind, Seq<char>)> {
    if status == 404 {
        Ok(None)
    } else if !is_success(status) {
        Err((Kind::UnexpectedResponse, body))
    } else if body.len() == 0 {
        Ok(None)
    } else {
        match decoded {
            Ok(v) => Ok(Some(v)),
            Err(e) => Err((Kind::Decode, e@)),
        }
    }
}

/// Whether `r` is the library's rendering of the outcome `o`.
pub open spec fn matches_outcome<T>(
    r: Result<Option<T>, Error>,
    o: Result<Option<T>, (Kind, Seq<char>)>,
) -> bool {
    match (r, o) {
        (Ok(a), Ok(b)) => a == b,
        (Err(e), Err((k, s))) => e.spec_kind() == k && e.spec_source() == Some(s),
        _ => false,
    }
}

/// Reads a response to a query: see [`read_outcome`].
pub fn read_response<T>(resp: &Response, decoded: Result<T, String>) -> (r: Result<
    Option<T>,
    Error,
>)
    ensures
        matches_outcome(r, read_outcome(resp.status, resp.body@, decoded)),
{
    if resp.status == 404 {
        Ok(None)
    } else if resp.status < 200 || resp.status >= 300 {
        Err(error::unexpected_response(resp.body.clone()))
    } else if resp.body.as_str().unicode_len() == 0 {
        Ok(None)
    } else {
        match decoded {
            Ok(v) => Ok(Some(v)),
            Err(e) => Err(error::decode(e)),
        }
    }
}

/// The metadata of a read: its change index, which must be there.
pub fn query_meta(resp: &Response, request_time: u64) -> (r: Result<QueryMeta, Error>)
    ensures
        match resp.index {
            Some(i) => r == Ok::<QueryMeta, Error>(
                QueryMeta { last_index: Some(i), request_time },
            ),
            None => r is Err && r->Err_0.spec_kind() == Kind::MissingIndex,
        },
{
    match resp.index {
        Some(i) => Ok(QueryMeta { last_index: Some(i), request_time }),
        None => Err(error::missing_index()),
    }
}

/// Whether two texts are equal.
pub fn text_eq(a: &str, b: &str) -> (r: bool)
    ensures
        r == (a@ == b@),
{
    let n = a.unicode_len();
    if n != b.unicode_len() {
        return false;
    }
    let mut i: usize = 0;
    while i < n
        invariant
            n == a@.len(),
            n == b@.len(),
            i <= n,
            forall|j: int| 0 <= j < i ==> a@[j] == b@[j],
        decreases n - i,
    {
        if a.get_char(i) != b.get_char(i) {
            return false;
        }
        i = i + 1;
    }
    assert(a@ =~= b@);
    true
}

/// What a write makes of a response: the agent's `true` or `false` on
/// success, an `UnexpectedResponse` error with the body for any other status,
/// and a `Decode` error for any other body.
pub open spec fn write_outcome(status: u16, body: Seq<char>) -> Result<bool, (Kind, Seq<char>)> {
    if !is_success(status) {
        Err((Kind::UnexpectedResponse, body))
    } else if body == "true"@ {
        Ok(true)
    } else if body == "false"@ {
        Ok(false)
    } else {
        Err((Kind::Decode, body))
    }
}

/// Reads the response to a write: see [`write_outcome`].
pub fn write_response(resp: &Response) -> (r: Result<bool, Error>)
    ensures
        match (r, write_outcome(resp.status, resp.body@)) {
            (Ok(a), Ok(b)) => a == b,
            (Err(e), Err((k, s))) => e.spec_kind() == k && e.spec_source() == Some(s),
            _ => false,
        },
{
    if resp.status < 200 || resp.status >= 300 {
        Err(error::unexpected_response(resp.body.clone()))
    } else if text_eq(resp.body.as_str(), "true") {
        Ok(true)
    } else if text_eq(resp.body.as_str(), "false") {
        Ok(false)
    } else {
        Err(error::decode(resp.body.clone()))
    }
}

} // verus!

verus! {

/// Whether `s` begins with `prefix`.
pub fn has_prefix(s: &str, prefix: &str) -> (r: bool)
    ensures
        r == (prefix@.len() <= s@.len() && s@.subrange(0, prefix@.len() as int) == prefix@),
{
    let n = prefix.unicode_len();
    if n > s.unicode_len() {
        return false;
    }
    let mut i: usize = 0;
    while i < n
        invariant
            n == prefix@.len(),
            n <= s@.len(),
            i <= n,
            forall|j: int| 0 <= j < i ==> s@[j] == prefix@[j],
        decreases n - i,
    {
        if s.get_char(i) != prefix.get_char(i) {
            assert(s@.subrange(0, n as int)[i as int] != prefix@[i as int]);
            return false;
        }
        i = i + 1;
    }
    assert(s@.subrange(0, n as int) =~= prefix@);
    true
}

} // verus!

verus! {

/// The item that a read of one item returns: the first of the decoded list,
/// or none when there is nothing (see [`read_outcome`]).
pub open spec fn first_outcome<T>(
    status: u16,
    body: Seq<char>,
    decoded: Result<Vec<T>, String>,
) -> Result<Option<T>, (Kind, Seq<char>)> {
    match read_outcome(status, body, decoded) {
        Ok(Some(v)) => if v@.len() > 0 {
            Ok(Some(v@[0]))
        } else {
            Ok(None)
        },
        Ok(None) => Ok(None),
        Err(e) => Err(e),
    }
}

/// Reads the answer to a read of one item: see [`first_outcome`].
pub fn first_response<T>(resp: &Response, decoded: Result<Vec<T>, String>) -> (r: Result<
    Option<T>,
    Error,
>)
    ensures
        matches_outcome(r, first_outcome(resp.status, resp.body@, decoded)),
{
    match read_response(resp, decoded) {
        Ok(Some(v)) => {
            if v.len() > 0 {
                let mut v = v;
                Ok(Some(v.swap_remove(0)))
            } else {
                Ok(None)
            }
        },
        Ok(None) => Ok(None),
        Err(e) => Err(e),
    }
}

/// The items that a listing returns: none when there is nothing (see
/// [`read_outcome`]).
pub open spec fn list_outcome<T>(
    status: u16,
    body: Seq<char>,
    decoded: Result<Vec<T>, String>,
) -> Result<Seq<T>, (Kind, Seq<char>)> {
    match read_outcome(status, body, decoded) {
        Ok(Some(v)) => Ok(v@),
        Ok(None) => Ok(Seq::empty()),
        Err(e) => Err(e),
    }
}

/// Whether `r` is the library's rendering of the listing outcome `o`.
pub open spec fn matches_list<T>(r: Result<Vec<T>, Error>, o: Result<Seq<T>, (Kind, Seq<char>)>) -> bool {
    match (r, o) {
        (Ok(a), Ok(b)) => a@ == b,
        (Err(e), Err((k, s))) => e.spec_kind() == k && e.spec_source() == Some(s),
        _ => false,
    }
}

/// Reads the answer to a listing: see [`list_outcome`].
pub fn list_response<T>(resp: &Response, decoded: Result<Vec<T>, String>) -> (r: Result<
    Vec<T>,
    Error,
>)
    ensures
        matches_list(r, list_outcome(resp.status, resp.body@, decoded)),
{
    match read_response(resp, decoded) {
        Ok(Some(v)) => Ok(v),
        Ok(None) => Ok(Vec::new()),
        Err(e) => Err(e),
    }
}

} // verus!
