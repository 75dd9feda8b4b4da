//! Health queries: the checks of the nodes and services in the catalog.

use crate::agent::AgentService;
use crate::client::{Client, Sealed};
use crate::payload::QueryOptions;
use crate::request::{
    chosen_datacenter, copy_text, filter_of, option_params, pairs_view, push_option_params,
    query_params, wait_index_of, wait_time_of, Body, Method, Request,
};
use std::collections::HashMap;
use vstd::prelude::*;

verus! {

/// A health check of a node or a service.
#[derive(Debug, Default, Clone, PartialEq, Eq)]
pub struct HealthCheck {
    pub node: String,
    pub check_id: String,
    pub name: String,
    pub status: String,
    pub notes: String,
    pub output: String,
    pub service_id: String,
    pub service_name: String,
    pub service_tags: Option<Vec<String>>,
}

/// A node as the health endpoints describe it.
#[derive(Debug, Default, Clone, PartialEq, Eq)]
pub struct Node {
    pub id: String,
    pub node: String,
    pub address: String,
    pub datacenter: Option<String>,
    pub tagged_addresses: Option<HashMap<String, String>>,
    pub meta: Option<HashMap<String, String>>,
    pub create_index: u64,
    pub modify_index: u64,
}

/// A service instance with its node and its checks.
#[derive(Debug, Default, Clone, PartialEq, Eq)]
pub struct ServiceEntry {
    pub node: Node,
    pub service: AgentService,
    pub checks: Vec<HealthCheck>,
}

/// `clause` joined to the filter `filter`: `(filter) and clause`, or the
/// clause alone when there is no filter or it is empty.
pub open spec fn and_clause(filter: Option<Seq<char>>, clause: Seq<char>) -> Seq<char> {
    match filter {
        Some(f) => if f.len() > 0 {
            "("@ + f + ") and "@ + clause
        } else {
            clause
        },
        None => clause,
    }
}

/// The filter of a query of a service's instances: the tag, when given,
/// must be among the service's tags.
pub open spec fn service_filter(filter: Option<Seq<char>>, tag: Option<Seq<char>>) -> Option<
    Seq<char>,
> {
    match tag {
        Some(t) => Some(and_clause(filter, "\""@ + t + "\" in Service.Tags"@)),
        None => filter,
    }
}

/// The filter of a query of a node's checks: the service name when given,
/// else the check id when given; then the tag, when given.
pub open spec fn node_filter(
    filter: Option<Seq<char>>,
    check_id: Option<Seq<char>>,
    service_name: Option<Seq<char>>,
    tag: Option<Seq<char>>,
) -> Option<Seq<char>> {
    let first = match service_name {
        Some(s) => Some(and_clause(filter, "ServiceName == \""@ + s + "\""@)),
        None => match check_id {
            Some(c) => Some(and_clause(filter, "CheckID == \""@ + c + "\""@)),
            None => filter,
        },
    };
    match tag {
        Some(t) => Some(and_clause(first, "\""@ + t + "\" in ServiceTags"@)),
        None => first,
    }
}

/// An optional text as a sequence of characters.
pub open spec fn opt_view(o: Option<&str>) -> Option<Seq<char>> {
    match o {
        Some(s) => Some(s@),
        None => None,
    }
}

fn and_clause_text(filter: &Option<String>, clause: String) -> (r: String)
    ensures
        r@ == and_clause(
            match filter {
                Some(f) => Some(f@),
                None => None,
            },
            clause@,
        ),
{
    match filter {
        Some(f) => {
            if f.as_str().unicode_len() > 0 {
                let mut s = String::from_str("(");
                s.append(f.as_str());
                s.append(") and ");
                s.append(clause.as_str());
                s
            } else {
                clause
            }
        },
        None => clause,
    }
}

fn quoted_clause(before: &str, value: &str, after: &str) -> (r: String)
    ensures
        r@ == before@ + value@ + after@,
{
    let mut s = String::from_str(before);
    s.append(value);
    s.append(after);
    s
}

fn with_filter(options: &Option<QueryOptions>, filter: Option<String>) -> (r: Option<QueryOptions>)
    ensures
        r is Some,
        chosen_datacenter(r, None) == chosen_datacenter(*options, None),
        forall|dc: Option<String>| chosen_datacenter(r, dc) == chosen_datacenter(*options, dc),
        wait_index_of(r) == wait_index_of(*options),
        wait_time_of(r) == wait_time_of(*options),
        filter_of(r) == match filter {
            Some(f) => Some(f@),
            None => None::<Seq<char>>,
        },
{
    match options {
        Some(o) => Some(
            QueryOptions {
                datacenter: copy_text(&o.datacenter),
                wait_index: o.wait_index,
                wait_time: o.wait_time,
                filter,
            },
        ),
        None => Some(QueryOptions { datacenter: None, wait_index: None, wait_time: None, filter }),
    }
}

/// The health endpoints.
pub trait Health: Sealed {
    /// The datacenter that requests go to when their options name none.
    spec fn default_datacenter(&self) -> Option<String>;

    /// The request for the instances of `service` with their checks: only
    /// those passing every check when `passing_only` is set, only those
    /// tagged `tag` when given.
    fn service(
        &self,
        service: &str,
        tag: Option<&str>,
        passing_only: bool,
        options: &Option<QueryOptions>,
    ) -> (r: Request)
        ensures
            r.method == Method::Get,
            r.path@ == "/v1/health/service/"@ + service@,
            r.body is Empty,
            pairs_view(r.params@) == (if passing_only {
                seq![("passing"@, "1"@)]
            } else {
                Seq::empty()
            }) + option_params(
                chosen_datacenter(*options, self.default_datacenter()),
                wait_index_of(*options),
                wait_time_of(*options),
                service_filter(filter_of(*options), opt_view(tag)),
            ),
    ;

    /// The request for the checks of `node`: only those of the service
    /// `service_name` when given, else only the check `check_id` when given;
    /// only those of services tagged `tag` when given.
    fn node(
        &self,
        node: &str,
        check_id: Option<&str>,
        service_name: Option<&str>,
        tag: Option<&str>,
        options: &Option<QueryOptions>,
    ) -> (r: Request)
        ensures
            r.method == Method::Get,
            r.path@ == "/v1/health/node/"@ + node@,
            r.body is Empty,
            pairs_view(r.params@) == option_params(
                chosen_datacenter(*options, self.default_datacenter()),
                wait_index_of(*options),
                wait_time_of(*options),
                node_filter(
                    filter_of(*options),
                    opt_view(check_id),
                    opt_view(service_name),
                    opt_view(tag),
                ),
            ),
    ;
}

impl Health for Client {
    open spec fn default_datacenter(&self) -> Option<String> {
        self.config.datacenter
    }

    fn service(
        &self,
        service: &str,
        tag: Option<&str>,
        passing_only: bool,
        options: &Option<QueryOptions>,
    ) -> (r: Request) {
        let mut params: Vec<(String, String)> = Vec::new();
        if passing_only {
            params.push((String::from_str("passing"), String::from_str("1")));
        }
        let ghost lead = pairs_view(params@);
        assert(lead =~= if passing_only {
            seq![("passing"@, "1"@)]
        } else {
            Seq::empty()
        });
        let filter: Option<String> = match tag {
            Some(t) => {
                let clause = quoted_clause("\"", t, "\" in Service.Tags");
                let base = match options {
                    Some(o) => copy_text(&o.filter),
                    None => None,
                };
                Some(and_clause_text(&base, clause))
            },
            None => match options {
                Some(o) => copy_text(&o.filter),
                None => None,
            },
        };
        let opts = with_filter(options, filter);
        push_option_params(&mut params, &opts, &self.config.datacenter);
        let mut path = String::from_str("/v1/health/service/");
        path.append(service);
        Request { method: Method::Get, path, params, body: Body::Empty }
    }

    fn node(
        &self,
        node: &str,
        check_id: Option<&str>,
        service_name: Option<&str>,
        tag: Option<&str>,
        options: &Option<QueryOptions>,
    ) -> (r: Request) {
        let base = match options {
            Some(o) => copy_text(&o.filter),
            None => None,
        };
        let first: Option<String> = match service_name {
            Some(s) => Some(and_clause_text(&base, quoted_clause("ServiceName == \"", s, "\""))),
            None => match check_id {
                Some(c) => Some(and_clause_text(&base, quoted_clause("CheckID == \"", c, "\""))),
                None => base,
            },
        };
        let filter: Option<String> = match tag {
            Some(t) => Some(and_clause_text(&first, quoted_clause("\"", t, "\" in ServiceTags"))),
            None => first,
        };
        let opts = with_filter(options, filter);
        let mut params: Vec<(String, String)> = Vec::new();
        push_option_params(&mut params, &opts, &self.config.datacenter);
        assert(pairs_view(params@) =~= query_params(opts, self.config.datacenter));
        let mut path = String::from_str("/v1/health/node/");
        path.append(node);
        Request { method: Method::Get, path, params, body: Body::Empty }
    }
}

} // verus!
