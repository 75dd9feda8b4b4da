//! The cluster's status: its leader and its peers.

use crate::client::{Client, Sealed};
use crate::payload::QueryOptions;
use crate::request::{pairs_view, push_option_params, query_params, Body, Method, Request};
use vstd::prelude::*;

verus! {

/// The status endpoints.
pub trait Status: Sealed {
    /// The datacenter that requests go to when their options name none.
    spec fn default_datacenter(&self) -> Option<String>;

    /// The request for the address of the cluster's leader.
    fn leader(&self, options: &Option<QueryOptions>) -> (r: Request)
        ensures
            r.method == Method::Get,
            r.path@ == "/v1/status/leader"@,
            pairs_view(r.params@) == query_params(*options, self.default_datacenter()),
            r.body is Empty,
    ;

    /// The request for the addresses of the cluster's peers.
    fn peers(&self, options: &Option<QueryOptions>) -> (r: Request)
        ensures
            r.method == Method::Get,
            r.path@ == "/v1/status/peers"@,
            pairs_view(r.params@) == query_params(*options, self.default_datacenter()),
            r.body is Empty,
    ;
}

fn status_request(path: &str, options: &Option<QueryOptions>, default_dc: &Option<String>) -> (r:
    Request)
    ensures
        r.method == Method::Get,
        r.path@ == path@,
        pairs_view(r.params@) == query_params(*options, *default_dc),
        r.body is Empty,
{
    let mut params: Vec<(String, String)> = Vec::new();
    push_option_params(&mut params, options, default_dc);
    assert(pairs_view(params@) =~= Seq::empty() + query_params(*options, *default_dc));
    Request { method: Method::Get, path: String::from_str(path), params, body: Body::Empty }
}

impl Status for Client {
    open spec fn default_datacenter(&self) -> Option<String> {
        self.config.datacenter
    }

    fn leader(&self, options: &Option<QueryOptions>) -> (r: Request) {
        status_request("/v1/status/leader", options, &self.config.datacenter)
    }

    fn peers(&self, options: &Option<QueryOptions>) -> (r: Request) {
        status_request("/v1/status/peers", options, &self.config.datacenter)
    }
}

} // verus!
