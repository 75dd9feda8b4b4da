//! The local agent: its checks, members and services, and the requests that
//! steer it.

use crate::client::{Client, Sealed};
use crate::common::{ServiceWeights, TaggedAddress};
use crate::request::{pairs_view, Body, Method, Request};
use std::collections::HashMap;
use vstd::prelude::*;

verus! {

/// A health check registered with the local agent.
#[derive(Debug, Default, Clone, PartialEq, Eq)]
pub struct AgentCheck {
    /// The node the check runs on.
    pub node: String,
    /// The check's id within the agent.
    pub check_id: String,
    /// The check's name.
    pub name: String,
    /// The check's status.
    pub status: String,
    /// Notes attached to the check.
    pub notes: String,
    /// The check's last output.
    pub output: String,
    /// The id of the service checked.
    pub service_id: String,
    /// The name of the service checked.
    pub service_name: String,
}

/// A member of the cluster's gossip pool, as one agent sees it.
#[derive(Debug, Default, Clone, PartialEq, Eq)]
pub struct AgentMember {
    pub name: String,
    pub addr: String,
    pub port: u16,
    pub tags: HashMap<String, String>,
    pub status: usize,
    pub protocol_min: u8,
    pub protocol_max: u8,
    pub protocol_cur: u8,
    pub delegate_min: u8,
    pub delegate_max: u8,
    pub delegate_cur: u8,
}

/// A service hosted on a node.
#[derive(Debug, Default, Clone, PartialEq, Eq)]
pub struct AgentService {
    pub id: String,
    pub service: String,
    pub tags: Option<Vec<String>>,
    pub port: u16,
    pub address: String,
    pub enable_tag_override: bool,
    pub create_index: u64,
    pub modify_index: u64,
}

/// A service registered with the local agent.
#[derive(Debug, Default, Clone)]
pub struct Service {
    pub id: String,
    pub service: String,
    pub tags: Vec<String>,
    pub tagged_addresses: HashMap<String, TaggedAddress>,
    pub meta: HashMap<String, String>,
    pub port: u16,
    pub weights: ServiceWeights,
    pub enable_tag_override: bool,
    pub address: String,
}

/// The full definition of one service instance on the local agent.
#[derive(Debug, Default, Clone)]
pub struct ServiceConfig {
    pub kind: String,
    pub id: String,
    pub service: Service,
    pub tags: Option<Vec<String>>,
    pub meta: Option<HashMap<String, String>>,
    pub address: String,
    pub tagged_addresses: HashMap<String, TaggedAddress>,
    pub port: u16,
}

/// The definition of a service to register with the local agent.
#[derive(Debug, Default, Clone)]
pub struct ServiceRegistrationPayload {
    /// The service's name.
    pub name: String,
    /// The instance's id, unique on the agent; the name when absent.
    pub id: Option<String>,
    /// The service's tags.
    pub tags: Option<Vec<String>>,
    /// The port the service listens on.
    pub port: u16,
    /// The address the service listens on.
    pub address: Option<String>,
    /// Whether the tags may be changed outside the agent.
    pub enable_tag_override: bool,
}

/// A request with no body for `path`, carrying exactly `params`.
pub open spec fn is_plain_request(
    r: Request,
    method: Method,
    path: Seq<char>,
    params: Seq<(Seq<char>, Seq<char>)>,
) -> bool {
    &&& r.method == method
    &&& r.path@ == path
    &&& pairs_view(r.params@) == params
    &&& r.body is Empty
}

fn plain_request(method: Method, path: &str, params: Vec<(String, String)>) -> (r: Request)
    ensures
        is_plain_request(r, method, path@, pairs_view(params@)),
{
    Request { method, path: String::from_str(path), params, body: Body::Empty }
}

fn no_params() -> (r: Vec<(String, String)>)
    ensures
        pairs_view(r@) == Seq::<(Seq<char>, Seq<char>)>::empty(),
{
    let v: Vec<(String, String)> = Vec::new();
    assert(pairs_view(v@) =~= Seq::<(Seq<char>, Seq<char>)>::empty());
    v
}

/// The endpoints of the local agent.
pub trait Agent: Sealed {
    /// The request for every check registered with the agent.
    fn checks(&self) -> (r: Request)
        ensures
            is_plain_request(r, Method::Get, "/v1/agent/checks"@, Seq::empty()),
    ;

    /// The request for the members of the gossip pool, the WAN pool when
    /// `wan` is set.
    fn members(&self, wan: bool) -> (r: Request)
        ensures
            is_plain_request(
                r,
                Method::Get,
                "/v1/agent/members"@,
                if wan {
                    seq![("wan"@, "1"@)]
                } else {
                    Seq::empty()
                },
            ),
    ;

    /// The request that makes the agent reload its configuration.
    fn reload(&self) -> (r: Request)
        ensures
            is_plain_request(r, Method::Put, "/v1/agent/reload"@, Seq::empty()),
    ;

    /// The request that puts the agent into maintenance mode, or takes it
    /// out, with an optional reason.
    fn maintenance_mode(&self, enable: bool, reason: Option<&str>) -> (r: Request)
        ensures
            is_plain_request(
                r,
                Method::Put,
                "/v1/agent/maintenance"@,
                seq![
                    ("enabled"@, if enable {
                        "true"@
                    } else {
                        "false"@
                    }),
                ] + match reason {
                    Some(s) => seq![("reason"@, s@)],
                    None => Seq::empty(),
                },
            ),
    ;

    /// The request that makes the agent join the agent at `address`, in the
    /// WAN pool when `wan` is set.
    fn join(&self, address: &str, wan: bool) -> (r: Request)
        ensures
            r.method == Method::Put,
            r.path@ == "/v1/agent/join/"@ + address@,
            pairs_view(r.params@) == if wan {
                seq![("wan"@, "true"@)]
            } else {
                Seq::empty()
            },
            r.body is Empty,
    ;

    /// The request that makes the agent leave the cluster gracefully.
    fn leave(&self) -> (r: Request)
        ensures
            is_plain_request(r, Method::Put, "/v1/agent/leave"@, Seq::empty()),
    ;

    /// The request that forces a failed node into the left state.
    fn force_leave(&self) -> (r: Request)
        ensures
            is_plain_request(r, Method::Put, "/v1/agent/force-leave"@, Seq::empty()),
    ;
}

impl Agent for Client {
    fn checks(&self) -> (r: Request) {
        plain_request(Method::Get, "/v1/agent/checks", no_params())
    }

    fn members(&self, wan: bool) -> (r: Request) {
        let mut params = no_params();
        if wan {
            params.push((String::from_str("wan"), String::from_str("1")));
        }
        assert(pairs_view(params@) =~= if wan {
            seq![("wan"@, "1"@)]
        } else {
            Seq::empty()
        });
        plain_request(Method::Get, "/v1/agent/members", params)
    }

    fn reload(&self) -> (r: Request) {
        plain_request(Method::Put, "/v1/agent/reload", no_params())
    }

    fn maintenance_mode(&self, enable: bool, reason: Option<&str>) -> (r: Request) {
        let mut params = no_params();
        let flag = if enable {
            String::from_str("true")
        } else {
            String::from_str("false")
        };
        params.push((String::from_str("enabled"), flag));
        if let Some(text) = reason {
            params.push((String::from_str("reason"), String::from_str(text)));
        }
        assert(pairs_view(params@) =~= seq![
            ("enabled"@, if enable {
                "true"@
            } else {
                "false"@
            }),
        ] + match reason {
            Some(s) => seq![("reason"@, s@)],
            None => Seq::empty(),
        });
        plain_request(Method::Put, "/v1/agent/maintenance", params)
    }

    fn join(&self, address: &str, wan: bool) -> (r: Request) {
        let mut params = no_params();
        if wan {
            params.push((String::from_str("wan"), String::from_str("true")));
        }
        assert(pairs_view(params@) =~= if wan {
            seq![("wan"@, "true"@)]
        } else {
            Seq::empty()
        });
        let mut path = String::from_str("/v1/agent/join/");
        path.append(address);
        Request { method: Method::Put, path, params, body: Body::Empty }
    }

    fn leave(&self) -> (r: Request) {
        plain_request(Method::Put, "/v1/agent/leave", no_params())
    }

    fn force_leave(&self) -> (r: Request) {
        plain_request(Method::Put, "/v1/agent/force-leave", no_params())
    }
}

} // verus!
