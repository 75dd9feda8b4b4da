//! Data of the service catalog.

use crate::agent::{AgentCheck, AgentService};
use crate::common::ServiceWeights;
use std::collections::HashMap;
use vstd::prelude::*;

verus! {

/// A node of the catalog.
#[derive(Debug, Default, Clone, PartialEq, Eq)]
pub struct Node {
    pub id: String,
    pub node: String,
    pub address: String,
    pub datacenter: String,
    pub tagged_addresses: HashMap<String, String>,
    pub meta: HashMap<String, String>,
    pub create_index: u64,
    pub modify_index: u64,
}

/// A service instance of the catalog, with its node.
#[derive(Debug, Default, Clone, PartialEq, Eq)]
pub struct CatalogService {
    pub id: String,
    pub node: String,
    pub address: String,
    pub datacenter: String,
    pub tagged_addresses: HashMap<String, String>,
    pub node_meta: HashMap<String, String>,
    pub service_id: String,
    pub service_name: String,
    pub service_address: String,
    pub service_tags: Vec<String>,
    pub service_meta: HashMap<String, String>,
    pub service_port: u32,
    pub service_weights: ServiceWeights,
    pub service_enable_tag_override: bool,
    pub create_index: u64,
    pub modify_index: u64,
}

/// A node of the catalog with its services.
#[derive(Debug, Default, Clone, PartialEq, Eq)]
pub struct CatalogNode {
    pub node: Option<Node>,
    pub services: HashMap<String, AgentService>,
}

/// What a registration in the catalog writes.
#[derive(Debug, Default, Clone, PartialEq, Eq)]
pub struct CatalogRegistrationPayload {
    pub id: String,
    pub node: String,
    pub address: String,
    pub tagged_addresses: HashMap<String, String>,
    pub node_meta: HashMap<String, String>,
    pub datacenter: String,
    pub service: Option<AgentService>,
    pub check: Option<AgentCheck>,
    pub skip_node_update: bool,
}

/// What a deregistration from the catalog removes.
#[derive(Debug, Default, Clone, PartialEq, Eq)]
pub struct CatalogDeregistrationPayload {
    pub node: String,
    pub address: String,
    pub datacenter: String,
    pub service_id: String,
    pub check_id: String,
}

} // verus!
