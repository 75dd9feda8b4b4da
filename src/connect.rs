//! Data of the service mesh: certificate authority roots and intentions.

use std::collections::HashMap;
use vstd::prelude::*;

verus! {

/// The certificate authority's roots.
#[derive(Debug, Default, Clone)]
pub struct CARootList {
    pub active_root_id: String,
    pub trust_domain: String,
    pub roots: Vec<CARoot>,
}

/// One root certificate.
#[derive(Debug, Default, Clone, PartialEq, Eq)]
pub struct CARoot {
    pub id: String,
    pub name: String,
    pub root_cert: String,
    pub active: bool,
    pub create_index: u64,
    pub modify_index: u64,
}

/// What an intention does with the traffic it matches.
#[derive(Debug, Clone, Copy, PartialEq, Eq, Structural)]
pub enum IntentionAction {
    Allow,
    Deny,
}

impl Default for IntentionAction {
    /// Traffic is denied unless allowed.
    fn default() -> (r: IntentionAction)
        ensures
            r == IntentionAction::Deny,
    {
        IntentionAction::Deny
    }
}

/// An intention to create or replace, by source and destination name.
#[derive(Debug, Default, Clone)]
pub struct UpsertIntentionPayload {
    pub soucre_type: String,
    pub action: IntentionAction,
    pub permissions: Vec<IntentionPermision>,
    pub description: String,
}

/// An application-level permission of an intention.
#[derive(Debug, Clone)]
pub struct IntentionPermision {
    pub action: IntentionAction,
    pub http: IntentionHttpPermission,
}

/// The HTTP criteria of a permission.
#[derive(Debug, Default, Clone)]
pub struct IntentionHttpPermission {
    pub path_exact: String,
    pub path_prefix: String,
    pub path_regex: String,
    pub methods: Vec<String>,
    pub header: Vec<IntentionHttpHeaderPermission>,
}

/// A criterion on one HTTP header.
#[derive(Debug, Default, Clone)]
pub struct IntentionHttpHeaderPermission {
    pub name: String,
    pub present: bool,
    pub exact: String,
    pub prefix: String,
    pub suffix: String,
    pub regex: String,
    pub invert: bool,
}

/// An intention to create.
#[derive(Debug, Default, Clone)]
pub struct CreateIntentionPayload {
    pub source_name: String,
    pub destination_name: String,
    pub action: IntentionAction,
    pub description: String,
    pub meta: HashMap<String, String>,
}

/// An intention as the agent describes it.
#[derive(Debug, Clone)]
pub struct ReadIntentionByNameResponse {
    pub description: String,
    pub source_name: String,
    pub destination_name: String,
    pub source_type: String,
    pub action: IntentionAction,
    pub meta: HashMap<String, String>,
    pub precedence: u64,
    pub create_index: u64,
    pub modify_index: u64,
}

} // verus!
