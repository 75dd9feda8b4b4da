//! Small types shared by the catalog and agent payloads.

use vstd::prelude::*;

verus! {

/// A service's weights in DNS answers, by health state.
#[derive(Debug, Default, Clone, Copy, PartialEq, Eq, Structural)]
pub struct ServiceWeights {
    pub passing: u32,
    pub warning: u32,
}

/// A tagged address of a service.
#[derive(Debug, Default, Clone)]
pub struct TaggedAddress {
    /// The address.
    pub address: String,
    /// The port at that address.
    pub port: u16,
}

} // verus!
