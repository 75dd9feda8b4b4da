//! Options and metadata that go with requests and responses.

use vstd::prelude::*;

verus! {

/// Options of a write.
#[derive(Debug, Default, Clone)]
pub struct WriteOptions {
    /// The datacenter to write to; the client's own when absent.
    pub datacenter: Option<String>,
}

/// Options of a read.
#[derive(Debug, Default, Clone)]
pub struct QueryOptions {
    /// The datacenter to read from; the client's own when absent.
    pub datacenter: Option<String>,
    /// The last change index seen: the agent holds the answer back until the
    /// index moves past it or the wait time elapses.
    pub wait_index: Option<u64>,
    /// The longest time, in seconds, that the agent may hold the answer back.
    pub wait_time: Option<u64>,
    /// An expression that the agent filters the answer with.
    pub filter: Option<String>,
}

/// What a read returns besides its value.
#[derive(Debug, Clone, Copy, PartialEq, Eq, Structural)]
pub struct QueryMeta {
    /// The change index of the data read.
    pub last_index: Option<u64>,
    /// How long the request took, in milliseconds.
    pub request_time: u64,
}

/// What a write returns besides its value.
#[derive(Debug, Clone, Copy, PartialEq, Eq, Structural)]
pub struct WriteMeta {
    /// How long the request took, in milliseconds.
    pub request_time: u64,
}

} // verus!
