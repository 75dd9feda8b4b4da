//! Blocking reads: turning "read the current value" into "wait for the value
//! to change".
//!
//! A [`Watcher`] remembers the last change index it saw. Each read it asks for
//! carries that index and a wait time, so that the agent holds the answer back
//! until the data changes or the wait elapses. The watcher then looks at the
//! index of the answer: a higher one is a change, the same one a wake-up with
//! nothing new (read again), a lower one a reset of the store's history (start
//! over from it).

use crate::error::{Error, Kind};
use crate::kv::{entry_response, KVPair};
use crate::payload::QueryOptions;
use crate::request::{first_outcome, query_meta, Response};
use vstd::prelude::*;

verus! {

/// What an answer's index says about the watched data.
#[derive(Debug, Clone, Copy, PartialEq, Eq, Structural)]
pub enum WatchEvent {
    /// The index moved forward: the data changed.
    Changed,
    /// The index is the same: the wait elapsed with no change.
    Unchanged,
    /// The index went back: the store's history was reset.
    Reset,
}

/// The event that index `new_index` is, after `last_index`.
pub open spec fn watch_event(last_index: u64, new_index: u64) -> WatchEvent {
    if new_index > last_index {
        WatchEvent::Changed
    } else if new_index == last_index {
        WatchEvent::Unchanged
    } else {
        WatchEvent::Reset
    }
}

/// A blocking read in progress on one key or prefix.
#[derive(Debug, Clone)]
pub struct Watcher {
    last_index: u64,
    max_wait: u64,
}

impl Watcher {
    /// The last index seen; zero before the first answer, which makes the
    /// first read return at once.
    pub closed spec fn spec_last_index(&self) -> u64 {
        self.last_index
    }

    /// The longest wait, in seconds, that each read asks for.
    pub closed spec fn spec_max_wait(&self) -> u64 {
        self.max_wait
    }

    /// A watcher that has seen nothing yet and asks for waits of at most
    /// `max_wait` seconds.
    pub fn new(max_wait: u64) -> (r: Watcher)
        ensures
            r.spec_last_index() == 0,
            r.spec_max_wait() == max_wait,
    {
        Watcher { last_index: 0, max_wait }
    }

    /// The last index seen.
    pub fn last_index(&self) -> (r: u64)
        ensures
            r == self.spec_last_index(),
    {
        self.last_index
    }

    /// The options of the next read: wait on the last index seen, for at most
    /// the watcher's wait time, in `datacenter` if one is given.
    pub fn options(&self, datacenter: Option<String>) -> (r: QueryOptions)
        ensures
            r.datacenter == datacenter,
            r.wait_index == Some(self.spec_last_index()),
            r.wait_time == Some(self.spec_max_wait()),
            r.filter is None,
    {
        QueryOptions {
            datacenter,
            wait_index: Some(self.last_index),
            wait_time: Some(self.max_wait),
            filter: None,
        }
    }

    /// Takes the index of an answer: the watcher goes on from it, whatever
    /// it is, and the event says how it relates to the one before.
    pub fn observe(&mut self, index: u64) -> (r: WatchEvent)
        ensures
            r == watch_event(old(self).spec_last_index(), index),
            final(self).spec_last_index() == index,
            final(self).spec_max_wait() == old(self).spec_max_wait(),
    {
        let event = if index > self.last_index {
            WatchEvent::Changed
        } else if index == self.last_index {
            WatchEvent::Unchanged
        } else {
            WatchEvent::Reset
        };
        self.last_index = index;
        event
    }

    /// Takes the answer to a blocking read of one entry (see
    /// [`crate::Client::get_entry`]), `decoded` being the transport's decoding
    /// of its body. On success the watcher goes on from the answer's index,
    /// and returns the event with the entry. An answer without index is a
    /// `MissingIndex` error; otherwise an answer that
    /// [`entry_response`] refuses gives its error. On error the watcher is
    /// unchanged.
    pub fn step(&mut self, resp: &Response, decoded: Result<Vec<KVPair>, String>) -> (r: Result<
        (WatchEvent, Option<KVPair>),
        Error,
    >)
        ensures
            final(self).spec_max_wait() == old(self).spec_max_wait(),
            match resp.index {
                None => r is Err && r->Err_0.spec_kind() == Kind::MissingIndex
                    && final(self).spec_last_index() == old(self).spec_last_index(),
                Some(i) => match first_outcome(resp.status, resp.body@, decoded) {
                    Ok(e) => r == Ok::<(WatchEvent, Option<KVPair>), Error>(
                        (watch_event(old(self).spec_last_index(), i), e),
                    ) && final(self).spec_last_index() == i,
                    Err((k, s)) => r is Err && r->Err_0.spec_kind() == k
                        && r->Err_0.spec_source() == Some(s)
                        && final(self).spec_last_index() == old(self).spec_last_index(),
                },
            },
    {
        let meta = match query_meta(resp, 0) {
            Ok(m) => m,
            Err(e) => return Err(e),
        };
        let entry = entry_response(resp, decoded);
        match entry {
            Ok(e) => {
                let index = match meta.last_index {
                    Some(i) => i,
                    None => self.last_index,
                };
                let event = self.observe(index);
                Ok((event, e))
            },
            Err(e) => Err(e),
        }
    }
}

} // verus!
