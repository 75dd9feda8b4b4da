//! Distributed locks: mutual exclusion on a key, held by a session.
//!
//! A [`DistributedLock`] decides; its runner talks to the agent. To take the
//! lock the runner sends [`crate::Client::acquire_entry`] for
//! [`DistributedLock::pair`] and reports the answer to
//! [`DistributedLock::on_acquire`]. When the key is held by another session
//! and the lock blocks, the runner makes the blocking read the lock asks for,
//! reports its answer to [`DistributedLock::on_wake`], and tries again when
//! the key looks free: the wait ends as soon as the key changes, with no
//! polling at a fixed interval. When the session's keep-alive reports the
//! session lost, [`DistributedLock::on_session_lost`] records that the lock is
//! gone, whether or not it was released.

use crate::error::{Error, Kind};
use crate::kv::KVPair;
use crate::payload::QueryOptions;
use crate::request::{first_outcome, Response};
use crate::watch::Watcher;
use vstd::prelude::*;

verus! {

/// What to do after an acquire attempt.
#[derive(Debug, Clone)]
pub enum AcquireStep {
    /// The lock is held.
    Acquired,
    /// Another session holds the key and the lock does not block.
    Contended,
    /// Another session holds the key: make a blocking read of it with these
    /// options, and report the answer to [`DistributedLock::on_wake`].
    Wait(QueryOptions),
}

/// A lock on one key.
#[derive(Debug, Clone)]
pub struct DistributedLock {
    key: String,
    value: String,
    block: bool,
    held: bool,
    watcher: Watcher,
}

/// Whether the entry read shows a free key: absent, or held by no session.
pub open spec fn looks_free(entry: Option<KVPair>) -> bool {
    match entry {
        Some(p) => p.session is None,
        None => true,
    }
}

impl DistributedLock {
    /// The key the lock is on.
    pub closed spec fn spec_key(&self) -> Seq<char> {
        self.key@
    }

    /// The value written when the lock is taken.
    pub closed spec fn spec_value(&self) -> Seq<char> {
        self.value@
    }

    /// Whether an attempt that finds the key held waits for it.
    pub closed spec fn spec_block(&self) -> bool {
        self.block
    }

    /// Whether the lock is held, as far as this side knows.
    pub closed spec fn spec_held(&self) -> bool {
        self.held
    }

    /// The change index of the key last seen while waiting.
    pub closed spec fn spec_last_index(&self) -> u64 {
        self.watcher.spec_last_index()
    }

    /// The longest wait, in seconds, of each blocking read.
    pub closed spec fn spec_max_wait(&self) -> u64 {
        self.watcher.spec_max_wait()
    }

    /// A lock on `key`, not held, that writes `value` when taken; when
    /// `block` is set an attempt that finds the key held waits for it, with
    /// blocking reads of at most `max_wait` seconds.
    pub fn new(key: String, value: String, block: bool, max_wait: u64) -> (r: DistributedLock)
        ensures
            r.spec_key() == key@,
            r.spec_value() == value@,
            r.spec_block() == block,
            !r.spec_held(),
            r.spec_last_index() == 0,
            r.spec_max_wait() == max_wait,
    {
        DistributedLock { key, value, block, held: false, watcher: Watcher::new(max_wait) }
    }

    /// The entry that an acquire or a release of this lock by `session`
    /// sends: the lock's key and value, and the session (none when the
    /// session is gone, which the request refuses).
    pub fn pair(&self, session: Option<String>) -> (r: KVPair)
        ensures
            r.key@ == self.spec_key(),
            r.value@ == self.spec_value(),
            r.session == session,
            r.flags is None,
            r.createindex is None,
            r.modifyindex is None,
            r.lockindex is None,
    {
        KVPair {
            key: self.key.clone(),
            createindex: None,
            modifyindex: None,
            lockindex: None,
            flags: None,
            value: self.value.clone(),
            session,
        }
    }

    /// Takes the answer to an acquire: the lock is held when the agent
    /// accepted; otherwise a blocking lock asks for a blocking read of the
    /// key from the last index seen, and another one is contended.
    pub fn on_acquire(&mut self, accepted: bool) -> (r: AcquireStep)
        ensures
            final(self).spec_held() == (old(self).spec_held() || accepted),
            final(self).spec_key() == old(self).spec_key(),
            final(self).spec_value() == old(self).spec_value(),
            final(self).spec_block() == old(self).spec_block(),
            final(self).spec_last_index() == old(self).spec_last_index(),
            final(self).spec_max_wait() == old(self).spec_max_wait(),
            match r {
                AcquireStep::Acquired => accepted,
                AcquireStep::Contended => !accepted && !old(self).spec_block(),
                AcquireStep::Wait(o) => !accepted && old(self).spec_block() && o.datacenter is None
                    && o.wait_index == Some(old(self).spec_last_index()) && o.wait_time == Some(
                    old(self).spec_max_wait(),
                ),
            },
    {
        if accepted {
            self.held = true;
            AcquireStep::Acquired
        } else if self.block {
            AcquireStep::Wait(self.watcher.options(None))
        } else {
            AcquireStep::Contended
        }
    }

    /// Takes the answer to the blocking read that [`AcquireStep::Wait`]
    /// asked for (see [`Watcher::step`], whose errors it passes on);
    /// `Ok(true)` means the key looks free
    /// and the acquire should be sent again, `Ok(false)` that the key is
    /// still held and the wait goes on with the options of
    /// [`DistributedLock::wait_options`].
    pub fn on_wake(&mut self, resp: &Response, decoded: Result<Vec<KVPair>, String>) -> (r: Result<
        bool,
        Error,
    >)
        ensures
            final(self).spec_held() == old(self).spec_held(),
            final(self).spec_key() == old(self).spec_key(),
            final(self).spec_value() == old(self).spec_value(),
            final(self).spec_block() == old(self).spec_block(),
            final(self).spec_max_wait() == old(self).spec_max_wait(),
            match resp.index {
                None => r is Err && r->Err_0.spec_kind() == Kind::MissingIndex
                    && final(self).spec_last_index() == old(self).spec_last_index(),
                Some(i) => match first_outcome(resp.status, resp.body@, decoded) {
                    Ok(e) => r == Ok::<bool, Error>(looks_free(e)) && final(self).spec_last_index()
                        == i,
                    Err((k, s)) => r is Err && r->Err_0.spec_kind() == k
                        && r->Err_0.spec_source() == Some(s) && final(self).spec_last_index()
                        == old(self).spec_last_index(),
                },
            },
    {
        match self.watcher.step(resp, decoded) {
            Ok((_, entry)) => {
                let free = match &entry {
                    Some(p) => p.session.is_none(),
                    None => true,
                };
                Ok(free)
            },
            Err(e) => Err(e),
        }
    }

    /// The options of the next blocking read while waiting.
    pub fn wait_options(&self) -> (r: QueryOptions)
        ensures
            r.datacenter is None,
            r.wait_index == Some(self.spec_last_index()),
            r.wait_time == Some(self.spec_max_wait()),
    {
        self.watcher.options(None)
    }

    /// Takes the answer to a release: once the agent accepted, the lock is
    /// no longer held.
    pub fn on_release(&mut self, released: bool)
        ensures
            final(self).spec_held() == (old(self).spec_held() && !released),
            final(self).spec_key() == old(self).spec_key(),
            final(self).spec_value() == old(self).spec_value(),
            final(self).spec_block() == old(self).spec_block(),
            final(self).spec_last_index() == old(self).spec_last_index(),
            final(self).spec_max_wait() == old(self).spec_max_wait(),
    {
        if released {
            self.held = false;
        }
    }

    /// The session is lost: the lock is no longer held, released or not.
    pub fn on_session_lost(&mut self)
        ensures
            !final(self).spec_held(),
            final(self).spec_key() == old(self).spec_key(),
            final(self).spec_value() == old(self).spec_value(),
            final(self).spec_block() == old(self).spec_block(),
            final(self).spec_last_index() == old(self).spec_last_index(),
            final(self).spec_max_wait() == old(self).spec_max_wait(),
    {
        self.held = false;
    }

    /// Whether the lock is held, as far as this side knows.
    pub fn is_held(&self) -> (r: bool)
        ensures
            r == self.spec_held(),
    {
        self.held
    }
}

} // verus!
