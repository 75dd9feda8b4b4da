//! An in-process store that follows the agent's key/value and session
//! semantics: keys unique, each write stamped with the next change index,
//! locks held by live sessions and released when their session ends, and
//! blocking reads answered once the index moves past the one the reader saw.
//!
//! It lets the client logic run without an agent, and it is what the laws
//! below are stated of: each operation is specified over [`StoreModel`].

use crate::error::{self, Error, Kind};
use crate::kv::KVPair;
use crate::request::{decimal, decimal_text, digit_char, has_prefix, text_eq};
use crate::watch::{watch_event, WatchEvent};
use vstd::prelude::*;

verus! {

/// The model of an entry.
pub struct EntryModel {
    pub key: Seq<char>,
    pub value: Seq<char>,
    pub flags: u64,
    pub create_index: u64,
    pub modify_index: u64,
    pub lock_index: u64,
    pub session: Option<Seq<char>>,
}

/// The model of the store: its entries in the order their keys were created,
/// the live sessions, and the change index of the last write.
pub struct StoreModel {
    pub entries: Seq<EntryModel>,
    pub sessions: Set<Seq<char>>,
    pub index: u64,
}

/// `o`'s value, or zero.
pub open spec fn or_zero(o: Option<u64>) -> u64 {
    match o {
        Some(v) => v,
        None => 0,
    }
}

/// The model of a stored pair.
pub open spec fn entry_of(p: KVPair) -> EntryModel {
    EntryModel {
        key: p.key@,
        value: p.value@,
        flags: or_zero(p.flags),
        create_index: or_zero(p.createindex),
        modify_index: or_zero(p.modifyindex),
        lock_index: or_zero(p.lockindex),
        session: match p.session {
            Some(s) => Some(s@),
            None => None,
        },
    }
}

/// Whether a stored pair carries all its counters and its flags.
pub open spec fn is_complete(p: KVPair) -> bool {
    &&& p.flags is Some
    &&& p.createindex is Some
    &&& p.modifyindex is Some
    &&& p.lockindex is Some
}

/// The position of the entry `key`, if there is one.
pub open spec fn key_at(entries: Seq<EntryModel>, key: Seq<char>) -> Option<int> {
    if exists|i: int| 0 <= i < entries.len() && entries[i].key == key {
        Some(choose|i: int| 0 <= i < entries.len() && entries[i].key == key)
    } else {
        None
    }
}

/// The entry `key`, if there is one.
pub open spec fn lookup(m: StoreModel, key: Seq<char>) -> Option<EntryModel> {
    match key_at(m.entries, key) {
        Some(i) => Some(m.entries[i]),
        None => None,
    }
}

/// No two entries share a key.
pub open spec fn keys_distinct(entries: Seq<EntryModel>) -> bool {
    forall|i: int, j: int|
        0 <= i < entries.len() && 0 <= j < entries.len() && i != j ==> entries[i].key
            != entries[j].key
}

/// The store's invariant: keys are unique, and no entry was written after the
/// store's last change index nor modified before it was created.
pub open spec fn store_wf(m: StoreModel) -> bool {
    &&& keys_distinct(m.entries)
    &&& forall|i: int|
        0 <= i < m.entries.len() ==> (#[trigger] m.entries[i]).modify_index <= m.index
            && m.entries[i].create_index <= m.entries[i].modify_index
}

/// The change index of the next write; it stays at its maximum once there.
pub open spec fn next_index(m: StoreModel) -> u64 {
    if m.index < u64::MAX {
        (m.index + 1) as u64
    } else {
        m.index
    }
}

/// The store after writing `value` and `flags` under `key`.
pub open spec fn store_put(m: StoreModel, key: Seq<char>, value: Seq<char>, flags: u64) -> StoreModel {
    let idx = next_index(m);
    match key_at(m.entries, key) {
        Some(i) => StoreModel {
            entries: m.entries.update(
                i,
                EntryModel { value, flags, modify_index: idx, ..m.entries[i] },
            ),
            index: idx,
            ..m
        },
        None => StoreModel {
            entries: m.entries.push(
                EntryModel {
                    key,
                    value,
                    flags,
                    create_index: idx,
                    modify_index: idx,
                    lock_index: 0,
                    session: None,
                },
            ),
            index: idx,
            ..m
        },
    }
}

/// The store after deleting `key`; unchanged when there is no such entry.
pub open spec fn store_delete(m: StoreModel, key: Seq<char>) -> StoreModel {
    match key_at(m.entries, key) {
        Some(i) => StoreModel { entries: m.entries.remove(i), index: next_index(m), ..m },
        None => m,
    }
}

/// The entries whose key begins with `prefix`, in store order.
pub open spec fn store_list(m: StoreModel, prefix: Seq<char>) -> Seq<EntryModel> {
    m.entries.filter(prefix_pred(prefix))
}

/// The test of an entry's key against `prefix`.
pub open spec fn prefix_pred(prefix: Seq<char>) -> spec_fn(EntryModel) -> bool {
    |e: EntryModel| is_prefix(prefix, e.key)
}

/// Whether `s` begins with `p`.
pub open spec fn is_prefix(p: Seq<char>, s: Seq<char>) -> bool {
    p.len() <= s.len() && s.subrange(0, p.len() as int) == p
}

/// `n + 1`, or `n` at its maximum.
pub open spec fn bump(n: u64) -> u64 {
    if n < u64::MAX {
        (n + 1) as u64
    } else {
        n
    }
}

/// An acquire of `key` by `session`, writing `value` and `flags`: refused
/// when the session is not live or another session holds the key; otherwise
/// the key is written and held by the session (its lock index counts a new
/// holder).
pub open spec fn store_acquire(
    m: StoreModel,
    key: Seq<char>,
    value: Seq<char>,
    flags: u64,
    session: Seq<char>,
) -> (StoreModel, bool) {
    let idx = next_index(m);
    if !m.sessions.contains(session) {
        (m, false)
    } else {
        match key_at(m.entries, key) {
            Some(i) => {
                let e = m.entries[i];
                match e.session {
                    Some(h) => if h != session {
                        (m, false)
                    } else {
                        (
                            StoreModel {
                                entries: m.entries.update(
                                    i,
                                    EntryModel { value, flags, modify_index: idx, ..e },
                                ),
                                index: idx,
                                ..m
                            },
                            true,
                        )
                    },
                    None => (
                        StoreModel {
                            entries: m.entries.update(
                                i,
                                EntryModel {
                                    value,
                                    flags,
                                    modify_index: idx,
                                    lock_index: bump(e.lock_index),
                                    session: Some(session),
                                    ..e
                                },
                            ),
                            index: idx,
                            ..m
                        },
                        true,
                    ),
                }
            },
            None => (
                StoreModel {
                    entries: m.entries.push(
                        EntryModel {
                            key,
                            value,
                            flags,
                            create_index: idx,
                            modify_index: idx,
                            lock_index: 1,
                            session: Some(session),
                        },
                    ),
                    index: idx,
                    ..m
                },
                true,
            ),
        }
    }
}

/// A release of `key` by `session`: the key is no longer held; refused when
/// the session does not hold it.
pub open spec fn store_release(m: StoreModel, key: Seq<char>, session: Seq<char>) -> (
    StoreModel,
    bool,
) {
    let idx = next_index(m);
    match key_at(m.entries, key) {
        Some(i) => if m.entries[i].session == Some(session) {
            (
                StoreModel {
                    entries: m.entries.update(
                        i,
                        EntryModel { session: None, modify_index: idx, ..m.entries[i] },
                    ),
                    index: idx,
                    ..m
                },
                true,
            )
        } else {
            (m, false)
        },
        None => (m, false),
    }
}

/// An entry after the end of session `id`: released if `id` held it.
pub open spec fn released_by(e: EntryModel, id: Seq<char>, idx: u64) -> EntryModel {
    if e.session == Some(id) {
        EntryModel { session: None, modify_index: idx, ..e }
    } else {
        e
    }
}

/// The store after the end of session `id`: the session is no longer live and
/// the keys it held are released.
pub open spec fn store_destroy(m: StoreModel, id: Seq<char>) -> StoreModel {
    let idx = next_index(m);
    StoreModel {
        entries: m.entries.map_values(|e: EntryModel| released_by(e, id, idx)),
        sessions: m.sessions.remove(id),
        index: idx,
    }
}

/// The change index of a read of `key`: the entry's last write, or the
/// store's index when there is no such entry.
pub open spec fn query_index(m: StoreModel, key: Seq<char>) -> u64 {
    match lookup(m, key) {
        Some(e) => e.modify_index,
        None => m.index,
    }
}

/// Whether a blocking read of `key` that saw `last_index` is answered now:
/// on a first read (index zero), or once the index moved past the one seen.
pub open spec fn poll_ready(m: StoreModel, key: Seq<char>, last_index: u64) -> bool {
    last_index == 0 || query_index(m, key) > last_index
}

/// The live sessions that the listed ids name.
pub open spec fn session_set(v: Seq<String>) -> Set<Seq<char>> {
    Set::new(|s: Seq<char>| exists|i: int| 0 <= i < v.len() && v[i]@ == s)
}

proof fn lemma_key_at_found(entries: Seq<EntryModel>, key: Seq<char>, i: int)
    requires
        keys_distinct(entries),
        0 <= i < entries.len(),
        entries[i].key == key,
    ensures
        key_at(entries, key) == Some(i),
{
}

/// The id of the `k`-th session created.
pub open spec fn session_id_of(k: nat) -> Seq<char> {
    "session-"@ + decimal(k)
}

/// Every id in `sessions` is that of one of the first `counter` sessions
/// created.
pub open spec fn ids_issued(sessions: Seq<String>, counter: u64) -> bool {
    forall|i: int| 0 <= i < sessions.len() ==> is_issued(#[trigger] sessions[i]@, counter)
}

/// Whether `id` is that of one of the first `counter` sessions created.
pub open spec fn is_issued(id: Seq<char>, counter: u64) -> bool {
    exists|k: nat| 1 <= k <= counter && #[trigger] session_id_of(k) == id
}

proof fn lemma_decimal_len(n: nat)
    ensures
        decimal(n).len() >= 1,
        n >= 10 ==> decimal(n).len() >= 2,
    decreases n,
{
    if n >= 10 {
        lemma_decimal_len(n / 10);
    }
}

pub(crate) proof fn lemma_decimal_injective(a: nat, b: nat)
    requires
        decimal(a) == decimal(b),
    ensures
        a == b,
    decreases a,
{
    lemma_decimal_len(a);
    lemma_decimal_len(b);
    if a >= 10 && b >= 10 {
        assert(decimal(a).drop_last() == decimal(a / 10));
        assert(decimal(b).drop_last() == decimal(b / 10));
        lemma_decimal_injective(a / 10, b / 10);
        assert(digit_char(a % 10) == decimal(a).last());
        assert(digit_char(b % 10) == decimal(b).last());
    } else if a < 10 && b < 10 {
        assert(decimal(a)[0] == digit_char(a));
        assert(decimal(b)[0] == digit_char(b));
    }
}

proof fn lemma_session_id_injective(a: nat, b: nat)
    requires
        session_id_of(a) == session_id_of(b),
    ensures
        a == b,
{
    let p = "session-"@;
    assert(session_id_of(a).subrange(p.len() as int, session_id_of(a).len() as int) =~= decimal(a));
    assert(session_id_of(b).subrange(p.len() as int, session_id_of(b).len() as int) =~= decimal(b));
    lemma_decimal_injective(a, b);
}

/// An in-process store.
#[derive(Debug, Clone)]
pub struct MemStore {
    entries: Vec<KVPair>,
    sessions: Vec<String>,
    index: u64,
    session_counter: u64,
}

impl View for MemStore {
    type V = StoreModel;

    closed spec fn view(&self) -> StoreModel {
        StoreModel {
            entries: self.entries@.map_values(|p: KVPair| entry_of(p)),
            sessions: session_set(self.sessions@),
            index: self.index,
        }
    }
}

impl MemStore {
    /// The store's invariant (see [`store_wf`]); every stored pair carries
    /// its counters and flags.
    pub closed spec fn inv(&self) -> bool {
        &&& store_wf(self@)
        &&& forall|i: int| 0 <= i < self.entries@.len() ==> is_complete(#[trigger] self.entries@[i])
        &&& ids_issued(self.sessions@, self.session_counter)
    }

    /// How many sessions this store has created.
    pub closed spec fn spec_session_counter(&self) -> u64 {
        self.session_counter
    }

    /// How many sessions this store has created; [`MemStore::create_session`]
    /// needs it below `u64::MAX`.
    pub fn session_counter(&self) -> (r: u64)
        ensures
            r == self.spec_session_counter(),
    {
        self.session_counter
    }

    /// An empty store with no session.
    pub fn new() -> (r: MemStore)
        ensures
            r.inv(),
            r@.entries.len() == 0,
            r@.sessions.is_empty(),
            r@.index == 0,
            r.spec_session_counter() == 0,
    {
        let r = MemStore { entries: Vec::new(), sessions: Vec::new(), index: 0, session_counter: 0 };
        assert(r@.entries =~= Seq::<EntryModel>::empty());
        assert(r@.sessions =~= Set::<Seq<char>>::empty());
        r
    }

    fn find(&self, key: &str) -> (r: Option<usize>)
        requires
            self.inv(),
        ensures
            match r {
                Some(i) => key_at(self@.entries, key@) == Some(i as int) && i < self.entries@.len(),
                None => key_at(self@.entries, key@) is None,
            },
    {
        let mut i: usize = 0;
        while i < self.entries.len()
            invariant
                self.inv(),
                i <= self.entries@.len(),
                forall|j: int| 0 <= j < i ==> (#[trigger] self@.entries[j]).key != key@,
            decreases self.entries@.len() - i,
        {
            if text_eq(self.entries[i].key.as_str(), key) {
                proof {
                    lemma_key_at_found(self@.entries, key@, i as int);
                }
                return Some(i);
            }
            i = i + 1;
        }
        None
    }

    fn next_index(&self) -> (r: u64)
        ensures
            r == next_index(self@),
    {
        if self.index < u64::MAX {
            self.index + 1
        } else {
            self.index
        }
    }

    /// Writes `pair`'s value and flags (zero when absent) under its key; the
    /// store accepts every write.
    pub fn put(&mut self, pair: &KVPair) -> (r: bool)
        requires
            old(self).inv(),
        ensures
            final(self).inv(),
            final(self).spec_session_counter() == old(self).spec_session_counter(),
            r,
            final(self)@ == store_put(old(self)@, pair.key@, pair.value@, or_zero(pair.flags)),
    {
        let ghost m = self@;
        let idx = self.next_index();
        let flags: u64 = match pair.flags {
            Some(f) => f,
            None => 0,
        };
        match self.find(pair.key.as_str()) {
            Some(i) => {
                let old_pair = self.entries[i].copied();
                let new_pair = KVPair {
                    key: old_pair.key,
                    createindex: old_pair.createindex,
                    modifyindex: Some(idx),
                    lockindex: old_pair.lockindex,
                    flags: Some(flags),
                    value: pair.value.clone(),
                    session: old_pair.session,
                };
                self.entries.set(i, new_pair);
                self.index = idx;
                proof {
                    assert(self@.entries =~= m.entries.update(
                        i as int,
                        EntryModel {
                            value: pair.value@,
                            flags,
                            modify_index: idx,
                            ..m.entries[i as int]
                        },
                    ));
                }
            },
            None => {
                let new_pair = KVPair {
                    key: pair.key.clone(),
                    createindex: Some(idx),
                    modifyindex: Some(idx),
                    lockindex: Some(0),
                    flags: Some(flags),
                    value: pair.value.clone(),
                    session: None,
                };
                self.entries.push(new_pair);
                self.index = idx;
                proof {
                    assert(self@.entries =~= m.entries.push(entry_of(new_pair)));
                }
            },
        }
        true
    }

    /// The entry `key`, if there is one.
    pub fn get(&self, key: &str) -> (r: Option<KVPair>)
        requires
            self.inv(),
        ensures
            match r {
                Some(p) => lookup(self@, key@) == Some(entry_of(p)) && is_complete(p),
                None => lookup(self@, key@) is None,
            },
    {
        match self.find(key) {
            Some(i) => Some(self.entries[i].copied()),
            None => None,
        }
    }

    /// The entries whose key begins with `prefix`, in store order.
    pub fn list(&self, prefix: &str) -> (r: Vec<KVPair>)
        requires
            self.inv(),
        ensures
            r@.map_values(|p: KVPair| entry_of(p)) == store_list(self@, prefix@),
    {
        let ghost pred = prefix_pred(prefix@);
        let mut out: Vec<KVPair> = Vec::new();
        let mut i: usize = 0;
        while i < self.entries.len()
            invariant
                i <= self.entries@.len(),
                pred == prefix_pred(prefix@),
                out@.map_values(|p: KVPair| entry_of(p)) == self@.entries.take(i as int).filter(
                    pred,
                ),
            decreases self.entries@.len() - i,
        {
            let p = &self.entries[i];
            let keep = has_prefix(p.key.as_str(), prefix);
            proof {
                assert(self@.entries[i as int] == entry_of(self.entries@[i as int]));
                assert(is_prefix(prefix@, p.key@) == keep);
                assert(pred(self@.entries[i as int]) == is_prefix(prefix@, self@.entries[i as int].key));
                assert(self@.entries.take(i + 1) =~= self@.entries.take(i as int).push(
                    self@.entries[i as int],
                ));
                self@.entries.take(i as int).lemma_filter_push(self@.entries[i as int], pred);
            }
            if keep {
                out.push(p.copied());
                proof {
                    assert(out@.map_values(|p: KVPair| entry_of(p)) =~= self@.entries.take(
                        i as int,
                    ).filter(pred).push(entry_of(*p)));
                }
            }
            i = i + 1;
        }
        assert(self@.entries.take(self.entries@.len() as int) =~= self@.entries);
        out
    }

    /// Deletes the entry `key`; deleting an absent key succeeds too.
    pub fn delete(&mut self, key: &str) -> (r: bool)
        requires
            old(self).inv(),
        ensures
            final(self).inv(),
            final(self).spec_session_counter() == old(self).spec_session_counter(),
            r,
            final(self)@ == store_delete(old(self)@, key@),
    {
        let ghost m = self@;
        match self.find(key) {
            Some(i) => {
                let idx = self.next_index();
                self.entries.remove(i);
                self.index = idx;
                proof {
                    assert(self@.entries =~= m.entries.remove(i as int));
                    assert forall|a: int, b: int|
                        0 <= a < self@.entries.len() && 0 <= b < self@.entries.len() && a
                            != b implies self@.entries[a].key != self@.entries[b].key by {
                        let a2 = if a < i { a } else { a + 1 };
                        let b2 = if b < i { b } else { b + 1 };
                        assert(self@.entries[a] == m.entries[a2]);
                        assert(self@.entries[b] == m.entries[b2]);
                    }
                    assert forall|a: int| 0 <= a < self.entries@.len() implies is_complete(
                        #[trigger] self.entries@[a],
                    ) by {
                        let a2 = if a < i { a } else { a + 1 };
                        assert(self.entries@[a] == old(self).entries@[a2]);
                    }
                    assert forall|a: int| 0 <= a < self@.entries.len() implies (
                    #[trigger] self@.entries[a]).modify_index <= self@.index
                        && self@.entries[a].create_index <= self@.entries[a].modify_index by {
                        let a2 = if a < i { a } else { a + 1 };
                        assert(self@.entries[a] == m.entries[a2]);
                    }
                }
            },
            None => {},
        }
        true
    }

    /// The lock operations of [`MemStore::acquire`] and
    /// [`MemStore::release`] need the pair's session: without one they are
    /// refused with `MissingSessionFlag` and change nothing.
    pub fn acquire(&mut self, pair: &KVPair) -> (r: Result<bool, Error>)
        requires
            old(self).inv(),
        ensures
            final(self).inv(),
            final(self).spec_session_counter() == old(self).spec_session_counter(),
            match pair.session {
                Some(s) => {
                    let (m, ok) = store_acquire(
                        old(self)@,
                        pair.key@,
                        pair.value@,
                        or_zero(pair.flags),
                        s@,
                    );
                    r == Ok::<bool, Error>(ok) && final(self)@ == m
                },
                None => r is Err && r->Err_0.spec_kind() == Kind::MissingSessionFlag
                    && final(self)@ == old(self)@,
            },
    {
        let ghost m = self@;
        let session = match &pair.session {
            Some(s) => s,
            None => return Err(error::missing_session_flag()),
        };
        if !self.is_live(session.as_str()) {
            return Ok(false);
        }
        let idx = self.next_index();
        let flags: u64 = match pair.flags {
            Some(f) => f,
            None => 0,
        };
        match self.find(pair.key.as_str()) {
            Some(i) => {
                let old_pair = self.entries[i].copied();
                let (lockindex, holder) = match &old_pair.session {
                    Some(h) => {
                        if !text_eq(h.as_str(), session.as_str()) {
                            return Ok(false);
                        }
                        (old_pair.lockindex, old_pair.session.clone())
                    },
                    None => {
                        let li: u64 = match old_pair.lockindex {
                            Some(l) => l,
                            None => 0,
                        };
                        let bumped: u64 = if li < u64::MAX {
                            li + 1
                        } else {
                            li
                        };
                        (Some(bumped), Some(session.clone()))
                    },
                };
                let new_pair = KVPair {
                    key: old_pair.key,
                    createindex: old_pair.createindex,
                    modifyindex: Some(idx),
                    lockindex,
                    flags: Some(flags),
                    value: pair.value.clone(),
                    session: holder,
                };
                self.entries.set(i, new_pair);
                self.index = idx;
                proof {
                    assert(self@.entries =~= m.entries.update(i as int, entry_of(new_pair)));
                }
                Ok(true)
            },
            None => {
                let new_pair = KVPair {
                    key: pair.key.clone(),
                    createindex: Some(idx),
                    modifyindex: Some(idx),
                    lockindex: Some(1),
                    flags: Some(flags),
                    value: pair.value.clone(),
                    session: Some(session.clone()),
                };
                self.entries.push(new_pair);
                self.index = idx;
                proof {
                    assert(self@.entries =~= m.entries.push(entry_of(new_pair)));
                }
                Ok(true)
            },
        }
    }

    /// Releases the lock on `pair`'s key held by `pair`'s session; refused
    /// (`Ok(false)`) when that session does not hold it.
    pub fn release(&mut self, pair: &KVPair) -> (r: Result<bool, Error>)
        requires
            old(self).inv(),
        ensures
            final(self).inv(),
            final(self).spec_session_counter() == old(self).spec_session_counter(),
            match pair.session {
                Some(s) => {
                    let (m, ok) = store_release(old(self)@, pair.key@, s@);
                    r == Ok::<bool, Error>(ok) && final(self)@ == m
                },
                None => r is Err && r->Err_0.spec_kind() == Kind::MissingSessionFlag
                    && final(self)@ == old(self)@,
            },
    {
        let ghost m = self@;
        let session = match &pair.session {
            Some(s) => s,
            None => return Err(error::missing_session_flag()),
        };
        match self.find(pair.key.as_str()) {
            Some(i) => {
                let old_pair = self.entries[i].copied();
                let holds = match &old_pair.session {
                    Some(h) => text_eq(h.as_str(), session.as_str()),
                    None => false,
                };
                if !holds {
                    return Ok(false);
                }
                let idx = self.next_index();
                let new_pair = KVPair {
                    key: old_pair.key,
                    createindex: old_pair.createindex,
                    modifyindex: Some(idx),
                    lockindex: old_pair.lockindex,
                    flags: old_pair.flags,
                    value: old_pair.value,
                    session: None,
                };
                self.entries.set(i, new_pair);
                self.index = idx;
                proof {
                    assert(self@.entries =~= m.entries.update(i as int, entry_of(new_pair)));
                }
                Ok(true)
            },
            None => Ok(false),
        }
    }

    /// Whether `id` names a live session.
    pub fn is_live(&self, id: &str) -> (r: bool)
        ensures
            r == self@.sessions.contains(id@),
    {
        let mut i: usize = 0;
        while i < self.sessions.len()
            invariant
                i <= self.sessions@.len(),
                forall|j: int| 0 <= j < i ==> (#[trigger] self.sessions@[j])@ != id@,
            decreases self.sessions@.len() - i,
        {
            if text_eq(self.sessions[i].as_str(), id) {
                return true;
            }
            i = i + 1;
        }
        false
    }

    /// Renews the session `id`: whether it is live.
    pub fn renew_session(&self, id: &str) -> (r: bool)
        ensures
            r == self@.sessions.contains(id@),
    {
        self.is_live(id)
    }

    /// Creates a session and returns its id, `session-` followed by the
    /// number of sessions created so far; the id is new to the store.
    pub fn create_session(&mut self) -> (r: String)
        requires
            old(self).inv(),
            old(self).spec_session_counter() < u64::MAX,
        ensures
            final(self).inv(),
            final(self).spec_session_counter() == old(self).spec_session_counter() + 1,
            r@ == session_id_of(final(self).spec_session_counter() as nat),
            !old(self)@.sessions.contains(r@),
            final(self)@ == (StoreModel { sessions: old(self)@.sessions.insert(r@), ..old(self)@ }),
    {
        let ghost m = self@;
        self.session_counter = self.session_counter + 1;
        let mut id = String::from_str("session-");
        let n = decimal_text(self.session_counter);
        id.append(n.as_str());
        proof {
            if m.sessions.contains(id@) {
                let j = choose|j: int|
                    0 <= j < old(self).sessions@.len() && old(self).sessions@[j]@ == id@;
                assert(is_issued(old(self).sessions@[j]@, old(self).session_counter));
                let k = choose|k: nat|
                    1 <= k <= old(self).session_counter && #[trigger] session_id_of(k)
                        == old(self).sessions@[j]@;
                lemma_session_id_injective(k, self.session_counter as nat);
            }
        }
        self.sessions.push(id.clone());
        proof {
            assert forall|s: Seq<char>| #[trigger] self@.sessions.contains(s) == m.sessions.insert(
                id@,
            ).contains(s) by {
                if s == id@ {
                    assert(self.sessions@[self.sessions@.len() - 1]@ == s);
                }
                if m.sessions.contains(s) {
                    let j = choose|j: int|
                        0 <= j < old(self).sessions@.len() && old(self).sessions@[j]@ == s;
                    assert(self.sessions@[j] == old(self).sessions@[j]);
                }
            }
            assert(self@.sessions =~= m.sessions.insert(id@));
            assert forall|i: int| 0 <= i < self.sessions@.len() implies is_issued(
                #[trigger] self.sessions@[i]@,
                self.session_counter,
            ) by {
                if i < old(self).sessions@.len() {
                    assert(self.sessions@[i] == old(self).sessions@[i]);
                    assert(is_issued(old(self).sessions@[i]@, old(self).session_counter));
                    let k = choose|k: nat|
                        1 <= k <= old(self).session_counter && #[trigger] session_id_of(k)
                            == old(self).sessions@[i]@;
                    assert(1 <= k <= self.session_counter && session_id_of(k)
                        == self.sessions@[i]@);
                } else {
                    let k = self.session_counter as nat;
                    assert(1 <= k <= self.session_counter && session_id_of(k)
                        == self.sessions@[i]@);
                }
            }
        }
        id
    }

    /// Ends the session `id`: it is no longer live, and every key it held is
    /// released. Ending a session that is not live succeeds too.
    pub fn destroy_session(&mut self, id: &str) -> (r: bool)
        requires
            old(self).inv(),
        ensures
            final(self).inv(),
            final(self).spec_session_counter() == old(self).spec_session_counter(),
            r,
            final(self)@ == store_destroy(old(self)@, id@),
    {
        let ghost m = self@;
        let idx = self.next_index();
        let ghost old_sessions = self.sessions@;
        let mut kept: Vec<String> = Vec::new();
        let mut i: usize = 0;
        while i < self.sessions.len()
            invariant
                i <= self.sessions@.len(),
                forall|s: Seq<char>|
                    #[trigger] session_set(kept@).contains(s) <==> (exists|j: int|
                        0 <= j < i && self.sessions@[j]@ == s && s != id@),
            decreases self.sessions@.len() - i,
        {
            let ghost before = kept@;
            let s = self.sessions[i].clone();
            if !text_eq(s.as_str(), id) {
                kept.push(s);
            }
            proof {
                assert forall|t: Seq<char>|
                    #[trigger] session_set(kept@).contains(t) <==> (exists|j: int|
                        0 <= j < i + 1 && self.sessions@[j]@ == t && t != id@) by {
                    if session_set(kept@).contains(t) {
                        let k = choose|k: int| 0 <= k < kept@.len() && kept@[k]@ == t;
                        if k < before.len() {
                            assert(before[k] == kept@[k]);
                            assert(session_set(before).contains(t));
                        } else {
                            assert(t == self.sessions@[i as int]@);
                        }
                    }
                    if exists|j: int| 0 <= j < i + 1 && self.sessions@[j]@ == t && t != id@ {
                        let j = choose|j: int|
                            0 <= j < i + 1 && self.sessions@[j]@ == t && t != id@;
                        if j < i {
                            assert(session_set(before).contains(t));
                            let k = choose|k: int| 0 <= k < before.len() && before[k]@ == t;
                            assert(kept@[k] == before[k]);
                        } else {
                            assert(kept@[kept@.len() - 1]@ == t);
                        }
                    }
                }
            }
            i = i + 1;
        }
        let ghost kept_view = kept@;
        self.sessions = kept;
        let mut j: usize = 0;
        while j < self.entries.len()
            invariant
                j <= self.entries@.len(),
                self.entries@.len() == old(self).entries@.len(),
                self.index == old(self).index,
                self.sessions@ == kept_view,
                self.session_counter == old(self).session_counter,
                idx == next_index(m),
                forall|k: int|
                    0 <= k < j ==> entry_of(#[trigger] self.entries@[k]) == released_by(
                        entry_of(old(self).entries@[k]),
                        id@,
                        idx,
                    ),
                forall|k: int| j <= k < self.entries@.len() ==> #[trigger] self.entries@[k]
                    == old(self).entries@[k],
                forall|k: int| 0 <= k < self.entries@.len() ==> is_complete(
                    #[trigger] self.entries@[k],
                ),
            decreases self.entries@.len() - j,
        {
            let holds = match &self.entries[j].session {
                Some(h) => text_eq(h.as_str(), id),
                None => false,
            };
            if holds {
                let p = self.entries[j].copied();
                let new_pair = KVPair {
                    key: p.key,
                    createindex: p.createindex,
                    modifyindex: Some(idx),
                    lockindex: p.lockindex,
                    flags: p.flags,
                    value: p.value,
                    session: None,
                };
                self.entries.set(j, new_pair);
            }
            j = j + 1;
        }
        self.index = idx;
        proof {
            assert(self@.entries =~= m.entries.map_values(
                |e: EntryModel| released_by(e, id@, idx),
            ));
            assert forall|t: Seq<char>| #[trigger] self@.sessions.contains(t) == m.sessions.remove(
                id@,
            ).contains(t) by {
                assert(self@.sessions.contains(t) == session_set(kept_view).contains(t));
                if session_set(kept_view).contains(t) {
                    assert(exists|j: int|
                        0 <= j < old_sessions.len() && old_sessions[j]@ == t && t != id@);
                    assert(m.sessions.contains(t));
                }
                if m.sessions.remove(id@).contains(t) {
                    assert(m.sessions.contains(t));
                    let j = choose|j: int| 0 <= j < old_sessions.len() && old_sessions[j]@ == t;
                    assert(0 <= j < old_sessions.len() && old_sessions[j]@ == t && t != id@);
                    assert(session_set(kept_view).contains(t));
                }
            }
            assert(self@.sessions =~= m.sessions.remove(id@));
            assert forall|i: int| 0 <= i < self.sessions@.len() implies is_issued(
                #[trigger] self.sessions@[i]@,
                self.session_counter,
            ) by {
                let t = self.sessions@[i]@;
                assert(self.sessions@[i] == kept_view[i]);
                assert(session_set(kept_view).contains(t));
                let j = choose|j: int|
                    0 <= j < old_sessions.len() && old_sessions[j]@ == t && t != id@;
                assert(is_issued(old(self).sessions@[j]@, old(self).session_counter));
            }
        }
        true
    }

    /// A blocking read of `key` that saw `last_index`: the entry and the
    /// read's change index when the read is answered now, `None` while it
    /// would still be held back.
    pub fn poll(&self, key: &str, last_index: u64) -> (r: Option<(Option<KVPair>, u64)>)
        requires
            self.inv(),
        ensures
            match r {
                Some((e, i)) => poll_ready(self@, key@, last_index) && i == query_index(
                    self@,
                    key@,
                ) && match e {
                    Some(p) => lookup(self@, key@) == Some(entry_of(p)),
                    None => lookup(self@, key@) is None,
                },
                None => !poll_ready(self@, key@, last_index),
            },
    {
        let found = self.get(key);
        let index = match &found {
            Some(p) => match p.modifyindex {
                Some(i) => i,
                None => 0,
            },
            None => self.index,
        };
        if last_index == 0 || index > last_index {
            Some((found, index))
        } else {
            None
        }
    }
}

proof fn lemma_put_shape(m: StoreModel, key: Seq<char>, value: Seq<char>, flags: u64)
    requires
        store_wf(m),
    ensures
        store_wf(store_put(m, key, value, flags)),
        lookup(store_put(m, key, value, flags), key) == Some(
            match key_at(m.entries, key) {
                Some(i) => EntryModel {
                    value,
                    flags,
                    modify_index: next_index(m),
                    ..m.entries[i]
                },
                None => EntryModel {
                    key,
                    value,
                    flags,
                    create_index: next_index(m),
                    modify_index: next_index(m),
                    lock_index: 0,
                    session: None,
                },
            },
        ),
{
    let m2 = store_put(m, key, value, flags);
    match key_at(m.entries, key) {
        Some(i) => {
            lemma_key_at_found(m2.entries, key, i);
        },
        None => {
            lemma_key_at_found(m2.entries, key, m.entries.len() as int);
        },
    }
}

/// Round trip: after writing a value and flags under a key, reading the key
/// gives exactly that value and those flags.
pub proof fn lemma_put_then_get(m: StoreModel, key: Seq<char>, value: Seq<char>, flags: u64)
    requires
        store_wf(m),
    ensures
        store_wf(store_put(m, key, value, flags)),
        lookup(store_put(m, key, value, flags), key) is Some,
        lookup(store_put(m, key, value, flags), key)->Some_0.value == value,
        lookup(store_put(m, key, value, flags), key)->Some_0.flags == flags,
{
    lemma_put_shape(m, key, value, flags);
}

/// Deleting is idempotent: after a delete the key is absent, and a second
/// delete (which succeeds too) changes nothing.
pub proof fn lemma_delete_twice(m: StoreModel, key: Seq<char>)
    requires
        store_wf(m),
    ensures
        lookup(store_delete(m, key), key) is None,
        store_delete(store_delete(m, key), key) == store_delete(m, key),
        lookup(store_delete(store_delete(m, key), key), key) is None,
{
    let m2 = store_delete(m, key);
    match key_at(m.entries, key) {
        Some(i) => {
            if exists|j: int| 0 <= j < m2.entries.len() && m2.entries[j].key == key {
                let j = choose|j: int| 0 <= j < m2.entries.len() && m2.entries[j].key == key;
                let j2 = if j < i { j } else { j + 1 };
                assert(m2.entries[j] == m.entries[j2]);
            }
        },
        None => {},
    }
}

/// Writes of a key stamp it with change indexes that never go down: a write
/// gives the key the store's next index, which is no lower than the index of
/// the key's previous write, and higher unless the index is at its maximum.
pub proof fn lemma_put_index_grows(m: StoreModel, key: Seq<char>, value: Seq<char>, flags: u64)
    requires
        store_wf(m),
    ensures
        lookup(store_put(m, key, value, flags), key)->Some_0.modify_index == next_index(m),
        next_index(m) >= m.index,
        m.index < u64::MAX ==> next_index(m) > m.index,
        lookup(m, key) is Some ==> lookup(store_put(m, key, value, flags), key)->Some_0.modify_index
            >= lookup(m, key)->Some_0.modify_index,
{
    lemma_put_shape(m, key, value, flags);
}

/// Lock exclusivity: while session `s1` holds `key`, any other session `s2`
/// is refused the lock and cannot release it, and writes of the key leave
/// `s1` holding it; once `s1` releases the key, or `s1`'s session ends, a live
/// `s2` gets the lock.
pub proof fn lemma_lock_exclusive(
    m: StoreModel,
    key: Seq<char>,
    s1: Seq<char>,
    s2: Seq<char>,
    value: Seq<char>,
    flags: u64,
)
    requires
        store_wf(m),
        lookup(m, key) is Some,
        lookup(m, key)->Some_0.session == Some(s1),
        s1 != s2,
    ensures
        store_acquire(m, key, value, flags, s2) == (m, false),
        store_release(m, key, s2) == (m, false),
        lookup(store_put(m, key, value, flags), key)->Some_0.session == Some(s1),
        store_release(m, key, s1).1,
        m.sessions.contains(s2) ==> store_acquire(
            store_release(m, key, s1).0,
            key,
            value,
            flags,
            s2,
        ).1,
        m.sessions.contains(s2) ==> store_acquire(store_destroy(m, s1), key, value, flags, s2).1,
{
    lemma_put_shape(m, key, value, flags);
    let i = key_at(m.entries, key)->Some_0;
    let r = store_release(m, key, s1).0;
    lemma_key_at_found(r.entries, key, i);
    let d = store_destroy(m, s1);
    assert(d.entries.len() == m.entries.len());
    assert forall|a: int, b: int|
        0 <= a < d.entries.len() && 0 <= b < d.entries.len() && a != b implies d.entries[a].key
        != d.entries[b].key by {
        assert(d.entries[a].key == m.entries[a].key);
        assert(d.entries[b].key == m.entries[b].key);
    }
    assert(d.entries[i].key == key);
    lemma_key_at_found(d.entries, key, i);
    assert(d.entries[i].session is None);
    if m.sessions.contains(s2) {
        assert(d.sessions.contains(s2));
    }
}

/// Every change index that a read of this store returns is at most the
/// store's own index.
pub proof fn lemma_query_index_bounded(m: StoreModel, key: Seq<char>)
    requires
        store_wf(m),
    ensures
        query_index(m, key) <= m.index,
{
}

/// Wake on change: a blocking read of `key` that saw an index `last_index`
/// of this store is answered once the key is written, with an index above
/// `last_index`, which a watcher counts as a change.
pub proof fn lemma_write_wakes_watcher(
    m: StoreModel,
    key: Seq<char>,
    value: Seq<char>,
    flags: u64,
    last_index: u64,
)
    requires
        store_wf(m),
        last_index <= m.index,
        m.index < u64::MAX,
    ensures
        poll_ready(store_put(m, key, value, flags), key, last_index),
        query_index(store_put(m, key, value, flags), key) > last_index,
        watch_event(last_index, query_index(store_put(m, key, value, flags), key))
            == WatchEvent::Changed,
{
    lemma_put_shape(m, key, value, flags);
}

/// A session that has ended is refused every lock: after `id` ends, an
/// acquire by `id` changes nothing and is refused, whatever the key.
pub proof fn lemma_ended_session_refused(
    m: StoreModel,
    id: Seq<char>,
    key: Seq<char>,
    value: Seq<char>,
    flags: u64,
)
    ensures
        !store_destroy(m, id).sessions.contains(id),
        store_acquire(store_destroy(m, id), key, value, flags, id) == (store_destroy(m, id), false),
{
}

pub(crate) proof fn lemma_lookup_key(m: StoreModel, key: Seq<char>)
    requires
        lookup(m, key) is Some,
    ensures
        lookup(m, key)->Some_0.key == key,
{
}

pub(crate) proof fn lemma_acquire_held(
    m: StoreModel,
    key: Seq<char>,
    value: Seq<char>,
    flags: u64,
    session: Seq<char>,
)
    requires
        store_wf(m),
        store_acquire(m, key, value, flags, session).1,
    ensures
        store_wf(store_acquire(m, key, value, flags, session).0),
        lookup(store_acquire(m, key, value, flags, session).0, key) is Some,
        lookup(store_acquire(m, key, value, flags, session).0, key)->Some_0.session == Some(
            session,
        ),
{
    let m2 = store_acquire(m, key, value, flags, session).0;
    match key_at(m.entries, key) {
        Some(i) => {
            lemma_key_at_found(m2.entries, key, i);
        },
        None => {
            lemma_key_at_found(m2.entries, key, m.entries.len() as int);
        },
    }
}

} // verus!
