//! Keeping a session alive: reading its time-to-live, and the policy that
//! renews it at half that interval, retries a failed renewal a bounded number
//! of times, and then gives the session up.
//!
//! The policy is a state machine: the caller performs each action it returns
//! (waiting, then renewing) and hands back what the renewal gave.

use crate::error::Error;
use crate::request::text_eq;
use crate::session::SessionEntry;
use vstd::prelude::*;

verus! {

/// Whether `c` is a decimal digit.
pub open spec fn is_digit(c: char) -> bool {
    '0' <= c && c <= '9'
}

/// The value of the digit `c`.
pub open spec fn digit_value(c: char) -> nat {
    if c == '1' { 1 }
    else if c == '2' { 2 }
    else if c == '3' { 3 }
    else if c == '4' { 4 }
    else if c == '5' { 5 }
    else if c == '6' { 6 }
    else if c == '7' { 7 }
    else if c == '8' { 8 }
    else if c == '9' { 9 }
    else { 0 }
}

/// The number that the digits `s` write in decimal.
pub open spec fn digits_value(s: Seq<char>) -> nat
    decreases s.len(),
{
    if s.len() == 0 {
        0
    } else {
        digits_value(s.drop_last()) * 10 + digit_value(s.last())
    }
}

/// The length in milliseconds of a time unit: `s`, `m` or `h`.
pub open spec fn unit_millis(u: Seq<char>) -> Option<nat> {
    if u == "s"@ {
        Some(1000)
    } else if u == "m"@ {
        Some(60_000)
    } else if u == "h"@ {
        Some(3_600_000)
    } else {
        None
    }
}

/// Whether `s` is digits up to position `k`, followed by a unit.
pub open spec fn ttl_split(s: Seq<char>, k: int) -> bool {
    &&& 0 < k <= s.len()
    &&& forall|i: int| 0 <= i < k ==> is_digit(#[trigger] s[i])
    &&& unit_millis(s.subrange(k, s.len() as int)) is Some
}

/// The duration in milliseconds that a time-to-live such as `15s`, `10m` or
/// `1h` writes: a decimal number followed by a unit. `None` for any other
/// text.
pub open spec fn ttl_millis(s: Seq<char>) -> Option<nat> {
    if exists|k: int| ttl_split(s, k) {
        let k = choose|k: int| ttl_split(s, k);
        Some(digits_value(s.subrange(0, k)) * unit_millis(s.subrange(k, s.len() as int))->Some_0)
    } else {
        None
    }
}

proof fn lemma_unit_starts_with_letter(u: Seq<char>)
    requires
        unit_millis(u) is Some,
    ensures
        u.len() == 1,
        !is_digit(u[0]),
{
    reveal_strlit("s");
    reveal_strlit("m");
    reveal_strlit("h");
}

proof fn lemma_split_unique(s: Seq<char>, k1: int, k2: int)
    requires
        ttl_split(s, k1),
        ttl_split(s, k2),
    ensures
        k1 == k2,
{
    lemma_unit_starts_with_letter(s.subrange(k1, s.len() as int));
    lemma_unit_starts_with_letter(s.subrange(k2, s.len() as int));
    if k1 < k2 {
        assert(is_digit(s[k1]));
        assert(s.subrange(k1, s.len() as int)[0] == s[k1]);
    } else if k2 < k1 {
        assert(is_digit(s[k2]));
        assert(s.subrange(k2, s.len() as int)[0] == s[k2]);
    }
}

proof fn lemma_digits_monotone(s: Seq<char>, i: int, j: int)
    requires
        0 <= i <= j <= s.len(),
    ensures
        digits_value(s.subrange(0, i)) <= digits_value(s.subrange(0, j)),
    decreases j - i,
{
    if i < j {
        lemma_digits_monotone(s, i, j - 1);
        assert(s.subrange(0, j).drop_last() =~= s.subrange(0, j - 1));
    }
}

fn digit_of(c: char) -> (r: u64)
    ensures
        r as nat == digit_value(c),
        r < 10,
{
    match c {
        '1' => 1,
        '2' => 2,
        '3' => 3,
        '4' => 4,
        '5' => 5,
        '6' => 6,
        '7' => 7,
        '8' => 8,
        '9' => 9,
        _ => 0,
    }
}

/// The duration in milliseconds of the time-to-live `ttl` (see
/// [`ttl_millis`]); `None` when the text is not a time-to-live or the
/// duration does not fit in a `u64`.
pub fn parse_ttl(ttl: &str) -> (r: Option<u64>)
    ensures
        match ttl_millis(ttl@) {
            Some(v) => if v <= u64::MAX {
                r == Some(v as u64)
            } else {
                r is None
            },
            None => r is None,
        },
{
    let ghost s = ttl@;
    let n = ttl.unicode_len();
    let mut i: usize = 0;
    let mut acc: u64 = 0;
    while i < n && '0' <= ttl.get_char(i) && ttl.get_char(i) <= '9'
        invariant
            n == s.len(),
            s == ttl@,
            i <= n,
            forall|j: int| 0 <= j < i ==> is_digit(#[trigger] s[j]),
            acc as nat == digits_value(s.subrange(0, i as int)),
        decreases n - i,
    {
        let c = ttl.get_char(i);
        let d = digit_of(c);
        assert(s.subrange(0, i + 1).drop_last() =~= s.subrange(0, i as int));
        if acc > (u64::MAX - d) / 10 {
            proof {
                assert(digits_value(s.subrange(0, i + 1)) > u64::MAX);
                if exists|k: int| ttl_split(s, k) {
                    let k = choose|k: int| ttl_split(s, k);
                    lemma_unit_starts_with_letter(s.subrange(k, s.len() as int));
                    assert(s.subrange(k, s.len() as int)[0] == s[k]);
                    if k <= i {
                        assert(is_digit(s[k]));
                    }
                    lemma_digits_monotone(s, i + 1, k);
                    let m = unit_millis(s.subrange(k, s.len() as int))->Some_0;
                    assert(m >= 1);
                    assert(digits_value(s.subrange(0, k)) * m >= digits_value(s.subrange(0, k)))
                        by (nonlinear_arith)
                        requires
                            m >= 1,
                    ;
                }
            }
            return None;
        }
        acc = acc * 10 + d;
        i = i + 1;
    }
    proof {
        if i < n {
            assert(!is_digit(s[i as int]));
        }
    }
    if i == 0 {
        proof {
            if exists|k: int| ttl_split(s, k) {
                let k = choose|k: int| ttl_split(s, k);
                lemma_unit_starts_with_letter(s.subrange(k, s.len() as int));
                assert(is_digit(s[0]));
                assert(false);
            }
        }
        return None;
    }
    let unit = ttl.substring_char(i, n);
    let m: u64 = if text_eq(unit, "s") {
        1000
    } else if text_eq(unit, "m") {
        60_000
    } else if text_eq(unit, "h") {
        3_600_000
    } else {
        proof {
            if exists|k: int| ttl_split(s, k) {
                let k = choose|k: int| ttl_split(s, k);
                lemma_unit_starts_with_letter(s.subrange(k, s.len() as int));
                assert(s.subrange(k, s.len() as int)[0] == s[k]);
                if k < i {
                    assert(is_digit(s[k]));
                }
                if k > i {
                    assert(!is_digit(s[i as int]));
                }
                assert(k == i);
            }
        }
        return None;
    };
    proof {
        assert(ttl_split(s, i as int));
        let k = choose|k: int| ttl_split(s, k);
        lemma_split_unique(s, i as int, k);
    }
    acc.checked_mul(m)
}

/// The default number of renewal failures in a row after which a session is
/// given up.
pub const DEFAULT_MAX_FAILURES: u32 = 10;

/// The default wait, in milliseconds, before a failed renewal is retried.
pub const DEFAULT_RETRY_INTERVAL: u64 = 2000;

/// Where a keep-alive stands.
#[derive(Debug, Clone, Copy, PartialEq, Eq, Structural)]
pub enum KeepAliveState {
    /// The session is alive and being renewed.
    Active,
    /// The session is gone: the agent no longer knows it, or renewals failed
    /// too often. There is no way back.
    Lost,
    /// The owner stopped the keep-alive.
    Stopped,
}

/// What came of a renewal.
#[derive(Debug, Clone, Copy, PartialEq, Eq, Structural)]
pub enum RenewOutcome {
    /// The agent renewed the session.
    Renewed,
    /// The agent no longer knows the session.
    Gone,
    /// The renewal did not get through.
    Failed,
}

/// What a renewal's answer (see [`crate::session::session_response`]) means
/// for the keep-alive: the session back is a renewal, none is a session the
/// agent no longer knows, and an error is a failed attempt.
pub fn renew_outcome(result: &Result<Option<SessionEntry>, Error>) -> (r: RenewOutcome)
    ensures
        r == match result {
            Ok(Some(_)) => RenewOutcome::Renewed,
            Ok(None) => RenewOutcome::Gone,
            Err(_) => RenewOutcome::Failed,
        },
{
    match result {
        Ok(Some(_)) => RenewOutcome::Renewed,
        Ok(None) => RenewOutcome::Gone,
        Err(_) => RenewOutcome::Failed,
    }
}

/// What the keep-alive asks its runner to do next.
#[derive(Debug, Clone, Copy, PartialEq, Eq, Structural)]
pub enum KeepAliveAction {
    /// Wait this many milliseconds, then renew and report the outcome.
    RenewAfter(u64),
    /// Tell the owner that the session is lost, and stop.
    SignalLost,
    /// Stop.
    Stop,
}

/// The keep-alive of one session.
#[derive(Debug, Clone)]
pub struct KeepAlive {
    session_id: String,
    interval: u64,
    retry_interval: u64,
    max_failures: u32,
    failures: u32,
    state: KeepAliveState,
}

/// The model of a keep-alive.
pub struct KeepAliveView {
    pub session_id: Seq<char>,
    /// Milliseconds between renewals.
    pub interval: u64,
    /// Milliseconds before a failed renewal is retried.
    pub retry_interval: u64,
    /// Failures in a row after which the session is given up.
    pub max_failures: u32,
    /// Failures in a row so far.
    pub failures: u32,
    pub state: KeepAliveState,
}

impl View for KeepAlive {
    type V = KeepAliveView;

    closed spec fn view(&self) -> KeepAliveView {
        KeepAliveView {
            session_id: self.session_id@,
            interval: self.interval,
            retry_interval: self.retry_interval,
            max_failures: self.max_failures,
            failures: self.failures,
            state: self.state,
        }
    }
}

/// The keep-alive's invariant: at least one failure is allowed, and while the
/// session is alive fewer than that many have happened in a row.
pub open spec fn keep_alive_wf(v: KeepAliveView) -> bool {
    &&& v.max_failures >= 1
    &&& v.state == KeepAliveState::Active ==> v.failures < v.max_failures
}

/// One step of the keep-alive: from `v`, on the outcome `o` of a renewal,
/// the next state and the action to perform.
pub open spec fn keep_alive_next(v: KeepAliveView, o: RenewOutcome) -> (
    KeepAliveView,
    KeepAliveAction,
) {
    match v.state {
        KeepAliveState::Active => match o {
            RenewOutcome::Renewed => (
                KeepAliveView { failures: 0, ..v },
                KeepAliveAction::RenewAfter(v.interval),
            ),
            RenewOutcome::Gone => (
                KeepAliveView { state: KeepAliveState::Lost, ..v },
                KeepAliveAction::SignalLost,
            ),
            RenewOutcome::Failed => if v.failures + 1 >= v.max_failures {
                (
                    KeepAliveView {
                        failures: (v.failures + 1) as u32,
                        state: KeepAliveState::Lost,
                        ..v
                    },
                    KeepAliveAction::SignalLost,
                )
            } else {
                (
                    KeepAliveView { failures: (v.failures + 1) as u32, ..v },
                    KeepAliveAction::RenewAfter(v.retry_interval),
                )
            },
        },
        _ => (v, KeepAliveAction::Stop),
    }
}

/// The session that a keep-alive vouches for: its id while it is active.
pub open spec fn held_session(v: KeepAliveView) -> Option<Seq<char>> {
    if v.state == KeepAliveState::Active {
        Some(v.session_id)
    } else {
        None
    }
}

impl KeepAlive {
    /// A keep-alive of the session `session_id` whose time-to-live is
    /// `ttl_millis`: it renews at half the time-to-live, retries a failed
    /// renewal after `retry_interval` milliseconds, and gives the session up
    /// after `max_failures` failures in a row (at least one).
    pub fn new(session_id: String, ttl_millis: u64, max_failures: u32, retry_interval: u64) -> (r:
        KeepAlive)
        ensures
            r@ == (KeepAliveView {
                session_id: session_id@,
                interval: ttl_millis / 2,
                retry_interval,
                max_failures: if max_failures == 0 {
                    1
                } else {
                    max_failures
                },
                failures: 0,
                state: KeepAliveState::Active,
            }),
            keep_alive_wf(r@),
    {
        KeepAlive {
            session_id,
            interval: ttl_millis / 2,
            retry_interval,
            max_failures: if max_failures == 0 {
                1
            } else {
                max_failures
            },
            failures: 0,
            state: KeepAliveState::Active,
        }
    }

    /// The keep-alive of a created session with the default retry policy;
    /// `None` when the entry has no id or no time-to-live that parses.
    pub fn for_session(entry: &SessionEntry) -> (r: Option<KeepAlive>)
        ensures
            match (entry.id, entry.ttl) {
                (Some(id), Some(ttl)) => match ttl_millis(ttl@) {
                    Some(t) if t <= u64::MAX => r is Some && r->Some_0@ == (KeepAliveView {
                        session_id: id@,
                        interval: (t / 2) as u64,
                        retry_interval: DEFAULT_RETRY_INTERVAL,
                        max_failures: DEFAULT_MAX_FAILURES,
                        failures: 0,
                        state: KeepAliveState::Active,
                    }),
                    _ => r is None,
                },
                _ => r is None,
            },
            r is Some ==> keep_alive_wf(r->Some_0@),
    {
        match (&entry.id, &entry.ttl) {
            (Some(id), Some(ttl)) => match parse_ttl(ttl.as_str()) {
                Some(t) => Some(
                    KeepAlive::new(id.clone(), t, DEFAULT_MAX_FAILURES, DEFAULT_RETRY_INTERVAL),
                ),
                None => None,
            },
            _ => None,
        }
    }

    /// The first action: wait one interval, then renew; `Stop` once the
    /// keep-alive has ended.
    pub fn start(&self) -> (r: KeepAliveAction)
        ensures
            r == if self@.state == KeepAliveState::Active {
                KeepAliveAction::RenewAfter(self@.interval)
            } else {
                KeepAliveAction::Stop
            },
    {
        match self.state {
            KeepAliveState::Active => KeepAliveAction::RenewAfter(self.interval),
            _ => KeepAliveAction::Stop,
        }
    }

    /// Takes the outcome of a renewal and returns the next action (see
    /// [`keep_alive_next`]).
    pub fn on_renew(&mut self, outcome: RenewOutcome) -> (r: KeepAliveAction)
        requires
            keep_alive_wf(old(self)@),
        ensures
            (final(self)@, r) == keep_alive_next(old(self)@, outcome),
            keep_alive_wf(final(self)@),
    {
        match self.state {
            KeepAliveState::Active => match outcome {
                RenewOutcome::Renewed => {
                    self.failures = 0;
                    KeepAliveAction::RenewAfter(self.interval)
                },
                RenewOutcome::Gone => {
                    self.state = KeepAliveState::Lost;
                    KeepAliveAction::SignalLost
                },
                RenewOutcome::Failed => {
                    self.failures = self.failures + 1;
                    if self.failures >= self.max_failures {
                        self.state = KeepAliveState::Lost;
                        KeepAliveAction::SignalLost
                    } else {
                        KeepAliveAction::RenewAfter(self.retry_interval)
                    }
                },
            },
            _ => KeepAliveAction::Stop,
        }
    }

    /// Stops the keep-alive of a live session, at its owner's request; one
    /// that has ended stays as it is.
    pub fn cancel(&mut self)
        requires
            keep_alive_wf(old(self)@),
        ensures
            final(self)@ == if old(self)@.state == KeepAliveState::Active {
                KeepAliveView { state: KeepAliveState::Stopped, ..old(self)@ }
            } else {
                old(self)@
            },
            keep_alive_wf(final(self)@),
    {
        if self.state == KeepAliveState::Active {
            self.state = KeepAliveState::Stopped;
        }
    }

    /// Where the keep-alive stands.
    pub fn state(&self) -> (r: KeepAliveState)
        ensures
            r == self@.state,
    {
        self.state
    }

    /// The session id while the session is alive; `None` once it is lost or
    /// the keep-alive was stopped.
    pub fn session(&self) -> (r: Option<String>)
        ensures
            match r {
                Some(s) => held_session(self@) == Some(s@),
                None => held_session(self@) is None,
            },
    {
        match self.state {
            KeepAliveState::Active => Some(self.session_id.clone()),
            _ => None,
        }
    }
}

/// The keep-alive after `n` failed renewals in a row from `v`.
pub open spec fn after_failures(v: KeepAliveView, n: nat) -> KeepAliveView
    decreases n,
{
    if n == 0 {
        v
    } else {
        keep_alive_next(after_failures(v, (n - 1) as nat), RenewOutcome::Failed).0
    }
}

proof fn lemma_failures_counted(v: KeepAliveView, n: nat)
    requires
        keep_alive_wf(v),
        v.state == KeepAliveState::Active,
        v.failures == 0,
        n < v.max_failures,
    ensures
        after_failures(v, n) == (KeepAliveView { failures: n as u32, ..v }),
    decreases n,
{
    if n > 0 {
        lemma_failures_counted(v, (n - 1) as nat);
    }
}

/// A live session whose renewals keep failing is retried, and given up after
/// exactly the bound of failures in a row: each of the first failures but the
/// last asks for a retry, the last signals the loss, and from then on the
/// keep-alive vouches for no session and answers every outcome with `Stop`.
/// A lock request built from the session it vouches for then carries no
/// session, which [`crate::Client::acquire_entry`] refuses with
/// `MissingSessionFlag`.
pub proof fn lemma_failures_lose_session(v: KeepAliveView)
    requires
        keep_alive_wf(v),
        v.state == KeepAliveState::Active,
        v.failures == 0,
    ensures
        forall|n: nat|
            n < v.max_failures ==> {
                &&& (#[trigger] after_failures(v, n)).state == KeepAliveState::Active
                &&& keep_alive_next(after_failures(v, n), RenewOutcome::Failed).1 == if n + 1
                    < v.max_failures {
                    KeepAliveAction::RenewAfter(v.retry_interval)
                } else {
                    KeepAliveAction::SignalLost
                }
            },
        after_failures(v, v.max_failures as nat).state == KeepAliveState::Lost,
        held_session(after_failures(v, v.max_failures as nat)) is None,
        forall|o: RenewOutcome|
            #[trigger] keep_alive_next(after_failures(v, v.max_failures as nat), o) == (
                after_failures(v, v.max_failures as nat),
                KeepAliveAction::Stop,
            ),
{
    assert forall|n: nat| n < v.max_failures implies {
        &&& (#[trigger] after_failures(v, n)).state == KeepAliveState::Active
        &&& keep_alive_next(after_failures(v, n), RenewOutcome::Failed).1 == if n + 1
            < v.max_failures {
            KeepAliveAction::RenewAfter(v.retry_interval)
        } else {
            KeepAliveAction::SignalLost
        }
    } by {
        lemma_failures_counted(v, n);
    }
    let last = (v.max_failures - 1) as nat;
    lemma_failures_counted(v, last);
    assert(after_failures(v, v.max_failures as nat) == keep_alive_next(
        after_failures(v, last),
        RenewOutcome::Failed,
    ).0);
}

} // verus!
