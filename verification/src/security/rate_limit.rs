//! A limit on the rate of failed attempts, for each peer.

use vstd::prelude::*;
use crate::clock::{nanos_since, start_clock};

verus! {

/// Address of a peer.
#[derive(Clone, Copy, Debug, PartialEq, Eq, Structural)]
pub enum PeerAddr {
    V4(u32),
    V6(u128),
}

/// Nanoseconds in one second.
pub const SECOND: u128 = 1_000_000_000;

/// The longest lockout. A peer's failures are forgotten once the last of them is older.
pub const STALE_AFTER: u128 = 60_000_000_000;

/// The failed attempts of one peer.
#[derive(Clone, Copy, Debug, PartialEq, Eq, Structural)]
pub struct Attempts {
    /// How many failed.
    pub failures: u32,
    /// When the last one failed.
    pub last: u128,
}

#[derive(Clone, Copy)]
struct RateLimitEntry {
    ip: PeerAddr,
    attempts: Attempts,
}

/// Tracks failed attempts and answers the fourth with a lockout of 5 seconds, the
/// fifth with 15 and each further one with 60.
pub struct RateLimiter {
    started: std::time::Instant,
    entries: Vec<RateLimitEntry>,
}

/// How long a peer is locked out after so many failures, in nanoseconds.
pub open spec fn lockout_of(failures: u32) -> nat {
    if failures <= 3 {
        0
    } else if failures == 4 {
        5_000_000_000
    } else if failures == 5 {
        15_000_000_000
    } else {
        60_000_000_000
    }
}

/// The time from `last` to `now`; none if the clock stands before `last`.
pub open spec fn elapsed_from(last: u128, now: u128) -> nat {
    if now >= last {
        (now - last) as nat
    } else {
        0
    }
}

/// What is left of a peer's lockout, if it is locked out.
pub open spec fn lockout_left(m: Map<PeerAddr, Attempts>, ip: PeerAddr, now: u128) -> Option<nat> {
    if !m.contains_key(ip) || m[ip].failures <= 3 {
        None
    } else if elapsed_from(m[ip].last, now) <= lockout_of(m[ip].failures) {
        Some((lockout_of(m[ip].failures) - elapsed_from(m[ip].last, now)) as nat)
    } else {
        None
    }
}

/// One more failure of a peer.
pub open spec fn with_failure(m: Map<PeerAddr, Attempts>, ip: PeerAddr, now: u128) -> Map<
    PeerAddr,
    Attempts,
> {
    let before = if m.contains_key(ip) {
        m[ip].failures
    } else {
        0
    };
    m.insert(ip, Attempts { failures: (before + 1) as u32, last: now })
}

/// Whether failures are recent enough to be kept.
pub open spec fn is_fresh(a: Attempts, now: u128) -> bool {
    elapsed_from(a.last, now) <= STALE_AFTER
}

/// The peers whose failures are recent.
pub open spec fn pruned(m: Map<PeerAddr, Attempts>, now: u128) -> Map<PeerAddr, Attempts> {
    Map::new(|ip: PeerAddr| m.contains_key(ip) && is_fresh(m[ip], now), |ip: PeerAddr| m[ip])
}

spec fn lists(s: Seq<RateLimitEntry>, ip: PeerAddr) -> bool {
    exists|i: int| 0 <= i < s.len() && (#[trigger] s[i]).ip == ip
}

spec fn listed(s: Seq<RateLimitEntry>, ip: PeerAddr) -> Attempts {
    s[choose|i: int| 0 <= i < s.len() && (#[trigger] s[i]).ip == ip].attempts
}

spec fn table(s: Seq<RateLimitEntry>) -> Map<PeerAddr, Attempts> {
    Map::new(|ip: PeerAddr| lists(s, ip), |ip: PeerAddr| listed(s, ip))
}

spec fn each_once(s: Seq<RateLimitEntry>) -> bool {
    forall|i: int, j: int|
        0 <= i < j < s.len() ==> (#[trigger] s[i]).ip != (#[trigger] s[j]).ip
}

proof fn lemma_listed(s: Seq<RateLimitEntry>)
    requires
        each_once(s),
    ensures
        forall|i: int|
            0 <= i < s.len() ==> table(s).contains_key((#[trigger] s[i]).ip) && table(s)[s[i].ip]
                == s[i].attempts,
{
    assert forall|i: int| 0 <= i < s.len() implies table(s).contains_key((#[trigger] s[i]).ip)
        && table(s)[s[i].ip] == s[i].attempts by {
        let ip = s[i].ip;
        assert(lists(s, ip));
        let k = choose|k: int| 0 <= k < s.len() && (#[trigger] s[k]).ip == ip;
        assert(k == i);
    }
}

impl View for RateLimiter {
    type V = Map<PeerAddr, Attempts>;

    closed spec fn view(&self) -> Map<PeerAddr, Attempts> {
        table(self.entries@)
    }
}

impl RateLimiter {
    /// The clock by which this limiter tells the time.
    pub closed spec fn clock(&self) -> std::time::Instant {
        self.started
    }

    /// Each peer is listed once.
    pub closed spec fn wf(&self) -> bool {
        each_once(self.entries@)
    }

    pub fn new() -> (r: Self)
        ensures
            r.wf(),
            r@ == Map::<PeerAddr, Attempts>::empty(),
    {
        let r = RateLimiter { started: start_clock(), entries: Vec::new() };
        assert(r@ =~= Map::<PeerAddr, Attempts>::empty());
        r
    }

    /// The time by this limiter's clock.
    pub(crate) fn now(&self) -> u128 {
        nanos_since(&self.started)
    }

    fn find(&self, ip: PeerAddr) -> (r: Option<usize>)
        requires
            self.wf(),
        ensures
            match r {
                Some(i) => i < self.entries@.len() && self.entries@[i as int].ip == ip
                    && self@.contains_key(ip) && self@[ip] == self.entries@[i as int].attempts,
                None => !self@.contains_key(ip) && forall|j: int|
                    0 <= j < self.entries@.len() ==> (#[trigger] self.entries@[j]).ip != ip,
            },
    {
        let mut i: usize = 0;
        while i < self.entries.len()
            invariant
                self.wf(),
                i <= self.entries@.len(),
                forall|j: int| 0 <= j < i ==> (#[trigger] self.entries@[j]).ip != ip,
            decreases self.entries@.len() - i,
        {
            if self.entries[i].ip == ip {
                proof {
                    lemma_listed(self.entries@);
                }
                return Some(i);
            }
            i += 1;
        }
        None
    }

    /// How many attempts of a peer have failed.
    pub fn failures(&self, ip: PeerAddr) -> (r: u32)
        requires
            self.wf(),
        ensures
            r == (if self@.contains_key(ip) {
                self@[ip].failures
            } else {
                0
            }),
    {
        match self.find(ip) {
            Some(i) => self.entries[i].attempts.failures,
            None => 0,
        }
    }

    /// What is left of a peer's lockout, in nanoseconds; none if an attempt is
    /// allowed.
    pub fn check_at(&self, ip: PeerAddr, now: u128) -> (r: Option<u128>)
        requires
            self.wf(),
        ensures
            match r {
                Some(left) => lockout_left(self@, ip, now) == Some(left as nat),
                None => lockout_left(self@, ip, now) is None,
            },
    {
        match self.find(ip) {
            Some(i) => {
                let a = self.entries[i].attempts;
                let lockout: u128 = match a.failures {
                    0..=3 => {
                        return None;
                    },
                    4 => 5 * SECOND,
                    5 => 15 * SECOND,
                    _ => 60 * SECOND,
                };
                let elapsed = if now >= a.last {
                    now - a.last
                } else {
                    0
                };
                lockout.checked_sub(elapsed)
            },
            None => None,
        }
    }

    /// What is left of a peer's lockout by this limiter's clock.
    pub fn check(&self, ip: PeerAddr) -> (r: Option<u128>)
        requires
            self.wf(),
        ensures
            !self@.contains_key(ip) || self@[ip].failures <= 3 ==> r is None,
            exists|now: u128|
                match r {
                    Some(left) => #[trigger] lockout_left(self@, ip, now) == Some(left as nat),
                    None => lockout_left(self@, ip, now) is None,
                },
    {
        let now = self.now();
        self.check_at(ip, now)
    }

    /// Records a failed attempt.
    pub fn record_failure_at(&mut self, ip: PeerAddr, now: u128)
        requires
            old(self).wf(),
            old(self)@.contains_key(ip) ==> old(self)@[ip].failures < u32::MAX,
        ensures
            final(self).wf(),
            final(self)@ == with_failure(old(self)@, ip, now),
            final(self).clock() == old(self).clock(),
    {
        let ghost before = self.entries@;
        match self.find(ip) {
            Some(i) => {
                let failures = self.entries[i].attempts.failures + 1;
                let entry = RateLimitEntry { ip, attempts: Attempts { failures, last: now } };
                self.entries.set(i, entry);
                proof {
                    let s = self.entries@;
                    lemma_listed(before);
                    lemma_listed(s);
                    assert forall|p: PeerAddr|
                        table(s).contains_key(p) <==> with_failure(
                            table(before),
                            ip,
                            now,
                        ).contains_key(p) by {
                        if lists(before, p) {
                            let k = choose|k: int|
                                0 <= k < before.len() && (#[trigger] before[k]).ip == p;
                            assert(s[k].ip == p);
                        }
                        if lists(s, p) {
                            let k = choose|k: int| 0 <= k < s.len() && (#[trigger] s[k]).ip == p;
                            assert(before[k].ip == p);
                        }
                        assert(s[i as int].ip == ip);
                    }
                    assert forall|p: PeerAddr| table(s).contains_key(p) implies table(s)[p]
                        == with_failure(table(before), ip, now)[p] by {
                        let k = choose|k: int| 0 <= k < s.len() && (#[trigger] s[k]).ip == p;
                        assert(before[k].ip == p);
                        assert(s[i as int].ip == ip);
                    }
                    assert(table(s) =~= with_failure(table(before), ip, now));
                }
            },
            None => {
                let entry = RateLimitEntry { ip, attempts: Attempts { failures: 1, last: now } };
                self.entries.push(entry);
                proof {
                    let s = self.entries@;
                    lemma_listed(before);
                    lemma_listed(s);
                    assert forall|p: PeerAddr|
                        table(s).contains_key(p) <==> with_failure(
                            table(before),
                            ip,
                            now,
                        ).contains_key(p) by {
                        if lists(before, p) {
                            let k = choose|k: int|
                                0 <= k < before.len() && (#[trigger] before[k]).ip == p;
                            assert(s[k].ip == p);
                        }
                        assert(s[before.len() as int].ip == ip);
                        if lists(s, p) && p != ip {
                            let k = choose|k: int| 0 <= k < s.len() && (#[trigger] s[k]).ip == p;
                            assert(before[k].ip == p);
                        }
                    }
                    assert forall|p: PeerAddr| table(s).contains_key(p) implies table(s)[p]
                        == with_failure(table(before), ip, now)[p] by {
                        let k = choose|k: int| 0 <= k < s.len() && (#[trigger] s[k]).ip == p;
                        if p != ip {
                            assert(before[k].ip == p);
                        }
                        assert(s[before.len() as int].ip == ip);
                    }
                    assert(table(s) =~= with_failure(table(before), ip, now));
                }
            },
        }
    }

    /// Records a failed attempt by this limiter's clock.
    pub fn record_failure(&mut self, ip: PeerAddr)
        requires
            old(self).wf(),
            old(self)@.contains_key(ip) ==> old(self)@[ip].failures < u32::MAX,
        ensures
            final(self).wf(),
            exists|now: u128| final(self)@ == #[trigger] with_failure(old(self)@, ip, now),
            final(self).clock() == old(self).clock(),
    {
        let now = self.now();
        self.record_failure_at(ip, now);
    }

    /// Forgets a peer's failures.
    pub fn clear(&mut self, ip: PeerAddr)
        requires
            old(self).wf(),
        ensures
            final(self).wf(),
            final(self)@ == old(self)@.remove(ip),
            final(self).clock() == old(self).clock(),
    {
        let ghost before = self.entries@;
        match self.find(ip) {
            Some(i) => {
                self.entries.remove(i);
                proof {
                    let s = self.entries@;
                    assert(s =~= before.remove(i as int));
                    assert forall|a: int, b: int| 0 <= a < b < s.len() implies (#[trigger] s[a]).ip
                        != (#[trigger] s[b]).ip by {
                        let x = if a < i {
                            a
                        } else {
                            a + 1
                        };
                        let y = if b < i {
                            b
                        } else {
                            b + 1
                        };
                        assert(before[x].ip != before[y].ip);
                    }
                    lemma_listed(before);
                    lemma_listed(s);
                    assert forall|p: PeerAddr|
                        table(s).contains_key(p) <==> table(before).remove(ip).contains_key(p) by {
                        if lists(before, p) && p != ip {
                            let k = choose|k: int|
                                0 <= k < before.len() && (#[trigger] before[k]).ip == p;
                            if k < i {
                                assert(s[k].ip == p);
                            } else {
                                assert(s[k - 1].ip == p);
                            }
                        }
                        if lists(s, p) {
                            let k = choose|k: int| 0 <= k < s.len() && (#[trigger] s[k]).ip == p;
                            if k < i {
                                assert(before[k].ip == p);
                            } else {
                                assert(before[k + 1].ip == p);
                            }
                        }
                    }
                    assert forall|p: PeerAddr| table(s).contains_key(p) implies table(s)[p]
                        == table(before).remove(ip)[p] by {
                        let k = choose|k: int| 0 <= k < s.len() && (#[trigger] s[k]).ip == p;
                        if k < i {
                            assert(before[k].ip == p);
                        } else {
                            assert(before[k + 1].ip == p);
                        }
                    }
                    assert(table(s) =~= table(before).remove(ip));
                }
            },
            None => {
                assert(self@ =~= self@.remove(ip));
            },
        }
    }

    /// Forgets the peers whose last failure is longer past than the longest lockout.
    pub fn prune_stale_at(&mut self, now: u128)
        requires
            old(self).wf(),
        ensures
            final(self).wf(),
            final(self)@ == pruned(old(self)@, now),
            final(self).clock() == old(self).clock(),
    {
        let ghost before = self.entries@;
        let mut kept: Vec<RateLimitEntry> = Vec::new();
        let mut i: usize = 0;
        while i < self.entries.len()
            invariant
                self.entries@ == before,
                each_once(before),
                i <= before.len(),
                each_once(kept@),
                forall|k: int|
                    0 <= k < kept@.len() ==> is_fresh((#[trigger] kept@[k]).attempts, now)
                        && exists|j: int| 0 <= j < i && #[trigger] before[j] == kept@[k],
                forall|j: int|
                    0 <= j < i && is_fresh((#[trigger] before[j]).attempts, now)
                        ==> kept@.contains(before[j]),
            decreases before.len() - i,
        {
            let entry = self.entries[i];
            let elapsed = if now >= entry.attempts.last {
                now - entry.attempts.last
            } else {
                0
            };
            let ghost was = kept@;
            if elapsed <= STALE_AFTER {
                kept.push(entry);
                proof {
                    assert forall|a: int, b: int| 0 <= a < b < kept@.len() implies (
                    #[trigger] kept@[a]).ip != (#[trigger] kept@[b]).ip by {
                        if b == was.len() {
                            let j = choose|j: int| 0 <= j < i && #[trigger] before[j] == was[a];
                            assert(before[j].ip != before[i as int].ip);
                        }
                    }
                    assert forall|k: int| 0 <= k < kept@.len() implies is_fresh(
                        (#[trigger] kept@[k]).attempts,
                        now,
                    ) && exists|j: int| 0 <= j < i + 1 && #[trigger] before[j] == kept@[k] by {
                        if k < was.len() {
                            assert(was[k] == kept@[k]);
                            let j = choose|j: int| 0 <= j < i && #[trigger] before[j] == was[k];
                            assert(before[j] == kept@[k]);
                        } else {
                            assert(before[i as int] == kept@[k]);
                        }
                    }
                    assert forall|j: int|
                        0 <= j < i + 1 && is_fresh(
                            (#[trigger] before[j]).attempts,
                            now,
                        ) implies kept@.contains(before[j]) by {
                        if j < i {
                            let k = was.index_of(before[j]);
                            assert(was.contains(before[j]));
                            assert(kept@[k] == before[j]);
                        } else {
                            assert(kept@[was.len() as int] == before[j]);
                        }
                    }
                }
            }
            i += 1;
        }
        self.entries = kept;
        proof {
            let s = self.entries@;
            lemma_listed(before);
            lemma_listed(s);
            assert forall|p: PeerAddr|
                table(s).contains_key(p) <==> pruned(table(before), now).contains_key(p) by {
                if lists(before, p) && is_fresh(table(before)[p], now) {
                    let j = choose|j: int| 0 <= j < before.len() && (#[trigger] before[j]).ip == p;
                    let k = s.index_of(before[j]);
                    assert(s.contains(before[j]));
                    assert(s[k].ip == p);
                }
                if lists(s, p) {
                    let k = choose|k: int| 0 <= k < s.len() && (#[trigger] s[k]).ip == p;
                    let j = choose|j: int| 0 <= j < before.len() && #[trigger] before[j] == s[k];
                    assert(before[j].ip == p);
                }
            }
            assert forall|p: PeerAddr| table(s).contains_key(p) implies table(s)[p] == pruned(
                table(before),
                now,
            )[p] by {
                let k = choose|k: int| 0 <= k < s.len() && (#[trigger] s[k]).ip == p;
                let j = choose|j: int| 0 <= j < before.len() && #[trigger] before[j] == s[k];
                assert(before[j].ip == p);
            }
            assert(table(s) =~= pruned(table(before), now));
        }
    }

    /// Forgets the peers whose last failure is longer past than the longest lockout, by
    /// this limiter's clock.
    pub fn prune_stale(&mut self)
        requires
            old(self).wf(),
        ensures
            final(self).wf(),
            exists|now: u128| final(self)@ == #[trigger] pruned(old(self)@, now),
            final(self).clock() == old(self).clock(),
    {
        let now = self.now();
        self.prune_stale_at(now);
    }
}

/// A peer with at most three failures is never locked out.
pub proof fn few_failures_are_free(m: Map<PeerAddr, Attempts>, ip: PeerAddr, now: u128)
    requires
        m.contains_key(ip) ==> m[ip].failures <= 3,
    ensures
        lockout_left(m, ip, now) is None,
{
}

/// Right after the fourth and each further failure the peer is locked out, and the
/// lockout never gets shorter.
pub proof fn lockouts_grow(m: Map<PeerAddr, Attempts>, ip: PeerAddr, now: u128)
    requires
        m.contains_key(ip),
        3 <= m[ip].failures < u32::MAX,
    ensures
        lockout_left(with_failure(m, ip, now), ip, now) == Some(
            lockout_of((m[ip].failures + 1) as u32),
        ),
        lockout_of(m[ip].failures) <= lockout_of((m[ip].failures + 1) as u32),
{
}

/// No lockout lasts longer than a minute.
pub proof fn lockouts_end(m: Map<PeerAddr, Attempts>, ip: PeerAddr, now: u128)
    requires
        m.contains_key(ip) ==> elapsed_from(m[ip].last, now) > 60 * SECOND,
    ensures
        lockout_left(m, ip, now) is None,
{
}

/// One peer's failures do not lock another one out.
pub proof fn peers_are_independent(
    m: Map<PeerAddr, Attempts>,
    ip: PeerAddr,
    other: PeerAddr,
    at: u128,
    now: u128,
)
    requires
        ip != other,
    ensures
        lockout_left(with_failure(m, ip, at), other, now) == lockout_left(m, other, now),
{
}

/// A peer whose failures were forgotten after a success is not locked out.
pub proof fn success_lifts_the_lockout(m: Map<PeerAddr, Attempts>, ip: PeerAddr, now: u128)
    ensures
        lockout_left(m.remove(ip), ip, now) is None,
{
}

/// No lockout is longer than the age from which failures are forgotten, and nothing
/// older is left after they were.
pub proof fn nothing_outlives_the_longest_lockout(
    m: Map<PeerAddr, Attempts>,
    ip: PeerAddr,
    failures: u32,
    now: u128,
)
    ensures
        lockout_of(failures) <= 60 * SECOND,
        pruned(m, now).contains_key(ip) <==> m.contains_key(ip) && elapsed_from(m[ip].last, now)
            <= 60 * SECOND,
        pruned(m, now).contains_key(ip) ==> pruned(m, now)[ip] == m[ip],
{
}

/// A peer whose failures were forgotten begins anew: its next failure is its first
/// and locks nobody out.
pub proof fn forgotten_failures_do_not_count(
    m: Map<PeerAddr, Attempts>,
    ip: PeerAddr,
    at: u128,
    now: u128,
)
    requires
        m.contains_key(ip),
        elapsed_from(m[ip].last, at) > 60 * SECOND,
    ensures
        with_failure(pruned(m, at), ip, now)[ip].failures == 1,
        lockout_left(with_failure(pruned(m, at), ip, now), ip, now) is None,
{
}

/// Forgetting long past failures lifts no lockout, then or later.
pub proof fn pruning_lifts_no_lockout(
    m: Map<PeerAddr, Attempts>,
    ip: PeerAddr,
    at: u128,
    now: u128,
)
    requires
        at <= now,
    ensures
        lockout_left(pruned(m, at), ip, now) == lockout_left(m, ip, now),
{
}

/// The fourth failure locks a peer out for 5 seconds, the fifth for 15 and each further
/// one for 60, counted from the last failure; what is left shrinks as time goes by.
pub proof fn lockouts_last_as_long_as_announced(
    m: Map<PeerAddr, Attempts>,
    ip: PeerAddr,
    passed: u64,
)
    requires
        m.contains_key(ip),
        m[ip].last + passed <= u128::MAX,
    ensures
        ({
            let left = lockout_left(m, ip, (m[ip].last + passed) as u128);
            let whole = if m[ip].failures == 4 {
                5int
            } else if m[ip].failures == 5 {
                15int
            } else {
                60int
            };
            if m[ip].failures >= 4 && passed <= whole * 1_000_000_000 {
                left is Some && left->0 == whole * 1_000_000_000 - passed
            } else {
                left is None
            }
        }),
        forall|now: u128|
            now < m[ip].last ==> #[trigger] lockout_left(m, ip, now) == lockout_left(
                m,
                ip,
                m[ip].last,
            ),
{
}

/// A failure adds one to the failures of its peer, sets the time of the last one, and
/// leaves all others alone.
pub proof fn failures_are_counted(
    m: Map<PeerAddr, Attempts>,
    ip: PeerAddr,
    other: PeerAddr,
    now: u128,
)
    requires
        m.contains_key(ip) ==> m[ip].failures < u32::MAX,
    ensures
        with_failure(m, ip, now).contains_key(ip),
        with_failure(m, ip, now)[ip].last == now,
        m.contains_key(ip) ==> with_failure(m, ip, now)[ip].failures == m[ip].failures + 1,
        !m.contains_key(ip) ==> with_failure(m, ip, now)[ip].failures == 1,
        other != ip ==> (with_failure(m, ip, now).contains_key(other) <==> m.contains_key(other)),
        other != ip && m.contains_key(other) ==> with_failure(m, ip, now)[other] == m[other],
{
}

} // verus!
