//! Login rate limiting: at most five failed logins per client within five
//! minutes; idle windows are forgotten after ten minutes.
use vstd::prelude::*;
use crate::text::str_eq;

verus! {

/// Five minutes, in nanoseconds: the length of an attempt window.
pub const WINDOW_NS: u128 = 300_000_000_000;

/// Ten minutes, in nanoseconds: windows older than this are dropped.
pub const FORGET_NS: u128 = 600_000_000_000;

/// Failed attempts allowed in one window before logins are refused.
pub const MAX_FAILURES: u32 = 5;

/// Failed logins of one client since `window_start` (nanoseconds on the
/// limiter's clock).
#[derive(Debug, Clone, Copy, PartialEq, Eq, Structural)]
pub struct AttemptWindow {
    pub count: u32,
    pub window_start: u128,
}

#[verifier::external_type_specification]
#[verifier::external_body]
pub struct ExInstant(std::time::Instant);

/// `Instant::now()`: a reading of the monotonic clock.
#[verifier::external_body]
fn instant_now() -> std::time::Instant {
    std::time::Instant::now()
}

/// `Instant::elapsed` in nanoseconds (`Duration::as_nanos`). Nothing is stated
/// of the value: it is the time that has passed.
#[verifier::external_body]
fn elapsed_ns(origin: &std::time::Instant) -> u128 {
    origin.elapsed().as_nanos()
}

/// Time from `start` to `now`, zero where `now` is earlier (as `Instant::elapsed` saturates).
pub open spec fn elapsed(now: u128, start: u128) -> int {
    if now >= start {
        now - start
    } else {
        0
    }
}

/// The map of windows built from an association list; later entries win.
pub open spec fn assoc_map(s: Seq<(String, AttemptWindow)>) -> Map<Seq<char>, AttemptWindow>
    decreases s.len(),
{
    if s.len() == 0 {
        Map::empty()
    } else {
        assoc_map(s.drop_last()).insert(s.last().0@, s.last().1)
    }
}

/// No client appears twice in the list.
pub open spec fn distinct_keys(s: Seq<(String, AttemptWindow)>) -> bool {
    forall|i: int, j: int| 0 <= i < s.len() && 0 <= j < s.len() && i != j ==> s[i].0@ != s[j].0@
}

/// The windows still remembered at `now`: those younger than ten minutes.
pub open spec fn cleaned(m: Map<Seq<char>, AttemptWindow>, now: u128) -> Map<Seq<char>, AttemptWindow> {
    Map::new(|k: Seq<char>| m.dom().contains(k) && elapsed(now, m[k].window_start) < FORGET_NS, |k: Seq<char>| m[k])
}

/// Whether a login from `ip` is allowed at `now`, given the remembered windows.
pub open spec fn allowed_in(m: Map<Seq<char>, AttemptWindow>, ip: Seq<char>, now: u128) -> bool {
    !(m.dom().contains(ip) && elapsed(now, m[ip].window_start) < WINDOW_NS && m[ip].count
        >= MAX_FAILURES)
}

/// What `check_allowed` answers at `now`.
pub open spec fn spec_allowed(m: Map<Seq<char>, AttemptWindow>, ip: Seq<char>, now: u128) -> bool {
    allowed_in(cleaned(m, now), ip, now)
}

/// `count + 1`, saturating at `u32::MAX`.
pub open spec fn sat_inc(c: u32) -> u32 {
    if c == u32::MAX {
        c
    } else {
        (c + 1) as u32
    }
}

/// The windows after a failed login from `ip` at `now`: a window older than
/// five minutes starts over, and the count goes up by one.
pub open spec fn spec_record_failure(m: Map<Seq<char>, AttemptWindow>, ip: Seq<char>, now: u128) -> Map<
    Seq<char>,
    AttemptWindow,
> {
    let c = cleaned(m, now);
    let w0 = if c.dom().contains(ip) {
        c[ip]
    } else {
        AttemptWindow { count: 0, window_start: now }
    };
    let w1 = if elapsed(now, w0.window_start) >= WINDOW_NS {
        AttemptWindow { count: 0, window_start: now }
    } else {
        w0
    };
    c.insert(ip, AttemptWindow { count: sat_inc(w1.count), window_start: w1.window_start })
}

proof fn lemma_assoc_contains(s: Seq<(String, AttemptWindow)>, k: Seq<char>)
    ensures
        assoc_map(s).dom().contains(k) <==> exists|i: int| 0 <= i < s.len() && #[trigger] s[i].0@ == k,
    decreases s.len(),
{
    if s.len() > 0 {
        lemma_assoc_contains(s.drop_last(), k);
        if assoc_map(s).dom().contains(k) && k != s.last().0@ {
            let i = choose|i: int| 0 <= i < s.drop_last().len() && #[trigger] s.drop_last()[i].0@ == k;
            assert(s[i].0@ == k);
        }
        if exists|i: int| 0 <= i < s.len() && #[trigger] s[i].0@ == k {
            let i = choose|i: int| 0 <= i < s.len() && #[trigger] s[i].0@ == k;
            if i < s.len() - 1 {
                assert(s.drop_last()[i].0@ == k);
            }
        }
    }
}

proof fn lemma_assoc_value(s: Seq<(String, AttemptWindow)>, i: int)
    requires
        distinct_keys(s),
        0 <= i < s.len(),
    ensures
        assoc_map(s).dom().contains(s[i].0@),
        assoc_map(s)[s[i].0@] == s[i].1,
    decreases s.len(),
{
    if i < s.len() - 1 {
        let t = s.drop_last();
        assert(t[i] == s[i]);
        lemma_assoc_value(t, i);
    }
}

proof fn lemma_assoc_remove(s: Seq<(String, AttemptWindow)>, i: int)
    requires
        distinct_keys(s),
        0 <= i < s.len(),
    ensures
        distinct_keys(s.remove(i)),
        assoc_map(s.remove(i)) =~= assoc_map(s).remove(s[i].0@),
{
    let r = s.remove(i);
    let k = s[i].0@;
    assert forall|a: int, b: int| 0 <= a < r.len() && 0 <= b < r.len() && a != b implies r[a].0@
        != r[b].0@ by {
        let a2 = if a < i {
            a
        } else {
            a + 1
        };
        let b2 = if b < i {
            b
        } else {
            b + 1
        };
        assert(r[a] == s[a2] && r[b] == s[b2]);
    }
    assert forall|x: Seq<char>| #[trigger] assoc_map(r).dom().contains(x) <==> assoc_map(
        s,
    ).remove(k).dom().contains(x) by {
        lemma_assoc_contains(r, x);
        lemma_assoc_contains(s, x);
        if exists|j: int| 0 <= j < s.len() && #[trigger] s[j].0@ == x {
            let j = choose|j: int| 0 <= j < s.len() && #[trigger] s[j].0@ == x;
            if j < i {
                assert(r[j] == s[j]);
            } else if j > i {
                assert(r[j - 1] == s[j]);
            }
        }
        if exists|j: int| 0 <= j < r.len() && #[trigger] r[j].0@ == x {
            let j = choose|j: int| 0 <= j < r.len() && #[trigger] r[j].0@ == x;
            if j < i {
                assert(r[j] == s[j]);
            } else {
                assert(r[j] == s[j + 1]);
            }
        }
    }
    assert forall|x: Seq<char>| #[trigger] assoc_map(r).dom().contains(x) implies assoc_map(r)[x]
        == assoc_map(s).remove(k)[x] by {
        lemma_assoc_contains(r, x);
        let j = choose|j: int| 0 <= j < r.len() && #[trigger] r[j].0@ == x;
        lemma_assoc_value(r, j);
        if j < i {
            assert(r[j] == s[j]);
            lemma_assoc_value(s, j);
        } else {
            assert(r[j] == s[j + 1]);
            lemma_assoc_value(s, j + 1);
        }
    }
}

proof fn lemma_assoc_push(s: Seq<(String, AttemptWindow)>, e: (String, AttemptWindow))
    requires
        distinct_keys(s),
        !assoc_map(s).dom().contains(e.0@),
    ensures
        distinct_keys(s.push(e)),
        assoc_map(s.push(e)) == assoc_map(s).insert(e.0@, e.1),
{
    let p = s.push(e);
    assert(p.drop_last() =~= s);
    assert forall|a: int, b: int| 0 <= a < p.len() && 0 <= b < p.len() && a != b implies p[a].0@
        != p[b].0@ by {
        if a == s.len() {
            lemma_assoc_contains(s, e.0@);
            assert(p[b] == s[b]);
        } else if b == s.len() {
            lemma_assoc_contains(s, e.0@);
            assert(p[a] == s[a]);
        }
    }
}

/// Per-client counter of failed logins.
pub struct LoginLimiter {
    attempts: Vec<(String, AttemptWindow)>,
    clock: std::time::Instant,
    last_reading: u128,
}

impl LoginLimiter {
    #[verifier::type_invariant]
    spec fn inv(self) -> bool {
        distinct_keys(self.attempts@)
    }

    /// The remembered windows, by client.
    pub closed spec fn view(&self) -> Map<Seq<char>, AttemptWindow> {
        assoc_map(self.attempts@)
    }

    /// The latest reading of the limiter's clock (nanoseconds since it was
    /// made); readings never go back.
    pub closed spec fn clock_reading(&self) -> u128 {
        self.last_reading
    }

    /// A limiter that remembers no attempts.
    pub fn new() -> (r: LoginLimiter)
        ensures
            r.view() == Map::<Seq<char>, AttemptWindow>::empty(),
            r.clock_reading() == 0,
    {
        LoginLimiter { attempts: Vec::new(), clock: instant_now(), last_reading: 0 }
    }

    /// Index of the entry for `ip`, if any.
    fn find(&self, ip: &str) -> (r: Option<usize>)
        ensures
            match r {
                Some(i) => i < self.attempts@.len() && self.attempts@[i as int].0@ == ip@,
                None => !self.view().dom().contains(ip@),
            },
    {
        let mut i: usize = 0;
        while i < self.attempts.len()
            invariant
                i <= self.attempts@.len(),
                forall|j: int| 0 <= j < i ==> #[trigger] self.attempts@[j].0@ != ip@,
            decreases self.attempts@.len() - i,
        {
            if str_eq(self.attempts[i].0.as_str(), ip) {
                return Some(i);
            }
            i = i + 1;
        }
        proof {
            lemma_assoc_contains(self.attempts@, ip@);
        }
        None
    }

    /// Drops the windows older than ten minutes at `now`.
    fn cleanup(&mut self, now: u128)
        ensures
            final(self).view() == cleaned(old(self).view(), now),
            final(self).clock_reading() == old(self).clock_reading(),
    {
        proof {
            use_type_invariant(&*self);
        }
        let ghost s = self.attempts@;
        let mut kept: Vec<(String, AttemptWindow)> = Vec::new();
        let mut i: usize = 0;
        while i < self.attempts.len()
            invariant
                s == self.attempts@,
                distinct_keys(s),
                i <= s.len(),
                distinct_keys(kept@),
                forall|j: int| #![trigger kept@[j]] 0 <= j < kept@.len() ==> exists|m: int| 0 <= m < i && #[trigger] s[m] == kept@[j],
                forall|x: Seq<char>| #[trigger] assoc_map(kept@).dom().contains(x) <==> (exists|m: int|
                    0 <= m < i && #[trigger] s[m].0@ == x && elapsed(now, s[m].1.window_start)
                        < FORGET_NS),
                forall|x: Seq<char>| #[trigger] assoc_map(kept@).dom().contains(x) ==> exists|m: int|
                    0 <= m < i && #[trigger] s[m].0@ == x && assoc_map(kept@)[x] == s[m].1,
            decreases s.len() - i,
        {
            let w = self.attempts[i].1;
            let keep = if now >= w.window_start {
                now - w.window_start < FORGET_NS
            } else {
                true
            };
            if keep {
                let k = self.attempts[i].0.clone();
                let ghost before = kept@;
                proof {
                    lemma_assoc_contains(before, k@);
                    if assoc_map(before).dom().contains(k@) {
                        let j = choose|j: int| 0 <= j < before.len() && #[trigger] before[j].0@ == k@;
                        let m = choose|m: int| 0 <= m < i && #[trigger] s[m] == before[j];
                        assert(s[m].0@ == s[i as int].0@);
                    }
                    lemma_assoc_push(before, (k, w));
                }
                kept.push((k, w));
                proof {
                    assert forall|j: int| #![trigger kept@[j]] 0 <= j < kept@.len() implies exists|m: int|
                        0 <= m < i + 1 && #[trigger] s[m] == kept@[j] by {
                        if j < before.len() {
                            let m = choose|m: int| 0 <= m < i && #[trigger] s[m] == before[j];
                            assert(s[m] == kept@[j]);
                        } else {
                            assert(s[i as int] == kept@[j]);
                        }
                    }
                    assert forall|x: Seq<char>| #[trigger] assoc_map(kept@).dom().contains(x) <==> (exists|m: int|
                        0 <= m < i + 1 && #[trigger] s[m].0@ == x && elapsed(now, s[m].1.window_start)
                            < FORGET_NS) by {
                        if x == k@ {
                            assert(s[i as int].0@ == x);
                        }
                    }
                    assert forall|x: Seq<char>| #[trigger] assoc_map(kept@).dom().contains(x) implies exists|m: int|
                        0 <= m < i + 1 && #[trigger] s[m].0@ == x && assoc_map(kept@)[x] == s[m].1 by {
                        if x == k@ {
                            assert(s[i as int].0@ == x);
                        } else {
                            let m = choose|m: int| 0 <= m < i && #[trigger] s[m].0@ == x && assoc_map(before)[x] == s[m].1;
                        }
                    }
                }
            } else {
                proof {
                    assert forall|x: Seq<char>| #[trigger] assoc_map(kept@).dom().contains(x) <==> (exists|m: int|
                        0 <= m < i + 1 && #[trigger] s[m].0@ == x && elapsed(now, s[m].1.window_start)
                            < FORGET_NS) by {
                        if exists|m: int| 0 <= m < i + 1 && #[trigger] s[m].0@ == x && elapsed(now, s[m].1.window_start)
                            < FORGET_NS {
                            let m = choose|m: int| 0 <= m < i + 1 && #[trigger] s[m].0@ == x && elapsed(now, s[m].1.window_start)
                                < FORGET_NS;
                            assert(m != i);
                        }
                    }
                }
            }
            i = i + 1;
        }
        proof {
            let old_map = assoc_map(s);
            let c = cleaned(old_map, now);
            assert forall|x: Seq<char>| #[trigger] assoc_map(kept@).dom().contains(x) <==> c.dom().contains(x) by {
                lemma_assoc_contains(s, x);
                if exists|m: int| 0 <= m < s.len() && #[trigger] s[m].0@ == x {
                    let m = choose|m: int| 0 <= m < s.len() && #[trigger] s[m].0@ == x;
                    lemma_assoc_value(s, m);
                }
            }
            assert forall|x: Seq<char>| #[trigger] assoc_map(kept@).dom().contains(x) implies assoc_map(kept@)[x] == c[x] by {
                let m = choose|m: int| 0 <= m < s.len() && #[trigger] s[m].0@ == x && assoc_map(kept@)[x] == s[m].1;
                lemma_assoc_value(s, m);
            }
            assert(assoc_map(kept@) =~= c);
        }
        self.attempts = kept;
    }

    /// Whether a login from `ip` is allowed at time `now` (nanoseconds on the
    /// limiter's clock). Windows older than ten minutes are forgotten first.
    pub fn check_allowed_at(&mut self, ip: &str, now: u128) -> (r: bool)
        ensures
            final(self).view() == cleaned(old(self).view(), now),
            r == spec_allowed(old(self).view(), ip@, now),
            final(self).clock_reading() == old(self).clock_reading(),
    {
        self.cleanup(now);
        proof {
            use_type_invariant(&*self);
        }
        match self.find(ip) {
            Some(i) => {
                let w = self.attempts[i].1;
                proof {
                    lemma_assoc_value(self.attempts@, i as int);
                }
                let recent = if now >= w.window_start {
                    now - w.window_start < WINDOW_NS
                } else {
                    true
                };
                !(recent && w.count >= MAX_FAILURES)
            },
            None => true,
        }
    }

    /// Counts a failed login from `ip` at time `now`.
    pub fn record_failure_at(&mut self, ip: &str, now: u128)
        ensures
            final(self).view() == spec_record_failure(old(self).view(), ip@, now),
            final(self).clock_reading() == old(self).clock_reading(),
    {
        self.cleanup(now);
        proof {
            use_type_invariant(&*self);
        }
        let ghost c = self.view();
        let w0 = match self.find(ip) {
            Some(i) => {
                proof {
                    lemma_assoc_value(self.attempts@, i as int);
                    lemma_assoc_remove(self.attempts@, i as int);
                }
                let mut a: Vec<(String, AttemptWindow)> = Vec::new();
                std::mem::swap(&mut a, &mut self.attempts);
                let (_, w) = a.remove(i);
                self.attempts = a;
                w
            },
            None => AttemptWindow { count: 0, window_start: now },
        };
        let expired = if now >= w0.window_start {
            now - w0.window_start >= WINDOW_NS
        } else {
            false
        };
        let w1 = if expired {
            AttemptWindow { count: 0, window_start: now }
        } else {
            w0
        };
        let count = if w1.count == u32::MAX {
            w1.count
        } else {
            w1.count + 1
        };
        let k = crate::text::owned(ip);
        proof {
            assert(self.view() =~= c.remove(ip@));
            lemma_assoc_push(self.attempts@, (k, AttemptWindow { count, window_start: w1.window_start }));
        }
        let mut a: Vec<(String, AttemptWindow)> = Vec::new();
        std::mem::swap(&mut a, &mut self.attempts);
        a.push((k, AttemptWindow { count, window_start: w1.window_start }));
        self.attempts = a;
        proof {
            assert(self.view() =~= c.insert(ip@, AttemptWindow { count, window_start: w1.window_start }));
        }
    }

    /// Forgets the failed logins of `ip`.
    pub fn clear(&mut self, ip: &str)
        ensures
            final(self).view() == old(self).view().remove(ip@),
            final(self).clock_reading() == old(self).clock_reading(),
    {
        proof {
            use_type_invariant(&*self);
        }
        match self.find(ip) {
            Some(i) => {
                proof {
                    lemma_assoc_remove(self.attempts@, i as int);
                }
                let mut a: Vec<(String, AttemptWindow)> = Vec::new();
                std::mem::swap(&mut a, &mut self.attempts);
                a.remove(i);
                self.attempts = a;
            },
            None => {
                assert(self.view().remove(ip@) =~= self.view());
            },
        }
    }

    /// Reads the limiter's clock: nanoseconds since the limiter was made, never
    /// less than an earlier reading (`Instant` is monotonic, so this only
    /// guards the reading's contract).
    fn now(&mut self) -> (r: u128)
        ensures
            r >= old(self).clock_reading(),
            final(self).clock_reading() == r,
            final(self).view() == old(self).view(),
    {
        proof {
            use_type_invariant(&*self);
        }
        let e = elapsed_ns(&self.clock);
        let r = if e > self.last_reading {
            e
        } else {
            self.last_reading
        };
        self.last_reading = r;
        r
    }

    /// Whether a login from `ip` is allowed now. Windows older than ten
    /// minutes are forgotten first; the clock reading is the time used, and
    /// it is no earlier than the limiter's previous reading.
    pub fn check_allowed(&mut self, ip: &str) -> (r: bool)
        ensures
            exists|now: u128|
                #![trigger cleaned(old(self).view(), now)]
                now >= old(self).clock_reading() && final(self).clock_reading() == now
                    && final(self).view() == cleaned(old(self).view(), now) && r == spec_allowed(
                    old(self).view(),
                    ip@,
                    now,
                ),
    {
        let now = self.now();
        self.check_allowed_at(ip, now)
    }

    /// Counts a failed login from `ip` now; the clock reading is no earlier
    /// than the limiter's previous reading.
    pub fn record_failure(&mut self, ip: &str)
        ensures
            exists|now: u128|
                #![trigger spec_record_failure(old(self).view(), ip@, now)]
                now >= old(self).clock_reading() && final(self).clock_reading() == now
                    && final(self).view() == spec_record_failure(old(self).view(), ip@, now),
    {
        let now = self.now();
        self.record_failure_at(ip, now);
    }
}

/// A limiter that remembers nothing allows every login.
pub proof fn law_fresh_limiter_allows(ip: Seq<char>, now: u128)
    ensures
        spec_allowed(Map::empty(), ip, now),
{
}

/// After `clear(ip)`, a login from `ip` is allowed.
pub proof fn law_clear_allows(m: Map<Seq<char>, AttemptWindow>, ip: Seq<char>, now: u128)
    ensures
        spec_allowed(m.remove(ip), ip, now),
{
}

/// Five failed logins within five minutes block the client until the
/// window is five minutes old.
pub proof fn law_five_failures_block(
    m: Map<Seq<char>, AttemptWindow>,
    ip: Seq<char>,
    t1: u128,
    t2: u128,
    t3: u128,
    t4: u128,
    t5: u128,
    t: u128,
)
    requires
        !m.dom().contains(ip),
        t1 <= t2 <= t3 <= t4 <= t5 <= t,
        t - t1 < WINDOW_NS,
    ensures
        !spec_allowed(
            spec_record_failure(
                spec_record_failure(
                    spec_record_failure(
                        spec_record_failure(spec_record_failure(m, ip, t1), ip, t2),
                        ip,
                        t3,
                    ),
                    ip,
                    t4,
                ),
                ip,
                t5,
            ),
            ip,
            t,
        ),
{
    let m1 = spec_record_failure(m, ip, t1);
    assert(m1[ip] == AttemptWindow { count: 1, window_start: t1 });
    let m2 = spec_record_failure(m1, ip, t2);
    assert(m2[ip] == AttemptWindow { count: 2, window_start: t1 });
    let m3 = spec_record_failure(m2, ip, t3);
    assert(m3[ip] == AttemptWindow { count: 3, window_start: t1 });
    let m4 = spec_record_failure(m3, ip, t4);
    assert(m4[ip] == AttemptWindow { count: 4, window_start: t1 });
    let m5 = spec_record_failure(m4, ip, t5);
    assert(m5[ip] == AttemptWindow { count: 5, window_start: t1 });
    assert(cleaned(m5, t).dom().contains(ip));
}

/// Four failed logins within five minutes still leave the client allowed:
/// it is the fifth that blocks.
pub proof fn law_four_failures_allow(
    m: Map<Seq<char>, AttemptWindow>,
    ip: Seq<char>,
    t1: u128,
    t2: u128,
    t3: u128,
    t4: u128,
    t: u128,
)
    requires
        !m.dom().contains(ip),
        t1 <= t2 <= t3 <= t4 <= t,
        t - t1 < WINDOW_NS,
    ensures
        spec_allowed(
            spec_record_failure(
                spec_record_failure(spec_record_failure(spec_record_failure(m, ip, t1), ip, t2), ip, t3),
                ip,
                t4,
            ),
            ip,
            t,
        ),
{
    let m1 = spec_record_failure(m, ip, t1);
    assert(m1[ip] == AttemptWindow { count: 1, window_start: t1 });
    let m2 = spec_record_failure(m1, ip, t2);
    assert(m2[ip] == AttemptWindow { count: 2, window_start: t1 });
    let m3 = spec_record_failure(m2, ip, t3);
    assert(m3[ip] == AttemptWindow { count: 3, window_start: t1 });
    let m4 = spec_record_failure(m3, ip, t4);
    assert(m4[ip] == AttemptWindow { count: 4, window_start: t1 });
    assert(cleaned(m4, t).dom().contains(ip));
}

/// The windows after failed logins from `ip` at the given times, in order.
pub open spec fn failures(m: Map<Seq<char>, AttemptWindow>, ip: Seq<char>, times: Seq<u128>) -> Map<
    Seq<char>,
    AttemptWindow,
>
    decreases times.len(),
{
    if times.len() == 0 {
        m
    } else {
        spec_record_failure(failures(m, ip, times.drop_last()), ip, times.last())
    }
}

/// Times in order, all less than five minutes after the first.
pub open spec fn within_one_window(times: Seq<u128>) -> bool {
    &&& forall|i: int, j: int| 0 <= i <= j < times.len() ==> times[i] <= times[j]
    &&& forall|i: int| 0 <= i < times.len() ==> #[trigger] times[i] - times[0] < WINDOW_NS
}

/// `n` capped at `u32::MAX`, as the failure count saturates.
pub open spec fn capped(n: nat) -> u32 {
    if n >= u32::MAX {
        u32::MAX
    } else {
        n as u32
    }
}

/// Failures within one window from a client the limiter did not know leave
/// one window, opened at the first failure, that counts them all; no other
/// client is added.
proof fn lemma_failures_window(m: Map<Seq<char>, AttemptWindow>, ip: Seq<char>, times: Seq<u128>)
    requires
        !m.dom().contains(ip),
        within_one_window(times),
    ensures
        times.len() > 0 ==> failures(m, ip, times).dom().contains(ip) && failures(m, ip, times)[ip]
            == (AttemptWindow { count: capped(times.len()), window_start: times[0] }),
        forall|k: Seq<char>| #[trigger]
            failures(m, ip, times).dom().contains(k) ==> k == ip || m.dom().contains(k),
    decreases times.len(),
{
    if times.len() > 0 {
        let prefix = times.drop_last();
        assert(within_one_window(prefix));
        lemma_failures_window(m, ip, prefix);
        let prev = failures(m, ip, prefix);
        let now = times.last();
        let c = cleaned(prev, now);
        if prefix.len() > 0 {
            assert(prefix[0] == times[0]);
            assert(times[0] <= now);
            assert(c.dom().contains(ip));
        } else {
            assert(!c.dom().contains(ip));
        }
    }
}

/// Within five minutes of its first failure, a client the limiter did not
/// know is allowed after each of its first four failures and refused from
/// the fifth on; a client it did not know either is still allowed.
pub proof fn law_blocked_from_fifth_failure(
    m: Map<Seq<char>, AttemptWindow>,
    ip: Seq<char>,
    other: Seq<char>,
    times: Seq<u128>,
    t: u128,
)
    requires
        !m.dom().contains(ip),
        within_one_window(times),
        times.len() > 0 ==> times.last() <= t && t - times[0] < WINDOW_NS,
    ensures
        spec_allowed(failures(m, ip, times), ip, t) == (times.len() < MAX_FAILURES),
        other != ip && !m.dom().contains(other) ==> spec_allowed(failures(m, ip, times), other, t),
{
    lemma_failures_window(m, ip, times);
    let f = failures(m, ip, times);
    if times.len() > 0 {
        assert(cleaned(f, t).dom().contains(ip));
    }
    assert(!f.dom().contains(other) || other == ip || m.dom().contains(other));
}

/// A window that has lasted five minutes no longer blocks its client.
pub proof fn law_window_expires(m: Map<Seq<char>, AttemptWindow>, ip: Seq<char>, now: u128)
    requires
        m.dom().contains(ip),
        elapsed(now, m[ip].window_start) >= WINDOW_NS,
    ensures
        spec_allowed(m, ip, now),
{
}

/// A failed login from one client does not change whether another is allowed.
pub proof fn law_other_clients_unaffected(
    m: Map<Seq<char>, AttemptWindow>,
    ip: Seq<char>,
    other: Seq<char>,
    now: u128,
)
    requires
        ip != other,
    ensures
        spec_allowed(spec_record_failure(m, ip, now), other, now) == spec_allowed(m, other, now),
{
    let r = spec_record_failure(m, ip, now);
    let c = cleaned(m, now);
    assert(cleaned(r, now).dom().contains(other) == c.dom().contains(other));
}

} // verus!
