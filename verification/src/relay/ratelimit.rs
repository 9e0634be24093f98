//! Fixed-window rate limiting.
//!
//! In memory, and so reset by a restart, which a single-node deployment
//! accepts. A fixed window rather than a sliding one: the thresholds blunt
//! brute force rather than shape traffic, and the worst case, twice the
//! nominal rate across a window boundary, does not matter for "5 login
//! attempts per minute".

use vstd::prelude::*;
use crate::relay::error::{AppError, ErrorCode, STATUS_TOO_MANY_REQUESTS};

pub mod limits;

verus! {

/// One configured limit: at most `max` hits per window of `window_secs`
/// seconds, and the `Retry-After` a refusal carries.
#[derive(Clone, Copy, Debug, PartialEq, Eq, Structural)]
pub struct Limit {
    pub max: u32,
    pub window_secs: u64,
    pub retry_after_secs: u32,
}

impl Limit {
    pub fn new(max: u32, window_secs: u64, retry_after_secs: u32) -> (r: Self)
        ensures
            r == (Limit { max, window_secs, retry_after_secs }),
    {
        Limit { max, window_secs, retry_after_secs }
    }
}

/// How many buckets the limiter holds before it drops the stale ones.
pub const SWEEP_THRESHOLD: usize = 4096;

#[verifier::external_type_specification]
#[verifier::external_body]
pub struct ExInstant(std::time::Instant);

/// std's `Instant::now`: a reading of the monotonic clock.
#[verifier::external_body]
fn clock_now() -> std::time::Instant {
    std::time::Instant::now()
}

/// std's `Instant::elapsed`: the time since `origin` was read.
#[verifier::external_body]
fn elapsed_since(origin: &std::time::Instant) -> std::time::Duration {
    origin.elapsed()
}

/// std's `Duration::as_nanos`: the whole duration in nanoseconds.
#[verifier::external_body]
fn duration_nanos(d: &std::time::Duration) -> u128 {
    d.as_nanos()
}

struct Bucket {
    key: String,
    /// When the current window started, in nanoseconds of the limiter's clock.
    started: u128,
    count: u32,
}

/// A bucket as the contracts see it: its key, when its window started and
/// how many hits it has counted.
pub type BucketView = (Seq<char>, u128, u32);

/// The time from `started` to `now`, zero if the clock reads earlier.
pub open spec fn elapsed(now: u128, started: u128) -> nat {
    if now >= started {
        (now - started) as nat
    } else {
        0
    }
}

pub open spec fn window_nanos(limit: Limit) -> nat {
    limit.window_secs as nat * 1_000_000_000
}

/// A bucket whose window is still open at `now`.
pub open spec fn is_fresh(b: BucketView, now: u128, window: nat) -> bool {
    elapsed(now, b.1) < window
}

pub open spec fn unique_keys(s: Seq<BucketView>) -> bool {
    forall|i: int, j: int| 0 <= i < j < s.len() ==> s[i].0 != s[j].0
}

/// Where `key`'s bucket stands in `s`.
pub open spec fn find(s: Seq<BucketView>, key: Seq<char>) -> Option<int> {
    if exists|i: int| 0 <= i < s.len() && s[i].0 == key {
        Some(choose|i: int| 0 <= i < s.len() && s[i].0 == key)
    } else {
        None
    }
}

/// The window and count of `key`'s bucket in `s`, if it has one.
pub open spec fn lookup(s: Seq<BucketView>, key: Seq<char>) -> Option<(u128, u32)> {
    match find(s, key) {
        Some(i) => Some((s[i].1, s[i].2)),
        None => None,
    }
}

/// `s` without the buckets whose window has closed at `now`.
pub open spec fn swept(s: Seq<BucketView>, now: u128, window: nat) -> Seq<BucketView> {
    s.filter(fresh_at(now, window))
}

pub open spec fn fresh_at(now: u128, window: nat) -> spec_fn(BucketView) -> bool {
    |b: BucketView| is_fresh(b, now, window)
}

/// The buckets a check starts from: swept once there are too many.
pub open spec fn before_hit(s: Seq<BucketView>, now: u128, window: nat) -> Seq<BucketView> {
    if s.len() > SWEEP_THRESHOLD {
        swept(s, now, window)
    } else {
        s
    }
}

/// A bucket after one more hit at `now`: the window restarts if it has
/// closed, and the count goes up by one (and stays at its ceiling).
pub open spec fn hit(b: Option<(u128, u32)>, now: u128, window: nat) -> (u128, u32) {
    match b {
        Some((started, count)) => if elapsed(now, started) < window {
            (started, if count < u32::MAX { (count + 1) as u32 } else { count })
        } else {
            (now, 1)
        },
        None => (now, 1),
    }
}

/// The buckets after a check of `key` against `limit` at `now`.
pub open spec fn after_check(s: Seq<BucketView>, key: Seq<char>, limit: Limit, now: u128) -> Seq<
    BucketView,
> {
    let base = before_hit(s, now, window_nanos(limit));
    let h = hit(lookup(base, key), now, window_nanos(limit));
    match find(base, key) {
        Some(i) => base.update(i, (key, h.0, h.1)),
        None => base.push((key, h.0, h.1)),
    }
}

/// Whether the check of `key` against `limit` at `now` lets the request
/// through: its bucket has counted at most `limit.max` hits, this one
/// included.
pub open spec fn check_allows(s: Seq<BucketView>, key: Seq<char>, limit: Limit, now: u128) -> bool {
    hit(lookup(before_hit(s, now, window_nanos(limit)), key), now, window_nanos(limit)).1
        <= limit.max
}

/// Counts hits per key in fixed windows.
pub struct RateLimiter {
    origin: std::time::Instant,
    buckets: Vec<Bucket>,
}

spec fn bucket_view(b: Bucket) -> BucketView {
    (b.key@, b.started, b.count)
}

spec fn views(v: Seq<Bucket>) -> Seq<BucketView> {
    v.map_values(|b: Bucket| bucket_view(b))
}

impl View for RateLimiter {
    type V = Seq<BucketView>;

    closed spec fn view(&self) -> Seq<BucketView> {
        views(self.buckets@)
    }
}

/// With keys unique, `find` gives the one index holding the key.
proof fn lemma_find_index(s: Seq<BucketView>, key: Seq<char>, i: int)
    requires
        unique_keys(s),
        0 <= i < s.len(),
        s[i].0 == key,
    ensures
        find(s, key) == Some(i),
{
}

impl RateLimiter {
    #[verifier::type_invariant]
    spec fn keys_are_unique(self) -> bool {
        unique_keys(self@)
    }

    pub fn new() -> (r: Self)
        ensures
            r@ == Seq::<BucketView>::empty(),
    {
        let r = RateLimiter { origin: clock_now(), buckets: Vec::new() };
        assert(r@ =~= Seq::<BucketView>::empty());
        r
    }

    /// How many keys have a bucket.
    pub fn len(&self) -> (r: usize)
        ensures
            r == self@.len(),
    {
        self.buckets.len()
    }

    /// Drops every bucket whose window has closed at `now`.
    fn sweep(&mut self, now: u128, window: u128)
        ensures
            final(self)@ == swept(old(self)@, now, window as nat),
    {
        proof {
            use_type_invariant(&*self);
        }
        let ghost s = self@;
        let mut kept: Vec<Bucket> = Vec::new();
        let mut i: usize = 0;
        while i < self.buckets.len()
            invariant
                i <= self.buckets.len(),
                self@ == s,
                unique_keys(s),
                views(kept@) == swept(
                    s.subrange(0, i as int),
                    now,
                    window as nat,
                ),
            decreases self.buckets.len() - i,
        {
            let b = &self.buckets[i];
            let fresh = if now >= b.started {
                now - b.started < window
            } else {
                0 < window
            };
            let ghost before = kept@;
            if fresh {
                kept.push(Bucket { key: b.key.clone(), started: b.started, count: b.count });
            }
            proof {
                reveal(Seq::filter);
                let t = s.subrange(0, i + 1);
                assert(t.drop_last() =~= s.subrange(0, i as int));
                assert(t.last() == s[i as int]);
                assert(fresh == is_fresh(s[i as int], now, window as nat));
                assert(views(kept@) =~= if fresh {
                    views(before).push(s[i as int])
                } else {
                    views(before)
                });
            }
            i = i + 1;
        }
        assert(s.subrange(0, i as int) =~= s);
        proof {
            lemma_swept_keeps_unique(s, now, window as nat);
        }
        self.buckets = kept;
    }

    /// Counts one hit against `key` at `now` (nanoseconds of the limiter's
    /// clock), and refuses it with a 429 once the key's bucket holds more
    /// than `limit.max` hits in its window.
    pub fn check_at(&mut self, key: &str, limit: Limit, now: u128) -> (r: Result<(), AppError>)
        ensures
            final(self)@ == after_check(old(self)@, key@, limit, now),
            r is Ok <==> check_allows(old(self)@, key@, limit, now),
            r matches Err(e) ==> e.status == STATUS_TOO_MANY_REQUESTS && e.code
                == ErrorCode::RateLimited && e.message@ == "Too many requests"@ && e.retry_after
                == Some(limit.retry_after_secs) && e.internal is None,
    {
        proof {
            use_type_invariant(&*self);
        }
        let window: u128 = limit.window_secs as u128 * 1_000_000_000;
        if self.buckets.len() > SWEEP_THRESHOLD {
            self.sweep(now, window);
        }
        let ghost base = self@;
        proof {
            use_type_invariant(&*self);
        }
        let mut buckets: Vec<Bucket> = Vec::new();
        std::mem::swap(&mut buckets, &mut self.buckets);
        assert(views(buckets@) == base);
        let wanted = key.to_owned();
        let mut i: usize = 0;
        let mut found = false;
        while i < buckets.len() && !found
            invariant
                i <= buckets.len(),
                views(buckets@) == base,
                wanted@ == key@,
                found ==> i < buckets.len() && base[i as int].0 == key@,
                !found ==> forall|j: int| 0 <= j < i ==> base[j].0 != key@,
            decreases buckets.len() - i + (if found { 0int } else { 1int }),
        {
            assert(base[i as int] == bucket_view(buckets@[i as int]));
            let same = buckets[i].key == wanted;
            assert(same == (buckets@[i as int].key@ == wanted@));
            if same {
                found = true;
            } else {
                i = i + 1;
            }
        }
        let count = if found {
            proof {
                lemma_find_index(base, key@, i as int);
            }
            let started = buckets[i].started;
            let count = buckets[i].count;
            let fresh = if now >= started {
                now - started < window
            } else {
                0 < window
            };
            let (started, count) = if fresh {
                (started, if count < u32::MAX { count + 1 } else { count })
            } else {
                (now, 1)
            };
            let key_string = buckets[i].key.clone();
            buckets.set(i, Bucket { key: key_string, started, count });
            assert(views(buckets@) =~= base.update(i as int, (key@, started, count)));
            count
        } else {
            assert(find(base, key@) is None);
            buckets.push(Bucket { key: wanted, started: now, count: 1 });
            assert(views(buckets@) =~= base.push((key@, now, 1u32)));
            1
        };
        proof {
            lemma_swept_keeps_unique(old(self)@, now, window as nat);
            assert(unique_keys(views(buckets@)));
        }
        self.buckets = buckets;
        if count > limit.max {
            return Err(AppError::rate_limited(limit.retry_after_secs));
        }
        Ok(())
    }

    /// Counts one hit against `key` now, and refuses it with a 429 once the
    /// limit is exceeded.
    pub fn check(&mut self, key: &str, limit: Limit) -> (r: Result<(), AppError>)
        ensures
            exists|now: u128| {
                &&& final(self)@ == after_check(old(self)@, key@, limit, now)
                &&& (r is Ok <==> check_allows(old(self)@, key@, limit, now))
            },
            r matches Err(e) ==> e.status == STATUS_TOO_MANY_REQUESTS && e.code
                == ErrorCode::RateLimited && e.retry_after == Some(limit.retry_after_secs),
    {
        let since = elapsed_since(&self.origin);
        let now = duration_nanos(&since);
        self.check_at(key, limit, now)
    }
}

/// Sweeping keeps keys unique.
proof fn lemma_swept_keeps_unique(s: Seq<BucketView>, now: u128, window: nat)
    requires
        unique_keys(s),
    ensures
        unique_keys(swept(s, now, window)),
    decreases s.len(),
{
    reveal(Seq::filter);
    if s.len() > 0 {
        let d = s.drop_last();
        assert(unique_keys(d));
        lemma_swept_keeps_unique(d, now, window);
        let f = swept(d, now, window);
        if is_fresh(s.last(), now, window) {
            assert forall|i: int| 0 <= i < f.len() implies f[i].0 != s.last().0 by {
                assert(f.contains(f[i]));
                d.lemma_filter_contains_rev(fresh_at(now, window), f[i]);
                let j = choose|j: int| 0 <= j < d.len() && d[j] == f[i];
                assert(s[j] == d[j]);
            }
        }
    }
}

/// The bucket of `k` after appending `e` to buckets with unique keys.
proof fn lemma_lookup_push(s: Seq<BucketView>, e: BucketView, k: Seq<char>)
    requires
        unique_keys(s.push(e)),
    ensures
        lookup(s.push(e), k) == if e.0 == k {
            Some((e.1, e.2))
        } else {
            lookup(s, k)
        },
{
    let t = s.push(e);
    assert(unique_keys(s)) by {
        assert forall|i: int, j: int| 0 <= i < j < s.len() implies s[i].0 != s[j].0 by {
            assert(t[i] == s[i] && t[j] == s[j]);
        }
    }
    if e.0 == k {
        lemma_find_index(t, k, s.len() as int);
    } else if exists|i: int| 0 <= i < s.len() && s[i].0 == k {
        let i = choose|i: int| 0 <= i < s.len() && s[i].0 == k;
        lemma_find_index(s, k, i);
        assert(t[i] == s[i]);
        lemma_find_index(t, k, i);
    } else {
        assert forall|i: int| 0 <= i < t.len() implies t[i].0 != k by {
            if i < s.len() {
                assert(t[i] == s[i]);
            }
        }
    }
}

/// A sweep keeps the bucket of `k` when its window is still open at `now`
/// and drops it otherwise.
proof fn lemma_lookup_swept(s: Seq<BucketView>, k: Seq<char>, now: u128, window: nat)
    requires
        unique_keys(s),
    ensures
        lookup(swept(s, now, window), k) == match lookup(s, k) {
            Some((started, count)) => if elapsed(now, started) < window {
                Some((started, count))
            } else {
                None::<(u128, u32)>
            },
            None => None,
        },
    decreases s.len(),
{
    reveal(Seq::filter);
    if s.len() == 0 {
        assert(swept(s, now, window) =~= s);
    } else {
        let d = s.drop_last();
        let e = s.last();
        assert(s == d.push(e));
        assert(unique_keys(d));
        lemma_swept_keeps_unique(s, now, window);
        lemma_swept_keeps_unique(d, now, window);
        lemma_lookup_swept(d, k, now, window);
        lemma_lookup_push(d, e, k);
        let f = swept(d, now, window);
        if is_fresh(e, now, window) {
            assert(swept(s, now, window) == f.push(e));
            lemma_lookup_push(f, e, k);
        } else {
            assert(swept(s, now, window) == f);
            if e.0 == k {
                // No other bucket of `d` has the key, so `d` has none.
                assert forall|i: int| 0 <= i < d.len() implies d[i].0 != k by {
                    assert(s[i] == d[i]);
                    assert(s[s.len() - 1] == e);
                }
            }
        }
    }
}

/// A bucket whose window has closed counts as no bucket: the next hit
/// starts a window either way.
proof fn lemma_hit_stale(b: Option<(u128, u32)>, now: u128, window: nat)
    requires
        b matches Some((started, _)) ==> elapsed(now, started) >= window,
    ensures
        hit(b, now, window) == hit(None, now, window),
{
}

/// The sweep a check may run leaves what the check of any key finds.
proof fn lemma_sweep_invisible(s: Seq<BucketView>, k: Seq<char>, now: u128, window: nat)
    requires
        unique_keys(s),
    ensures
        hit(lookup(before_hit(s, now, window), k), now, window) == hit(lookup(s, k), now, window),
{
    lemma_lookup_swept(s, k, now, window);
}

/// Checks of different keys do not touch each other's buckets, short of a
/// sweep of stale ones.
pub proof fn lemma_keys_independent(
    s: Seq<BucketView>,
    key: Seq<char>,
    other: Seq<char>,
    limit: Limit,
    now: u128,
)
    requires
        unique_keys(s),
        key != other,
    ensures
        lookup(after_check(s, key, limit, now), other) == lookup(
            before_hit(s, now, window_nanos(limit)),
            other,
        ),
{
    let w = window_nanos(limit);
    let base = before_hit(s, now, w);
    lemma_swept_keeps_unique(s, now, w);
    let h = hit(lookup(base, key), now, w);
    let after = after_check(s, key, limit, now);
    match find(base, key) {
        Some(i) => {
            assert(after == base.update(i, (key, h.0, h.1)));
            assert(unique_keys(after));
            if let Some(j) = find(base, other) {
                lemma_find_index(after, other, j);
            } else {
                assert(!exists|j: int| 0 <= j < after.len() && after[j].0 == other);
            }
        },
        None => {
            assert(after == base.push((key, h.0, h.1)));
            assert(unique_keys(after));
            if let Some(j) = find(base, other) {
                lemma_find_index(after, other, j);
            } else {
                assert(!exists|j: int| 0 <= j < after.len() && after[j].0 == other);
            }
        },
    }
}

/// Rate-limit keys are independent: a check of `key` at `now` changes
/// nothing that a later check of any other key against the same limit
/// decides or records. Below the sweep threshold the other key's bucket is
/// left exactly as it was; above it a sweep may drop that bucket, but only
/// once its window has closed, when a bucket and no bucket count alike.
pub proof fn lemma_other_keys_unaffected(
    s: Seq<BucketView>,
    key: Seq<char>,
    other: Seq<char>,
    limit: Limit,
    now: u128,
    later: u128,
)
    requires
        unique_keys(s),
        key != other,
        now <= later,
    ensures
        s.len() <= SWEEP_THRESHOLD ==> lookup(after_check(s, key, limit, now), other) == lookup(
            s,
            other,
        ),
        hit(
            lookup(before_hit(after_check(s, key, limit, now), later, window_nanos(limit)), other),
            later,
            window_nanos(limit),
        ) == hit(
            lookup(before_hit(s, later, window_nanos(limit)), other),
            later,
            window_nanos(limit),
        ),
        check_allows(after_check(s, key, limit, now), other, limit, later) == check_allows(
            s,
            other,
            limit,
            later,
        ),
{
    let w = window_nanos(limit);
    let after = after_check(s, key, limit, now);
    lemma_check_records_hit(s, key, limit, now);
    lemma_keys_independent(s, key, other, limit, now);
    lemma_sweep_invisible(after, other, later, w);
    lemma_sweep_invisible(s, other, later, w);
    if s.len() > SWEEP_THRESHOLD {
        lemma_lookup_swept(s, other, now, w);
        match lookup(s, other) {
            Some((started, count)) => {
                if elapsed(now, started) >= w {
                    assert(elapsed(later, started) >= elapsed(now, started));
                    lemma_hit_stale(lookup(s, other), later, w);
                }
            },
            None => {},
        }
    }
}

/// A check records its hit: afterwards the key's bucket holds the window
/// and count that one more hit gives.
pub proof fn lemma_check_records_hit(s: Seq<BucketView>, key: Seq<char>, limit: Limit, now: u128)
    requires
        unique_keys(s),
    ensures
        lookup(after_check(s, key, limit, now), key) == Some(
            hit(lookup(before_hit(s, now, window_nanos(limit)), key), now, window_nanos(limit)),
        ),
        unique_keys(after_check(s, key, limit, now)),
{
    let w = window_nanos(limit);
    let base = before_hit(s, now, w);
    lemma_swept_keeps_unique(s, now, w);
    let h = hit(lookup(base, key), now, w);
    let after = after_check(s, key, limit, now);
    match find(base, key) {
        Some(i) => {
            assert(after == base.update(i, (key, h.0, h.1)));
            assert(unique_keys(after));
            lemma_find_index(after, key, i);
        },
        None => {
            assert(after == base.push((key, h.0, h.1)));
            assert(unique_keys(after));
            lemma_find_index(after, key, base.len() as int);
        },
    }
}

/// A key that has had `limit.max` hits in a window still open is refused
/// until the window closes.
pub proof fn lemma_refused_at_the_limit(
    s: Seq<BucketView>,
    key: Seq<char>,
    limit: Limit,
    now: u128,
    started: u128,
    count: u32,
)
    requires
        lookup(before_hit(s, now, window_nanos(limit)), key) == Some((started, count)),
        count >= limit.max,
        count < u32::MAX,
        elapsed(now, started) < window_nanos(limit),
    ensures
        !check_allows(s, key, limit, now),
{
}

/// A key whose window has closed, or that has no bucket, starts afresh: its
/// check is allowed whenever the limit admits one hit.
pub proof fn lemma_window_resets(s: Seq<BucketView>, key: Seq<char>, limit: Limit, now: u128)
    requires
        limit.max >= 1,
        match lookup(before_hit(s, now, window_nanos(limit)), key) {
            Some((started, _)) => elapsed(now, started) >= window_nanos(limit),
            None => true,
        },
    ensures
        check_allows(s, key, limit, now),
        hit(lookup(before_hit(s, now, window_nanos(limit)), key), now, window_nanos(limit)) == (now, 1u32),
{
}

} // verus!
