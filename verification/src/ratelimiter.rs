//! Outbound request rate limiter.
//!
//! A continuously refilling token bucket: credit accrues with elapsed
//! time at one unit per `period_ns` nanoseconds, up to a burst capacity;
//! admitting a request consumes one unit. The limiter never errors, it
//! only defers: a caller that is not admitted is told when the next unit
//! becomes available and retries then.
//!
//! The central guarantee, proved below over arbitrary call traces, is
//! that no more than `capacity` requests are admitted within any window
//! shorter than one refill period.

use vstd::prelude::*;
use vstd::arithmetic::mul::lemma_mul_inequality;

verus! {

/// Largest value allowed for the capacity and the refill period, so
/// that the full-bucket credit fits in a `u64`.
pub const RATE_PARAM_MAX: u64 = 0xFFFF_FFFF;

/// A token bucket: burst capacity, refill period, and the unspent
/// credit at the instant of the last refill.
#[derive(Clone, Copy, Debug, PartialEq, Eq, Structural)]
pub struct TokenBucket {
    /// Greatest number of units that may be admitted in one burst.
    pub capacity: u64,
    /// Nanoseconds of refill credit needed to admit one unit; the
    /// refill rate is one unit per this many nanoseconds.
    pub period_ns: u64,
    /// Unspent credit, in nanoseconds of refill time.
    pub credit_ns: u64,
    /// Instant of the last refill, in nanoseconds of a monotonic clock.
    pub last_refill_ns: u64,
}

impl TokenBucket {
    /// The credit of a full bucket.
    pub open spec fn full_credit(self) -> int {
        self.capacity * self.period_ns
    }

    /// Well-formedness: at least one unit of capacity, a non-zero
    /// period, parameters small enough for the arithmetic, and no more
    /// credit than a full bucket.
    pub open spec fn wf(self) -> bool {
        &&& 1 <= self.capacity <= RATE_PARAM_MAX
        &&& 1 <= self.period_ns <= RATE_PARAM_MAX
        &&& self.credit_ns <= self.full_credit()
    }

    /// The configuration fields of `self` equal those of `other`.
    pub open spec fn same_config(self, other: Self) -> bool {
        &&& self.capacity == other.capacity
        &&& self.period_ns == other.period_ns
    }

    /// The credit after refilling at instant `now`: grown by the time
    /// elapsed since the last refill (a clock that appears to run
    /// backwards contributes nothing), capped at a full bucket.
    pub open spec fn refilled_credit(self, now: u64) -> int {
        let elapsed: int = if now >= self.last_refill_ns {
            now - self.last_refill_ns
        } else {
            0
        };
        if self.credit_ns + elapsed > self.full_credit() {
            self.full_credit()
        } else {
            self.credit_ns + elapsed
        }
    }

    /// One admission attempt at instant `now`, as a spec-level step:
    /// the bucket afterwards, and whether the request was admitted.
    pub open spec fn step(self, now: u64) -> (TokenBucket, bool) {
        let refilled = self.refilled_credit(now);
        let last = if now >= self.last_refill_ns {
            now
        } else {
            self.last_refill_ns
        };
        if refilled >= self.period_ns {
            (
                TokenBucket {
                    credit_ns: (refilled - self.period_ns) as u64,
                    last_refill_ns: last,
                    ..self
                },
                true,
            )
        } else {
            (TokenBucket { credit_ns: refilled as u64, last_refill_ns: last, ..self }, false)
        }
    }

    /// A new bucket, full, last refilled at `now_ns`: the whole burst
    /// capacity is available immediately.
    pub fn new(capacity: u64, period_ns: u64, now_ns: u64) -> (r: Self)
        requires
            1 <= capacity <= RATE_PARAM_MAX,
            1 <= period_ns <= RATE_PARAM_MAX,
        ensures
            r.wf(),
            r.capacity == capacity,
            r.period_ns == period_ns,
            r.credit_ns == r.full_credit(),
            r.last_refill_ns == now_ns,
    {
        proof {
            lemma_full_credit_fits(capacity, period_ns);
        }
        TokenBucket { capacity, period_ns, credit_ns: capacity * period_ns, last_refill_ns: now_ns }
    }

    /// Try to admit one request at instant `now_ns`: refill from the
    /// elapsed time, then consume one period of credit if enough is
    /// available. Returns whether the request was admitted; a denied
    /// request consumes nothing.
    pub fn try_acquire(&mut self, now_ns: u64) -> (admitted: bool)
        requires
            old(self).wf(),
        ensures
            final(self).wf(),
            final(self).same_config(*old(self)),
            *final(self) == old(self).step(now_ns).0,
            admitted == old(self).step(now_ns).1,
    {
        proof {
            lemma_full_credit_fits(self.capacity, self.period_ns);
        }
        let full: u64 = self.capacity * self.period_ns;
        let elapsed: u64 = if now_ns >= self.last_refill_ns {
            now_ns - self.last_refill_ns
        } else {
            0
        };
        let grown: u64 = self.credit_ns.saturating_add(elapsed);
        let refilled: u64 = if grown > full {
            full
        } else {
            grown
        };
        if now_ns >= self.last_refill_ns {
            self.last_refill_ns = now_ns;
        }
        if refilled >= self.period_ns {
            self.credit_ns = refilled - self.period_ns;
            true
        } else {
            self.credit_ns = refilled;
            false
        }
    }

    /// The earliest instant at which a denied request will be admitted:
    /// when the missing credit has refilled. For a bucket that already
    /// holds a period of credit this is the last refill instant itself.
    pub fn next_ready_ns(&self) -> (r: u64)
        requires
            self.wf(),
            self.last_refill_ns + self.period_ns <= u64::MAX,
        ensures
            self.credit_ns >= self.period_ns ==> r == self.last_refill_ns,
            self.credit_ns < self.period_ns ==> r == self.last_refill_ns + (
            self.period_ns - self.credit_ns),
            self.step(r).1,
    {
        proof {
            lemma_full_credit_at_least_period(*self);
        }
        if self.credit_ns >= self.period_ns {
            self.last_refill_ns
        } else {
            self.last_refill_ns + (self.period_ns - self.credit_ns)
        }
    }
}

/// A well-formed bucket's full credit covers at least one period, since
/// the capacity is at least one unit.
proof fn lemma_full_credit_at_least_period(b: TokenBucket)
    requires
        b.wf(),
    ensures
        b.full_credit() >= b.period_ns,
{
    lemma_full_credit_at_least_period_params(b.capacity, b.period_ns);
}

/// The full-bucket credit fits in a `u64` when both parameters are
/// within `RATE_PARAM_MAX`.
proof fn lemma_full_credit_fits(capacity: u64, period_ns: u64)
    requires
        capacity <= RATE_PARAM_MAX,
        period_ns <= RATE_PARAM_MAX,
    ensures
        capacity * period_ns <= RATE_PARAM_MAX * RATE_PARAM_MAX,
{
    lemma_mul_inequality(capacity as int, RATE_PARAM_MAX as int, period_ns as int);
    lemma_mul_inequality(period_ns as int, RATE_PARAM_MAX as int, RATE_PARAM_MAX as int);
    assert(RATE_PARAM_MAX as int * period_ns as int == period_ns as int * RATE_PARAM_MAX as int)
        by (nonlinear_arith);
}

/// Some entry of the bucket list carries this key.
pub open spec fn has_key(s: Seq<(u64, TokenBucket)>, key: u64) -> bool {
    exists|i: int| 0 <= i < s.len() && (#[trigger] s[i]).0 == key
}

/// The index of the entry carrying this key; meaningful only when
/// `has_key` holds, and unique when the keys are distinct.
pub open spec fn index_of_key(s: Seq<(u64, TokenBucket)>, key: u64) -> int {
    choose|i: int| 0 <= i < s.len() && (#[trigger] s[i]).0 == key
}

/// A rate limiter holding one bucket per key, every bucket with the
/// same configured quota; a key seen for the first time starts with a
/// full bucket.
pub struct KeyedRateLimiter {
    /// Burst capacity of every bucket.
    pub capacity: u64,
    /// Nanoseconds of refill credit per unit, for every bucket.
    pub period_ns: u64,
    /// One bucket per key.
    pub buckets: Vec<(u64, TokenBucket)>,
}

impl KeyedRateLimiter {
    /// Well-formedness: a valid quota, one entry per key, and every
    /// bucket well formed under that quota.
    pub open spec fn wf(self) -> bool {
        &&& 1 <= self.capacity <= RATE_PARAM_MAX
        &&& 1 <= self.period_ns <= RATE_PARAM_MAX
        &&& forall|i: int, j: int|
            0 <= i < j < self.buckets@.len() ==> (#[trigger] self.buckets@[i]).0 != (
            #[trigger] self.buckets@[j]).0
        &&& forall|i: int|
            0 <= i < self.buckets@.len() ==> {
                let b = (#[trigger] self.buckets@[i]).1;
                b.wf() && b.capacity == self.capacity && b.period_ns == self.period_ns
            }
    }

    /// A limiter with the given quota and no keys seen yet.
    pub fn new(capacity: u64, period_ns: u64) -> (r: Self)
        requires
            1 <= capacity <= RATE_PARAM_MAX,
            1 <= period_ns <= RATE_PARAM_MAX,
        ensures
            r.wf(),
            r.capacity == capacity,
            r.period_ns == period_ns,
            r.buckets@.len() == 0,
    {
        KeyedRateLimiter { capacity, period_ns, buckets: Vec::new() }
    }

    /// Try to admit one request under the given key at instant
    /// `now_ns`: the key's bucket alone takes the step, every other
    /// bucket is untouched. A key seen for the first time gets a full
    /// bucket, so its first request is always admitted.
    pub fn acquire(&mut self, key: u64, now_ns: u64) -> (admitted: bool)
        requires
            old(self).wf(),
        ensures
            final(self).wf(),
            final(self).capacity == old(self).capacity,
            final(self).period_ns == old(self).period_ns,
            has_key(old(self).buckets@, key) ==> {
                let i = index_of_key(old(self).buckets@, key);
                let (stepped, a) = old(self).buckets@[i].1.step(now_ns);
                &&& final(self).buckets@ == old(self).buckets@.update(i, (key, stepped))
                &&& admitted == a
            },
            !has_key(old(self).buckets@, key) ==> {
                let fresh = fresh_spent_bucket(old(self).capacity, old(self).period_ns, now_ns);
                &&& final(self).buckets@ == old(self).buckets@.push((key, fresh))
                &&& admitted
            },
    {
        let ghost s = self.buckets@;
        let mut i: usize = 0;
        while i < self.buckets.len()
            invariant
                s == old(self).buckets@,
                self.buckets@ == s,
                self.capacity == old(self).capacity,
                self.period_ns == old(self).period_ns,
                old(self).wf(),
                i <= s.len(),
                forall|k: int| 0 <= k < i ==> (#[trigger] s[k]).0 != key,
            decreases self.buckets.len() - i,
        {
            let (entry_key, bucket) = self.buckets[i];
            if entry_key == key {
                let mut b = bucket;
                let admitted = b.try_acquire(now_ns);
                self.buckets.set(i, (key, b));
                proof {
                    assert(has_key(s, key));
                    let j = index_of_key(s, key);
                    assert(0 <= j < s.len() && s[j].0 == key);
                    assert(j == i);
                    assert forall|p: int, q: int|
                        0 <= p < q < self.buckets@.len() implies (#[trigger] self.buckets@[p]).0
                        != (#[trigger] self.buckets@[q]).0 by {
                        assert(self.buckets@[p].0 == s[p].0);
                        assert(self.buckets@[q].0 == s[q].0);
                    }
                }
                return admitted;
            }
            i = i + 1;
        }
        proof {
            assert(!has_key(s, key));
            lemma_full_credit_fits(self.capacity, self.period_ns);
            lemma_full_credit_at_least_period_params(self.capacity, self.period_ns);
        }
        let mut b = TokenBucket::new(self.capacity, self.period_ns, now_ns);
        let admitted = b.try_acquire(now_ns);
        assert(admitted);
        self.buckets.push((key, b));
        true
    }
}

/// The bucket of a key seen for the first time, right after its first
/// (admitted) request: full but for one period of credit.
pub open spec fn fresh_spent_bucket(capacity: u64, period_ns: u64, now_ns: u64) -> TokenBucket {
    TokenBucket {
        capacity,
        period_ns,
        credit_ns: ((capacity * period_ns) - period_ns) as u64,
        last_refill_ns: now_ns,
    }
}

/// A well-formed quota grants at least one period of full credit.
proof fn lemma_full_credit_at_least_period_params(capacity: u64, period_ns: u64)
    requires
        1 <= capacity,
    ensures
        capacity * period_ns >= period_ns,
{
    assert(capacity * period_ns >= 1 * period_ns) by (nonlinear_arith)
        requires
            capacity >= 1,
            period_ns >= 0,
    ;
}

/// The bucket after a trace of admission attempts at the given instants.
pub open spec fn run_steps(b: TokenBucket, times: Seq<u64>) -> TokenBucket
    decreases times.len(),
{
    if times.len() == 0 {
        b
    } else {
        run_steps(b.step(times[0]).0, times.drop_first())
    }
}

/// How many attempts of the trace were admitted.
pub open spec fn run_admitted(b: TokenBucket, times: Seq<u64>) -> int
    decreases times.len(),
{
    if times.len() == 0 {
        0int
    } else {
        (if b.step(times[0]).1 {
            1int
        } else {
            0int
        }) + run_admitted(b.step(times[0]).0, times.drop_first())
    }
}

/// A step preserves well-formedness and the configuration.
proof fn lemma_step_wf(b: TokenBucket, now: u64)
    requires
        b.wf(),
    ensures
        b.step(now).0.wf(),
        b.step(now).0.same_config(b),
        b.step(now).0.last_refill_ns >= b.last_refill_ns,
        b.step(now).0.last_refill_ns >= now || now < b.last_refill_ns,
{
}

/// Credit accounting along a non-empty sorted trace: the credit spent on
/// admissions plus the credit left at the end never exceeds the credit
/// available at the first attempt plus everything that can refill
/// between the first and the last attempt.
proof fn lemma_run_credit_bound(b: TokenBucket, times: Seq<u64>)
    requires
        b.wf(),
        times.len() > 0,
        forall|i: int, j: int| 0 <= i < j < times.len() ==> times[i] <= times[j],
    ensures
        run_admitted(b, times) * b.period_ns + run_steps(b, times).credit_ns <= b.refilled_credit(
            times[0],
        ) + (times[times.len() - 1] - times[0]),
    decreases times.len(),
{
    let (b1, a0) = b.step(times[0]);
    lemma_step_wf(b, times[0]);
    lemma_full_credit_fits(b.capacity, b.period_ns);
    let c0 = b.refilled_credit(times[0]);
    assert(c0 <= b.full_credit());
    assert(b1.credit_ns == c0 - (if a0 {
        b.period_ns as int
    } else {
        0int
    }));
    if times.len() == 1 {
        assert(times.drop_first().len() == 0);
        assert(run_steps(b1, times.drop_first()) == b1);
        assert(run_admitted(b1, times.drop_first()) == 0);
        assert(run_steps(b, times) == b1);
        assert(run_admitted(b, times) == (if a0 {
            1int
        } else {
            0int
        }));
        assert((if a0 {
            1int
        } else {
            0int
        }) * b.period_ns == (if a0 {
            b.period_ns as int
        } else {
            0int
        }));
    } else {
        let rest = times.drop_first();
        assert(forall|i: int, j: int| 0 <= i < j < rest.len() ==> rest[i] <= rest[j]);
        lemma_run_credit_bound(b1, rest);
        let t0 = times[0];
        let t1 = rest[0];
        assert(t1 == times[1]);
        assert(t0 <= t1);
        // The attempt at `t0` leaves the last-refill instant at or past
        // `t0`, so the refill available at `t1` is at most `t1 - t0`.
        assert(b1.last_refill_ns >= t0);
        assert(b1.refilled_credit(t1) <= b1.credit_ns + (t1 - t0));
        let ar = run_admitted(b1, rest);
        assert(run_admitted(b, times) == (if a0 {
            1int
        } else {
            0int
        }) + ar);
        assert(rest[rest.len() - 1] == times[times.len() - 1]);
        assert(((if a0 {
            1int
        } else {
            0int
        }) + ar) * b.period_ns == (if a0 {
            b.period_ns as int
        } else {
            0int
        }) + ar * b.period_ns) by (nonlinear_arith);
    }
}

/// The rate is never exceeded: over any trace of admission attempts
/// whose instants all fall within one window shorter than the refill
/// period, at most `capacity` attempts are admitted — however the
/// attempts are interleaved, including the burst that drains a full
/// bucket.
pub proof fn lemma_window_admission_bound(b: TokenBucket, times: Seq<u64>, window_start: u64)
    requires
        b.wf(),
        forall|i: int, j: int| 0 <= i < j < times.len() ==> times[i] <= times[j],
        forall|i: int|
            0 <= i < times.len() ==> window_start <= #[trigger] times[i] < window_start
                + b.period_ns,
    ensures
        run_admitted(b, times) <= b.capacity,
{
    if times.len() == 0 {
    } else {
        lemma_run_credit_bound(b, times);
        let a = run_admitted(b, times);
        let p = b.period_ns as int;
        let span = times[times.len() - 1] - times[0];
        assert(span < p);
        // a * p <= full_credit + span < capacity * p + p = (capacity + 1) * p
        assert(a * p < (b.capacity + 1) * p ==> a < b.capacity + 1) by (nonlinear_arith)
            requires
                p >= 1,
        ;
        assert((b.capacity + 1) * p == b.capacity * p + p) by (nonlinear_arith);
        lemma_run_admitted_nonneg(b, times);
    }
}

/// No trace admits a negative number of attempts.
proof fn lemma_run_admitted_nonneg(b: TokenBucket, times: Seq<u64>)
    ensures
        run_admitted(b, times) >= 0,
    decreases times.len(),
{
    if times.len() > 0 {
        lemma_run_admitted_nonneg(b.step(times[0]).0, times.drop_first());
    }
}

} // verus!
