//! Exponential backoff strategy for the reconnect loop.
//!
//! Pure delay computation: every failed attempt multiplies the current
//! delay by a configured factor and caps it at a configured maximum; a
//! bounded random jitter is added on top (never subtracted, so the
//! configured floor is never violated). A successful connection resets
//! the state to the initial delay.
//!
//! The multiplier is carried in thousandths so that fractional factors
//! such as one and a half can be represented exactly in integers.

use vstd::prelude::*;
use vstd::arithmetic::div_mod::{lemma_div_is_ordered, lemma_div_multiples_vanish};
use vstd::arithmetic::mul::lemma_mul_inequality;

verus! {

/// Scale of the backoff multiplier: a factor of one is `FACTOR_UNIT`
/// thousandths.
pub const FACTOR_UNIT: u64 = 1000;

/// Largest value allowed for the delay cap, the multiplier and the
/// jitter bound, so that every intermediate product fits in a `u64`.
pub const BACKOFF_PARAM_MAX: u64 = 0xFFFF_FFFF;

/// Backoff configuration and the mutable retry state owned by the
/// reconnect loop.
pub struct ExponentialBackoff {
    /// Delay of the first retry, in milliseconds.
    pub delay_initial_ms: u64,
    /// Cap on the computed (pre-jitter) delay, in milliseconds.
    pub delay_max_ms: u64,
    /// Multiplier applied per consecutive failure, in thousandths.
    pub factor_milli: u64,
    /// Upper bound of the random addition, in milliseconds.
    pub jitter_max_ms: u64,
    /// Count of consecutive failed attempts since the last success.
    pub consecutive_failures: u32,
    /// Current pre-jitter delay, in milliseconds.
    pub current_delay_ms: u64,
}

impl ExponentialBackoff {
    /// Well-formedness: the factor is at least one, the bounds fit the
    /// arithmetic, and the current delay sits between the initial delay
    /// and the cap.
    pub open spec fn wf(self) -> bool {
        &&& FACTOR_UNIT <= self.factor_milli <= BACKOFF_PARAM_MAX
        &&& self.delay_initial_ms <= self.delay_max_ms
        &&& self.delay_max_ms <= BACKOFF_PARAM_MAX
        &&& self.jitter_max_ms <= BACKOFF_PARAM_MAX
        &&& self.delay_initial_ms <= self.current_delay_ms <= self.delay_max_ms
    }

    /// The configuration fields of `self` equal those of `other`.
    pub open spec fn same_config(self, other: Self) -> bool {
        &&& self.delay_initial_ms == other.delay_initial_ms
        &&& self.delay_max_ms == other.delay_max_ms
        &&& self.factor_milli == other.factor_milli
        &&& self.jitter_max_ms == other.jitter_max_ms
    }

    /// The pre-jitter delay after one more failure: the current delay
    /// multiplied by the factor, truncated to milliseconds and capped.
    pub open spec fn grown_delay(self) -> int {
        let grown = (self.current_delay_ms * self.factor_milli) as int / (FACTOR_UNIT as int);
        if grown > self.delay_max_ms {
            self.delay_max_ms as int
        } else {
            grown
        }
    }

    /// Fresh backoff state: no failures recorded, the current delay at
    /// the configured initial delay.
    pub fn new(
        delay_initial_ms: u64,
        delay_max_ms: u64,
        factor_milli: u64,
        jitter_max_ms: u64,
    ) -> (r: Self)
        requires
            FACTOR_UNIT <= factor_milli <= BACKOFF_PARAM_MAX,
            delay_initial_ms <= delay_max_ms,
            delay_max_ms <= BACKOFF_PARAM_MAX,
            jitter_max_ms <= BACKOFF_PARAM_MAX,
        ensures
            r.wf(),
            r.delay_initial_ms == delay_initial_ms,
            r.delay_max_ms == delay_max_ms,
            r.factor_milli == factor_milli,
            r.jitter_max_ms == jitter_max_ms,
            r.consecutive_failures == 0,
            r.current_delay_ms == delay_initial_ms,
    {
        ExponentialBackoff {
            delay_initial_ms,
            delay_max_ms,
            factor_milli,
            jitter_max_ms,
            consecutive_failures: 0,
            current_delay_ms: delay_initial_ms,
        }
    }

    /// The state after a reset, as a spec-level function.
    pub open spec fn after_reset(self) -> ExponentialBackoff {
        ExponentialBackoff { consecutive_failures: 0, current_delay_ms: self.delay_initial_ms, ..self }
    }

    /// The state after recording one failure, as a spec-level function.
    pub open spec fn after_advance(self) -> ExponentialBackoff {
        ExponentialBackoff {
            consecutive_failures: if self.consecutive_failures == u32::MAX {
                u32::MAX
            } else {
                (self.consecutive_failures + 1) as u32
            },
            current_delay_ms: self.grown_delay() as u64,
            ..self
        }
    }

    /// Forget all recorded failures: the next computed delay starts from
    /// the initial delay again, whatever the prior failure count was.
    pub fn reset(&mut self)
        requires
            old(self).wf(),
        ensures
            final(self).wf(),
            final(self).same_config(*old(self)),
            final(self).consecutive_failures == 0,
            final(self).current_delay_ms == old(self).delay_initial_ms,
            *final(self) == old(self).after_reset(),
    {
        self.consecutive_failures = 0;
        self.current_delay_ms = self.delay_initial_ms;
    }

    /// Record one more consecutive failure and grow the current delay by
    /// the configured factor, capped at the configured maximum.
    ///
    /// The pre-jitter delay never decreases across failures and never
    /// leaves `[delay_initial_ms, delay_max_ms]`: without the cap the
    /// growth would be unbounded.
    pub fn advance(&mut self)
        requires
            old(self).wf(),
        ensures
            final(self).wf(),
            final(self).same_config(*old(self)),
            final(self).consecutive_failures
                == if old(self).consecutive_failures == u32::MAX {
                    u32::MAX
                } else {
                    (old(self).consecutive_failures + 1) as u32
                },
            final(self).current_delay_ms == old(self).grown_delay(),
            final(self).current_delay_ms >= old(self).current_delay_ms,
            *final(self) == old(self).after_advance(),
    {
        proof {
            lemma_grown_delay_bounds(*self);
        }
        let product: u64 = self.current_delay_ms * self.factor_milli;
        let grown: u64 = product / FACTOR_UNIT;
        self.current_delay_ms = if grown > self.delay_max_ms {
            self.delay_max_ms
        } else {
            grown
        };
        self.consecutive_failures = self.consecutive_failures.saturating_add(1);
    }

    /// The delay to sleep before the next attempt: the current pre-jitter
    /// delay widened by the given jitter. The jitter is drawn by the
    /// caller, uniformly in `[0, jitter_max_ms]`; it is only ever added,
    /// so the result never falls below the current delay.
    pub fn delay_with_jitter(&self, jitter_ms: u64) -> (r: u64)
        requires
            self.wf(),
            jitter_ms <= self.jitter_max_ms,
        ensures
            r == self.current_delay_ms + jitter_ms,
            self.delay_initial_ms <= r <= self.delay_max_ms + self.jitter_max_ms,
    {
        self.current_delay_ms + jitter_ms
    }
}

/// The grown delay stays within bounds: it never decreases below the
/// current delay, never exceeds the cap, and the intermediate product
/// fits in a `u64`.
proof fn lemma_grown_delay_bounds(b: ExponentialBackoff)
    requires
        b.wf(),
    ensures
        b.current_delay_ms * b.factor_milli <= BACKOFF_PARAM_MAX * BACKOFF_PARAM_MAX,
        b.current_delay_ms <= b.grown_delay() <= b.delay_max_ms,
{
    let c = b.current_delay_ms as int;
    let f = b.factor_milli as int;
    let u = FACTOR_UNIT as int;
    lemma_mul_inequality(c, BACKOFF_PARAM_MAX as int, f);
    lemma_mul_inequality(f, BACKOFF_PARAM_MAX as int, BACKOFF_PARAM_MAX as int);
    assert(BACKOFF_PARAM_MAX as int * f == f * BACKOFF_PARAM_MAX as int)
        by (nonlinear_arith);
    assert(c * u <= c * f) by (nonlinear_arith)
        requires u <= f, 0 <= c;
    lemma_div_is_ordered(c * u, c * f, u);
    lemma_div_multiples_vanish(c, u);
    assert(c * u == u * c) by (nonlinear_arith);
}

/// Each consecutive failure grows the pre-jitter delay monotonically,
/// and the delay never leaves `[delay_initial_ms, delay_max_ms]`: since
/// well-formedness is preserved, the whole sequence of delays computed
/// over any run of consecutive failures is non-decreasing up to the
/// cap.
pub proof fn lemma_backoff_monotone(b: ExponentialBackoff)
    requires
        b.wf(),
    ensures
        b.after_advance().wf(),
        b.after_advance().same_config(b),
        b.current_delay_ms <= b.after_advance().current_delay_ms,
        b.delay_initial_ms <= b.after_advance().current_delay_ms <= b.delay_max_ms,
{
    lemma_grown_delay_bounds(b);
}

/// The backoff state after a run of `n` consecutive failures.
pub open spec fn after_failures(b: ExponentialBackoff, n: nat) -> ExponentialBackoff
    decreases n,
{
    if n == 0 {
        b
    } else {
        after_failures(b, (n - 1) as nat).after_advance()
    }
}

/// For every sequence of consecutive failures the computed pre-jitter
/// delay is non-decreasing and stays within
/// `[delay_initial_ms, delay_max_ms]`; with the jitter bound added on
/// top, every delay the strategy hands out lies within
/// `[delay_initial_ms, delay_max_ms + jitter_max_ms]`.
pub proof fn lemma_backoff_sequence_monotone(b: ExponentialBackoff, n: nat)
    requires
        b.wf(),
    ensures
        after_failures(b, n).wf(),
        after_failures(b, n).same_config(b),
        b.delay_initial_ms <= after_failures(b, n).current_delay_ms <= b.delay_max_ms,
        after_failures(b, n + 1).current_delay_ms >= after_failures(b, n).current_delay_ms,
    decreases n,
{
    if n == 0 {
        lemma_backoff_monotone(b);
    } else {
        lemma_backoff_sequence_monotone(b, (n - 1) as nat);
        lemma_backoff_monotone(after_failures(b, (n - 1) as nat));
        lemma_backoff_monotone(after_failures(b, n));
        assert(after_failures(b, n + 1) == after_failures(b, n).after_advance());
    }
}

/// After a reset, the next computed delay equals the initial delay plus
/// the drawn jitter — whatever failure count and grown delay the state
/// had accumulated before.
pub proof fn lemma_reset_restores_initial(b: ExponentialBackoff, jitter_ms: u64)
    requires
        b.wf(),
        jitter_ms <= b.jitter_max_ms,
    ensures
        b.after_reset().consecutive_failures == 0,
        b.after_reset().current_delay_ms + jitter_ms == b.delay_initial_ms + jitter_ms,
{
}

/// Invariant of the backoff strategy: for every reachable state, every
/// computed delay (the pre-jitter delay widened by any admissible
/// jitter) lies within `[delay_initial_ms, delay_max_ms + jitter_max_ms]`.
pub proof fn lemma_delay_within_bounds(b: ExponentialBackoff, jitter_ms: u64)
    requires
        b.wf(),
        jitter_ms <= b.jitter_max_ms,
    ensures
        b.delay_initial_ms <= b.current_delay_ms + jitter_ms,
        b.current_delay_ms + jitter_ms <= b.delay_max_ms + b.jitter_max_ms,
{
}

} // verus!
