//! Client facade and reconnect protocol.
//!
//! The verified heart of the client: a state machine over the
//! connection mode, the backoff state, the reconnect deadline and the
//! rate limiter. The surrounding tasks (the inbound-read loop, the
//! reconnect loop, the heartbeat timer and the callers of `send`) drive
//! it with plain values — timestamps, attempt outcomes, payloads — and
//! perform the I/O it decides on.
//!
//! A ghost transcript records every frame handed to the transport
//! writer, in order, so the contracts can speak about what the
//! transport observes.

use vstd::prelude::*;
use crate::backoff::ExponentialBackoff;
use crate::config::SocketConfig;
use crate::mode::{close_accepted, reconnect_accepted, request_close, request_reconnect, ConnectionMode};
use crate::ratelimiter::TokenBucket;

verus! {

/// Largest timestamp (in nanoseconds or milliseconds) the state machine
/// accepts, leaving headroom for deadline and refill arithmetic.
pub const TIMESTAMP_MAX: u64 = 0xFFFF_FFFF_0000_0000;

/// Error returned to a caller of `send` whose client is not active. The
/// caller is expected to inspect the mode and retry after a delay if
/// the client is reconnecting.
#[derive(Clone, Copy, Debug, PartialEq, Eq, Structural)]
pub struct SendError {
    /// The mode the client was in when the send was refused.
    pub mode: ConnectionMode,
}

/// What a caller of `send` should do with an admitted request.
#[derive(Debug)]
pub enum SendOutcome {
    /// Hand this frame (payload plus suffix) to the transport writer
    /// now.
    Ready(Vec<u8>),
    /// The rate limiter has no unit to spare: call `send` again with
    /// the same payload once this instant (nanoseconds) has passed.
    Defer(u64),
}

/// What the reconnect loop should do after a failed attempt.
#[derive(Clone, Copy, Debug, PartialEq, Eq, Structural)]
pub enum RetryDecision {
    /// Sleep this many milliseconds, then attempt again.
    RetryAfterMs(u64),
    /// The reconnect timeout has elapsed: the client is closed for
    /// good; invoke the post-disconnection callback exactly once.
    GiveUp,
}

/// A lifecycle callback occurrence: the caller invokes the matching
/// registered callback exactly once for each entry, in order.
#[derive(Clone, Copy, Debug, PartialEq, Eq, Structural)]
pub enum LifecycleEvent {
    /// The initial connection succeeded; the post-connection callback
    /// is due.
    Connected,
    /// A reconnect cycle restored the connection; the post-reconnection
    /// callback is due.
    Reconnected,
    /// The client definitively closed, by request or by an exhausted
    /// reconnect timeout; the post-disconnection callback is due.
    Disconnected,
}

/// How many disconnection occurrences the transcript holds.
pub open spec fn disconnected_count(s: Seq<LifecycleEvent>) -> int
    decreases s.len(),
{
    if s.len() == 0 {
        0int
    } else {
        disconnected_count(s.drop_last()) + (if s.last() == LifecycleEvent::Disconnected {
            1int
        } else {
            0int
        })
    }
}

/// Appending one occurrence raises the disconnection count exactly when
/// the occurrence is a disconnection.
proof fn lemma_disconnected_count_push(s: Seq<LifecycleEvent>, x: LifecycleEvent)
    ensures
        disconnected_count(s.push(x)) == disconnected_count(s) + (if x
            == LifecycleEvent::Disconnected {
            1int
        } else {
            0int
        }),
{
    assert(s.push(x).drop_last() =~= s);
    assert(s.push(x).last() == x);
}

/// The resilient client: configuration, lifecycle mode, backoff state,
/// reconnect deadline and outbound rate limiter.
pub struct SocketClient {
    /// Construction-time parameters, never mutated.
    pub config: SocketConfig,
    /// Current lifecycle mode; every component reads it.
    pub mode: ConnectionMode,
    /// Retry state, owned by the reconnect loop.
    pub backoff: ExponentialBackoff,
    /// Instant (milliseconds) at which the reconnect cycle in progress
    /// gives up; present exactly while `Reconnecting`.
    pub reconnect_deadline_ms: Option<u64>,
    /// Outbound quota; `None` means sends are never throttled.
    pub limiter: Option<TokenBucket>,
    /// Every frame handed to the transport writer, oldest first.
    pub transcript: Ghost<Seq<Seq<u8>>>,
    /// Every lifecycle callback occurrence, oldest first.
    pub lifecycle: Ghost<Seq<LifecycleEvent>>,
}

impl SocketClient {
    /// Well-formedness, established by the constructor and preserved by
    /// every operation.
    pub open spec fn wf(self) -> bool {
        &&& self.config.wf()
        &&& self.backoff.wf()
        &&& self.backoff.delay_initial_ms == self.config.reconnect_delay_initial_ms
        &&& self.backoff.delay_max_ms == self.config.reconnect_delay_max_ms
        &&& self.backoff.factor_milli == self.config.reconnect_backoff_factor_milli
        &&& self.backoff.jitter_max_ms == self.config.reconnect_jitter_ms
        &&& (self.mode == ConnectionMode::Reconnecting <==> self.reconnect_deadline_ms.is_some())
        &&& disconnected_count(self.lifecycle@) == (if self.mode == ConnectionMode::Closed {
            1int
        } else {
            0int
        })
        &&& match self.limiter {
            Some(b) => b.wf() && b.last_refill_ns <= TIMESTAMP_MAX,
            None => true,
        }
    }

    /// The fields that no operation but the one under scrutiny touches.
    pub open spec fn same_plant(self, other: Self) -> bool {
        &&& self.config == other.config
        &&& self.limiter == other.limiter
        &&& self.transcript == other.transcript
    }

    /// A client whose initial transport setup just succeeded: active,
    /// fresh backoff state, nothing written yet.
    ///
    /// The very first connection attempt is made by the caller without
    /// backoff, so that configuration errors surface immediately; only
    /// a client that got through it exists at all.
    pub fn new(config: SocketConfig, limiter: Option<TokenBucket>) -> (r: Self)
        requires
            config.wf(),
            match limiter {
                Some(b) => b.wf() && b.last_refill_ns <= TIMESTAMP_MAX,
                None => true,
            },
        ensures
            r.wf(),
            r.config == config,
            r.mode == ConnectionMode::Active,
            r.backoff.consecutive_failures == 0,
            r.backoff.current_delay_ms == config.reconnect_delay_initial_ms,
            r.reconnect_deadline_ms.is_none(),
            r.limiter == limiter,
            r.transcript@ == Seq::<Seq<u8>>::empty(),
            r.lifecycle@ == seq![LifecycleEvent::Connected],
    {
        let backoff = ExponentialBackoff::new(
            config.reconnect_delay_initial_ms,
            config.reconnect_delay_max_ms,
            config.reconnect_backoff_factor_milli,
            config.reconnect_jitter_ms,
        );
        proof {
            lemma_disconnected_count_push(Seq::empty(), LifecycleEvent::Connected);
            assert(Seq::empty().push(LifecycleEvent::Connected) =~= seq![
                LifecycleEvent::Connected,
            ]);
        }
        SocketClient {
            config,
            mode: ConnectionMode::Active,
            backoff,
            reconnect_deadline_ms: None,
            limiter,
            transcript: Ghost(Seq::empty()),
            lifecycle: Ghost(Seq::empty().push(LifecycleEvent::Connected)),
        }
    }

    /// True when the mode is `Active`.
    pub fn is_active(&self) -> (r: bool)
        ensures
            r == (self.mode == ConnectionMode::Active),
    {
        self.mode.is_active()
    }

    /// True when the mode is `Reconnecting`.
    pub fn is_reconnecting(&self) -> (r: bool)
        ensures
            r == (self.mode == ConnectionMode::Reconnecting),
    {
        self.mode.is_reconnecting()
    }

    /// True when the mode is `Disconnecting`.
    pub fn is_disconnecting(&self) -> (r: bool)
        ensures
            r == (self.mode == ConnectionMode::Disconnecting),
    {
        self.mode.is_disconnecting()
    }

    /// True when the mode is `Closed`.
    pub fn is_closed(&self) -> (r: bool)
        ensures
            r == (self.mode == ConnectionMode::Closed),
    {
        self.mode.is_closed()
    }

    /// Send a payload: append the configured suffix, pass the request
    /// through the rate limiter, and on admission hand the frame to the
    /// caller for the one physical write.
    ///
    /// Fails (only) when the client is not active. A deferred request
    /// consumes nothing and writes nothing: retrying the same payload
    /// later appends the suffix exactly once.
    pub fn send(&mut self, data: &Vec<u8>, now_ns: u64) -> (r: Result<SendOutcome, SendError>)
        requires
            old(self).wf(),
            now_ns <= TIMESTAMP_MAX,
        ensures
            final(self).wf(),
            final(self).config == old(self).config,
            final(self).mode == old(self).mode,
            final(self).backoff == old(self).backoff,
            final(self).reconnect_deadline_ms == old(self).reconnect_deadline_ms,
            final(self).lifecycle == old(self).lifecycle,
            r.is_err() <==> old(self).mode != ConnectionMode::Active,
            r.is_err() ==> *final(self) == *old(self) && r == Err::<SendOutcome, SendError>(
                SendError { mode: old(self).mode },
            ),
            r.is_ok() ==> match old(self).limiter {
                None => final(self).limiter.is_none() && admitted_frame(r, *old(self), *final(self), data@),
                Some(b) => {
                    let (stepped, admitted) = b.step(now_ns);
                    &&& final(self).limiter == Some(stepped)
                    &&& if admitted {
                        admitted_frame(r, *old(self), *final(self), data@)
                    } else {
                        deferred(r, *old(self), *final(self), stepped)
                    }
                },
            },
    {
        if !self.mode.is_active() {
            return Err(SendError { mode: self.mode });
        }
        let admitted: bool = match &mut self.limiter {
            None => true,
            Some(bucket) => bucket.try_acquire(now_ns),
        };
        if admitted {
            let mut frame: Vec<u8> = Vec::new();
            let mut i: usize = 0;
            while i < data.len()
                invariant
                    i <= data.len(),
                    frame@ == data@.subrange(0, i as int),
                decreases data.len() - i,
            {
                frame.push(data[i]);
                i = i + 1;
            }
            assert(frame@ == data@);
            let mut j: usize = 0;
            while j < self.config.suffix.len()
                invariant
                    j <= self.config.suffix.len(),
                    frame@ == data@ + self.config.suffix@.subrange(0, j as int),
                decreases self.config.suffix.len() - j,
            {
                frame.push(self.config.suffix[j]);
                j = j + 1;
            }
            assert(frame@ == data@ + self.config.suffix@);
            proof {
                self.transcript@ = self.transcript@.push(frame@);
            }
            Ok(SendOutcome::Ready(frame))
        } else {
            let bucket_ready: u64 = match &self.limiter {
                Some(bucket) => bucket.next_ready_ns(),
                None => 0,
            };
            Ok(SendOutcome::Defer(bucket_ready))
        }
    }

    /// One beat of the heartbeat timer: while a heartbeat is configured
    /// and the client is active, exactly one copy of the configured
    /// payload goes to the writer, bypassing the rate limiter; in every
    /// other state the beat is skipped without error.
    pub fn heartbeat_tick(&mut self) -> (r: Option<Vec<u8>>)
        requires
            old(self).wf(),
        ensures
            final(self).wf(),
            final(self).config == old(self).config,
            final(self).mode == old(self).mode,
            final(self).backoff == old(self).backoff,
            final(self).reconnect_deadline_ms == old(self).reconnect_deadline_ms,
            final(self).limiter == old(self).limiter,
            final(self).lifecycle == old(self).lifecycle,
            r.is_some() <==> (old(self).mode == ConnectionMode::Active && old(self).config.heartbeat.is_some()),
            match r {
                Some(payload) => {
                    &&& payload@ == old(self).config.heartbeat.unwrap().1@
                    &&& final(self).transcript@ == old(self).transcript@.push(payload@)
                },
                None => final(self).transcript == old(self).transcript,
            },
    {
        if !self.mode.is_active() {
            return None;
        }
        match &self.config.heartbeat {
            None => None,
            Some(hb) => {
                let payload = clone_bytes(&hb.1);
                proof {
                    self.transcript@ = self.transcript@.push(payload@);
                }
                Some(payload)
            }
        }
    }

    /// Request an out-of-band reconnect cycle. Accepted only while
    /// active: a request while already reconnecting, disconnecting or
    /// closed is a warning-level no-op that leaves the in-progress
    /// state — mode, backoff, deadline — untouched.
    pub fn reconnect(&mut self, now_ms: u64) -> (accepted: bool)
        requires
            old(self).wf(),
            now_ms <= TIMESTAMP_MAX,
        ensures
            final(self).wf(),
            final(self).same_plant(*old(self)),
            accepted == reconnect_accepted(old(self).mode),
            accepted ==> final(self).mode == ConnectionMode::Reconnecting && final(self).reconnect_deadline_ms == Some(
                (now_ms + old(self).config.reconnect_timeout_ms) as u64,
            ) && final(self).backoff == old(self).backoff,
            !accepted ==> *final(self) == *old(self),
            *final(self) == old(self).after_reconnect(now_ms),
    {
        match self.mode {
            ConnectionMode::Active => {
                self.mode = ConnectionMode::Reconnecting;
                self.reconnect_deadline_ms = Some(now_ms + self.config.reconnect_timeout_ms);
                true
            }
            _ => false,
        }
    }

    /// The client after a close request, as a spec-level function.
    pub open spec fn after_close(self) -> SocketClient {
        if close_accepted(self.mode) {
            SocketClient {
                mode: ConnectionMode::Disconnecting,
                reconnect_deadline_ms: None,
                ..self
            }
        } else {
            self
        }
    }

    /// The client after an out-of-band reconnect request at `now_ms`,
    /// as a spec-level function.
    pub open spec fn after_reconnect(self, now_ms: u64) -> SocketClient {
        if reconnect_accepted(self.mode) {
            SocketClient {
                mode: ConnectionMode::Reconnecting,
                reconnect_deadline_ms: Some(
                    (now_ms + self.config.reconnect_timeout_ms) as u64,
                ),
                ..self
            }
        } else {
            self
        }
    }

    /// Request a graceful shutdown. Accepted while active or
    /// reconnecting; a request while already disconnecting or closed is
    /// a warning-level no-op, so `close` is idempotent. The caller then
    /// awaits the `Closed` mode, reached through `finalize_close` once
    /// the background tasks have wound down.
    pub fn close(&mut self) -> (accepted: bool)
        requires
            old(self).wf(),
        ensures
            final(self).wf(),
            final(self).same_plant(*old(self)),
            final(self).backoff == old(self).backoff,
            accepted == close_accepted(old(self).mode),
            accepted ==> final(self).mode == ConnectionMode::Disconnecting && final(self).reconnect_deadline_ms.is_none(),
            !accepted ==> *final(self) == *old(self),
            *final(self) == old(self).after_close(),
    {
        let (next, accepted) = request_close(self.mode);
        self.mode = next;
        if accepted {
            self.reconnect_deadline_ms = None;
        }
        accepted
    }

    /// The background tasks have wound down after a close request: the
    /// client reaches its terminal mode.
    pub fn finalize_close(&mut self)
        requires
            old(self).wf(),
            old(self).mode == ConnectionMode::Disconnecting,
        ensures
            final(self).wf(),
            final(self).same_plant(*old(self)),
            final(self).backoff == old(self).backoff,
            final(self).mode == ConnectionMode::Closed,
            final(self).reconnect_deadline_ms.is_none(),
            final(self).lifecycle@ == old(self).lifecycle@.push(LifecycleEvent::Disconnected),
    {
        self.mode = ConnectionMode::Closed;
        proof {
            lemma_disconnected_count_push(self.lifecycle@, LifecycleEvent::Disconnected);
            self.lifecycle@ = self.lifecycle@.push(LifecycleEvent::Disconnected);
        }
    }

    /// An I/O failure was observed. While active it starts a reconnect
    /// cycle: the mode becomes `Reconnecting` and the overall timeout
    /// budget begins to run at `now_ms`. In any other mode the failure
    /// is ignored — a cycle is already running, or the client is
    /// shutting down.
    pub fn on_io_failure(&mut self, now_ms: u64) -> (started: bool)
        requires
            old(self).wf(),
            now_ms <= TIMESTAMP_MAX,
        ensures
            final(self).wf(),
            final(self).same_plant(*old(self)),
            final(self).lifecycle == old(self).lifecycle,
            started == (old(self).mode == ConnectionMode::Active),
            started ==> final(self).mode == ConnectionMode::Reconnecting && final(self).reconnect_deadline_ms == Some(
                (now_ms + old(self).config.reconnect_timeout_ms) as u64,
            ) && final(self).backoff == old(self).backoff,
            !started ==> *final(self) == *old(self),
    {
        match self.mode {
            ConnectionMode::Active => {
                self.mode = ConnectionMode::Reconnecting;
                self.reconnect_deadline_ms = Some(now_ms + self.config.reconnect_timeout_ms);
                true
            }
            _ => false,
        }
    }

    /// A transport attempt of the running reconnect cycle succeeded:
    /// the client is active again, the backoff state is reset so the
    /// next cycle starts from the initial delay, and the caller invokes
    /// the post-reconnection callback exactly once.
    pub fn on_attempt_success(&mut self)
        requires
            old(self).wf(),
            old(self).mode == ConnectionMode::Reconnecting,
        ensures
            final(self).wf(),
            final(self).same_plant(*old(self)),
            final(self).mode == ConnectionMode::Active,
            final(self).reconnect_deadline_ms.is_none(),
            final(self).backoff.same_config(old(self).backoff),
            final(self).backoff.consecutive_failures == 0,
            final(self).backoff.current_delay_ms == old(self).config.reconnect_delay_initial_ms,
            final(self).lifecycle@ == old(self).lifecycle@.push(LifecycleEvent::Reconnected),
    {
        self.mode = ConnectionMode::Active;
        self.reconnect_deadline_ms = None;
        self.backoff.reset();
        proof {
            lemma_disconnected_count_push(self.lifecycle@, LifecycleEvent::Reconnected);
            self.lifecycle@ = self.lifecycle@.push(LifecycleEvent::Reconnected);
        }
    }

    /// A transport attempt of the running reconnect cycle failed. The
    /// transient error is swallowed: either the cycle's time budget is
    /// spent — the client closes for good and the caller invokes the
    /// post-disconnection callback exactly once — or one more failure
    /// is recorded and the caller sleeps for the grown, jittered delay
    /// before the next attempt.
    ///
    /// The jitter is drawn by the caller, uniformly in
    /// `[0, reconnect_jitter_ms]`.
    pub fn on_attempt_failure(&mut self, now_ms: u64, jitter_ms: u64) -> (r: RetryDecision)
        requires
            old(self).wf(),
            old(self).mode == ConnectionMode::Reconnecting,
            jitter_ms <= old(self).config.reconnect_jitter_ms,
        ensures
            final(self).wf(),
            final(self).same_plant(*old(self)),
            r == RetryDecision::GiveUp <==> now_ms >= old(self).reconnect_deadline_ms.unwrap(),
            r == RetryDecision::GiveUp ==> final(self).mode == ConnectionMode::Closed && final(self).reconnect_deadline_ms.is_none() && final(self).backoff == old(self).backoff && final(self).lifecycle@ == old(self).lifecycle@.push(LifecycleEvent::Disconnected),
            r != RetryDecision::GiveUp ==> {
                &&& final(self).mode == ConnectionMode::Reconnecting
                &&& final(self).reconnect_deadline_ms == old(self).reconnect_deadline_ms
                &&& final(self).backoff.same_config(old(self).backoff)
                &&& final(self).backoff.current_delay_ms == old(self).backoff.grown_delay()
                &&& final(self).backoff.current_delay_ms >= old(self).backoff.current_delay_ms
                &&& final(self).lifecycle == old(self).lifecycle
                &&& r == RetryDecision::RetryAfterMs(
                    (old(self).backoff.grown_delay() + jitter_ms) as u64,
                )
            },
    {
        let deadline = match self.reconnect_deadline_ms {
            Some(d) => d,
            None => 0,
        };
        if now_ms >= deadline {
            self.mode = ConnectionMode::Closed;
            self.reconnect_deadline_ms = None;
            proof {
                lemma_disconnected_count_push(self.lifecycle@, LifecycleEvent::Disconnected);
                self.lifecycle@ = self.lifecycle@.push(LifecycleEvent::Disconnected);
            }
            RetryDecision::GiveUp
        } else {
            self.backoff.advance();
            let delay = self.backoff.delay_with_jitter(jitter_ms);
            RetryDecision::RetryAfterMs(delay)
        }
    }
}

/// Whether an admitted send produced exactly the old payload with the
/// suffix appended once, recorded as the newest frame of the
/// transcript.
pub open spec fn admitted_frame(
    r: Result<SendOutcome, SendError>,
    pre: SocketClient,
    post: SocketClient,
    data: Seq<u8>,
) -> bool {
    match r {
        Ok(SendOutcome::Ready(frame)) => {
            &&& frame@ == data + pre.config.suffix@
            &&& post.transcript@ == pre.transcript@.push(frame@)
        },
        _ => false,
    }
}

/// Whether a deferred send wrote nothing and tells the caller the
/// instant at which the limiter admits again.
pub open spec fn deferred(
    r: Result<SendOutcome, SendError>,
    pre: SocketClient,
    post: SocketClient,
    stepped: TokenBucket,
) -> bool {
    match r {
        Ok(SendOutcome::Defer(at)) => {
            &&& post.transcript == pre.transcript
            &&& at == stepped.last_refill_ns + (stepped.period_ns - stepped.credit_ns)
            &&& stepped.step(at).1
        },
        _ => false,
    }
}

/// The post-disconnection callback is owed exactly once over a
/// client's whole life: a well-formed client's lifecycle transcript
/// holds exactly one disconnection occurrence once the client is
/// closed — whether by request or by an exhausted reconnect timeout —
/// and none before.
pub proof fn lemma_disconnection_exactly_once(c: SocketClient)
    requires
        c.wf(),
    ensures
        c.mode == ConnectionMode::Closed ==> disconnected_count(c.lifecycle@) == 1,
        c.mode != ConnectionMode::Closed ==> disconnected_count(c.lifecycle@) == 0,
{
}

/// A close request is idempotent: issuing it a second time, from the
/// state the first request produced, changes nothing — and neither
/// request is an error, whatever the starting mode.
pub proof fn lemma_close_idempotent(c: SocketClient)
    ensures
        c.after_close().after_close() == c.after_close(),
{
}

/// A reconnect request while a reconnect is already in progress — or
/// while disconnecting or closed — is rejected and alters nothing: the
/// in-progress attempt state (mode, backoff, deadline) stays exactly
/// as it was.
pub proof fn lemma_reconnect_rejected_in_progress(c: SocketClient, now_ms: u64)
    requires
        c.mode != ConnectionMode::Active,
    ensures
        c.after_reconnect(now_ms) == c,
{
}

/// Byte-for-byte copy of a buffer.
fn clone_bytes(src: &Vec<u8>) -> (r: Vec<u8>)
    ensures
        r@ == src@,
{
    let mut out: Vec<u8> = Vec::new();
    let mut i: usize = 0;
    while i < src.len()
        invariant
            i <= src.len(),
            out@ == src@.subrange(0, i as int),
        decreases src.len() - i,
    {
        out.push(src[i]);
        i = i + 1;
    }
    assert(out@ == src@);
    out
}

} // verus!
