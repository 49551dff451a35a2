//! Keepalive bookkeeping of one session: heartbeat period, acknowledgment
//! timeout and the time of the last acknowledgment, all in milliseconds.
use vstd::prelude::*;

verus! {

/// Period between two heartbeats.
pub const PING_INTERVAL_MS: u64 = 30_000;

/// Longest time without an acknowledgment before the session is stale.
pub const PONG_TIMEOUT_MS: u64 = 90_000;

pub struct LivenessState {
    pub ping_interval_ms: u64,
    pub pong_timeout_ms: u64,
    pub last_pong_at_ms: u64,
}

impl LivenessState {
    /// Well-formed: a session with a zero timeout would be stale at once.
    pub open spec fn wf(&self) -> bool {
        self.pong_timeout_ms > 0
    }

    /// Time since the last acknowledgment; zero for a clock reading before it.
    pub open spec fn elapsed(&self, now_ms: u64) -> nat {
        if now_ms >= self.last_pong_at_ms {
            (now_ms - self.last_pong_at_ms) as nat
        } else {
            0
        }
    }

    pub open spec fn stale_at(&self, now_ms: u64) -> bool {
        self.elapsed(now_ms) >= self.pong_timeout_ms
    }

    /// A fresh state at `now_ms`, with the standard period and timeout.
    pub fn new(now_ms: u64) -> (r: LivenessState)
        ensures
            r.wf(),
            r.ping_interval_ms == PING_INTERVAL_MS,
            r.pong_timeout_ms == PONG_TIMEOUT_MS,
            r.last_pong_at_ms == now_ms,
    {
        LivenessState {
            ping_interval_ms: PING_INTERVAL_MS,
            pong_timeout_ms: PONG_TIMEOUT_MS,
            last_pong_at_ms: now_ms,
        }
    }

    /// A fresh state at `now_ms` with the given period and timeout.
    pub fn with_timing(ping_interval_ms: u64, pong_timeout_ms: u64, now_ms: u64) -> (r: LivenessState)
        requires
            pong_timeout_ms > 0,
        ensures
            r.wf(),
            r.ping_interval_ms == ping_interval_ms,
            r.pong_timeout_ms == pong_timeout_ms,
            r.last_pong_at_ms == now_ms,
    {
        LivenessState { ping_interval_ms, pong_timeout_ms, last_pong_at_ms: now_ms }
    }

    /// Records a heartbeat acknowledgment seen at `now_ms`. The time of the
    /// last acknowledgment never moves back.
    pub fn record_pong(&mut self, now_ms: u64)
        ensures
            final(self).ping_interval_ms == old(self).ping_interval_ms,
            final(self).pong_timeout_ms == old(self).pong_timeout_ms,
            final(self).last_pong_at_ms == if now_ms >= old(self).last_pong_at_ms {
                now_ms
            } else {
                old(self).last_pong_at_ms
            },
            final(self).last_pong_at_ms >= old(self).last_pong_at_ms,
    {
        if now_ms >= self.last_pong_at_ms {
            self.last_pong_at_ms = now_ms;
        }
    }

    /// Whether no acknowledgment has been seen for the timeout or longer.
    pub fn is_stale(&self, now_ms: u64) -> (r: bool)
        ensures
            r == self.stale_at(now_ms),
    {
        if now_ms >= self.last_pong_at_ms {
            now_ms - self.last_pong_at_ms >= self.pong_timeout_ms
        } else {
            self.pong_timeout_ms == 0
        }
    }
}

/// Right after an acknowledgment is recorded the session is not stale, however
/// old the previous acknowledgment was.
pub proof fn lemma_pong_refreshes(before: LivenessState, after: LivenessState, now_ms: u64)
    requires
        before.wf(),
        after.pong_timeout_ms == before.pong_timeout_ms,
        after.last_pong_at_ms == if now_ms >= before.last_pong_at_ms {
            now_ms
        } else {
            before.last_pong_at_ms
        },
    ensures
        !after.stale_at(now_ms),
        after.last_pong_at_ms >= before.last_pong_at_ms,
{
}

/// Once the timeout has passed without an acknowledgment the session is stale.
pub proof fn lemma_silence_is_stale(s: LivenessState, now_ms: u64)
    requires
        now_ms >= s.last_pong_at_ms,
        now_ms - s.last_pong_at_ms >= s.pong_timeout_ms,
    ensures
        s.stale_at(now_ms),
{
}

} // verus!
