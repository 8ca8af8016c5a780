//! Integer token bucket.
//!
//! Time is a caller-supplied monotonic clock in milliseconds, so the bucket
//! itself is a pure state machine.

use vstd::prelude::*;

verus! {

/// Shortest interval, in milliseconds, after which a bucket refills.
pub const REFILL_GRANULARITY_MS: u64 = 50;

/// A token bucket that refills at `rps` tokens per second up to `capacity`.
#[derive(Debug, Clone, Copy, PartialEq, Eq, Structural)]
pub struct TokenBucket {
    rps: u32,
    capacity: u32,
    tokens: u32,
    last_ms: u64,
}

/// Tokens earned over `elapsed_ms` milliseconds at `rps` per second.
pub open spec fn earned(elapsed_ms: int, rps: int) -> int {
    elapsed_ms * rps / 1000
}

/// The smaller of two integers.
pub open spec fn min_int(a: int, b: int) -> int {
    if a <= b {
        a
    } else {
        b
    }
}

impl TokenBucket {
    /// Refill rate in tokens per second.
    pub closed spec fn spec_rps(self) -> int {
        self.rps as int
    }

    /// Largest number of tokens the bucket holds.
    pub closed spec fn spec_capacity(self) -> int {
        self.capacity as int
    }

    /// Tokens currently in the bucket.
    pub closed spec fn spec_tokens(self) -> int {
        self.tokens as int
    }

    /// Clock reading at the last refill that added tokens.
    pub closed spec fn spec_last_ms(self) -> int {
        self.last_ms as int
    }

    /// The bucket's invariant: a positive rate and capacity, and never more
    /// tokens than the capacity.
    pub open spec fn wf(self) -> bool {
        &&& self.spec_rps() >= 1
        &&& self.spec_capacity() >= 1
        &&& 0 <= self.spec_tokens() <= self.spec_capacity()
    }

    /// Milliseconds between the last refill and `now_ms`; zero when the
    /// clock reads earlier than the last refill.
    pub open spec fn elapsed(self, now_ms: u64) -> int {
        if now_ms >= self.spec_last_ms() {
            now_ms - self.spec_last_ms()
        } else {
            0
        }
    }

    /// Whether a refill at `now_ms` changes the bucket: at least the
    /// granularity has passed and at least one token was earned.
    pub open spec fn refill_due(self, now_ms: u64) -> bool {
        self.elapsed(now_ms) >= REFILL_GRANULARITY_MS && earned(
            self.elapsed(now_ms),
            self.spec_rps(),
        ) > 0
    }

    /// Tokens in the bucket after a refill at `now_ms`.
    pub open spec fn tokens_after_refill(self, now_ms: u64) -> int {
        if self.refill_due(now_ms) {
            min_int(
                self.spec_capacity(),
                self.spec_tokens() + earned(self.elapsed(now_ms), self.spec_rps()),
            )
        } else {
            self.spec_tokens()
        }
    }

    /// Clock reading that the bucket remembers after a refill at `now_ms`.
    pub open spec fn last_after_refill(self, now_ms: u64) -> int {
        if self.refill_due(now_ms) {
            now_ms as int
        } else {
            self.spec_last_ms()
        }
    }

    /// Whether a request at `now_ms` is admitted: a token is left after the
    /// refill.
    pub open spec fn admits(self, now_ms: u64) -> bool {
        self.tokens_after_refill(now_ms) > 0
    }

    /// Whether `next` is this bucket after a request at `now_ms`: refilled,
    /// and one token down if the request was admitted.
    pub open spec fn after_allow(self, now_ms: u64, next: TokenBucket) -> bool {
        &&& next.wf()
        &&& next.spec_rps() == self.spec_rps()
        &&& next.spec_capacity() == self.spec_capacity()
        &&& next.spec_last_ms() == self.last_after_refill(now_ms)
        &&& next.spec_tokens() == self.tokens_after_refill(now_ms) - (if self.admits(now_ms) {
            1int
        } else {
            0int
        })
    }

    /// A full bucket. A rate or burst of zero is raised to one.
    pub fn new(rps: u32, burst: u32, now_ms: u64) -> (b: TokenBucket)
        ensures
            b.wf(),
            b.spec_rps() == (if rps == 0 { 1int } else { rps as int }),
            b.spec_capacity() == (if burst == 0 { 1int } else { burst as int }),
            b.spec_tokens() == b.spec_capacity(),
            b.spec_last_ms() == now_ms,
    {
        let rps = if rps == 0 { 1 } else { rps };
        let capacity = if burst == 0 { 1 } else { burst };
        TokenBucket { rps, capacity, tokens: capacity, last_ms: now_ms }
    }

    /// Tokens currently in the bucket.
    pub fn tokens(&self) -> (t: u32)
        ensures
            t == self.spec_tokens(),
    {
        self.tokens
    }

    /// Largest number of tokens the bucket holds.
    pub fn capacity(&self) -> (c: u32)
        ensures
            c == self.spec_capacity(),
    {
        self.capacity
    }

    /// Add the tokens earned since the last refill, up to the capacity.
    /// Nothing changes within the granularity or while no whole token has
    /// been earned.
    pub fn refill(&mut self, now_ms: u64)
        requires
            old(self).wf(),
        ensures
            final(self).wf(),
            final(self).spec_rps() == old(self).spec_rps(),
            final(self).spec_capacity() == old(self).spec_capacity(),
            final(self).spec_tokens() == old(self).tokens_after_refill(now_ms),
            final(self).spec_last_ms() == old(self).last_after_refill(now_ms),
    {
        let elapsed: u64 = if now_ms >= self.last_ms {
            now_ms - self.last_ms
        } else {
            0
        };
        if elapsed < REFILL_GRANULARITY_MS {
            return ;
        }
        assert((elapsed as int) * (self.rps as int) <= 0xffff_ffff_ffff_ffff * 0xffff_ffff)
            by (nonlinear_arith)
            requires
                0 <= elapsed <= 0xffff_ffff_ffff_ffff,
                0 <= self.rps <= 0xffff_ffff,
        ;
        let product: u128 = (elapsed as u128) * (self.rps as u128);
        let add: u128 = product / 1000;
        assert(add == earned(elapsed as int, self.rps as int));
        if add > 0 {
            let room: u32 = self.capacity - self.tokens;
            if add >= room as u128 {
                self.tokens = self.capacity;
            } else {
                self.tokens = self.tokens + add as u32;
            }
            self.last_ms = now_ms;
        }
    }

    /// Refill, then take one token if any is left. Returns whether the
    /// request is admitted.
    pub fn allow(&mut self, now_ms: u64) -> (ok: bool)
        requires
            old(self).wf(),
        ensures
            final(self).wf(),
            ok == old(self).admits(now_ms),
            final(self).spec_rps() == old(self).spec_rps(),
            final(self).spec_capacity() == old(self).spec_capacity(),
            final(self).spec_last_ms() == old(self).last_after_refill(now_ms),
            final(self).spec_tokens() == old(self).tokens_after_refill(now_ms) - (if ok {
                1int
            } else {
                0int
            }),
    {
        self.refill(now_ms);
        if self.tokens == 0 {
            return false;
        }
        self.tokens = self.tokens - 1;
        true
    }
}

} // verus!
