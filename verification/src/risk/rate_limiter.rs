//! Token bucket of the order rate limiter.
//!
//! Tokens are kept in thousandths. A request for `n` orders takes `n` tokens when the
//! bucket holds them and is rejected otherwise; refills add tokens up to the burst
//! capacity. How many tokens a refill adds (from the elapsed time and the refill rate)
//! is worked out by the caller.
use vstd::prelude::*;

verus! {

/// Thousandths of a token per token.
pub const TOKEN_SCALE: u64 = 1000;

/// Token bucket with request counters; every counter wraps around on overflow.
#[derive(Clone, Copy, PartialEq, Eq, Structural, Debug)]
pub struct TokenBucket {
    /// Tokens available, in thousandths.
    pub tokens: u64,
    /// Capacity, in thousandths.
    pub max_tokens: u64,
    pub total_requests: u64,
    pub total_allowed: u64,
    pub total_rejected: u64,
}

/// Bucket after a request for `n` orders: with enough tokens they are taken and the
/// request is allowed, otherwise it is rejected; either way it is counted.
pub open spec fn spec_allow_n(b: TokenBucket, n: u64) -> (TokenBucket, bool) {
    let needed = n * TOKEN_SCALE;
    let counted = TokenBucket { total_requests: b.total_requests.wrapping_add(1), ..b };
    if b.tokens < needed {
        (TokenBucket { total_rejected: b.total_rejected.wrapping_add(1), ..counted }, false)
    } else {
        (TokenBucket { tokens: (b.tokens - needed) as u64, total_allowed: b.total_allowed.wrapping_add(1), ..counted }, true)
    }
}

/// Bucket after adding `added` thousandths of a token, up to the capacity.
pub open spec fn spec_refill(b: TokenBucket, added: u64) -> TokenBucket {
    if added == 0 {
        b
    } else {
        let sum = b.tokens + added;
        TokenBucket { tokens: if sum < b.max_tokens { sum as u64 } else { b.max_tokens }, ..b }
    }
}

impl TokenBucket {
    /// A full bucket of `burst_capacity` tokens, nothing counted.
    pub fn new(burst_capacity: u64) -> (b: Self)
        requires
            burst_capacity * TOKEN_SCALE <= u64::MAX,
        ensures
            b == (TokenBucket {
                tokens: (burst_capacity * TOKEN_SCALE) as u64,
                max_tokens: (burst_capacity * TOKEN_SCALE) as u64,
                total_requests: 0,
                total_allowed: 0,
                total_rejected: 0,
            }),
    {
        let initial = burst_capacity * TOKEN_SCALE;
        TokenBucket { tokens: initial, max_tokens: initial, total_requests: 0, total_allowed: 0, total_rejected: 0 }
    }

    /// Handles a request for `n` orders (see [`spec_allow_n`]); tells whether it is allowed.
    pub fn allow_n(&mut self, n: u64) -> (r: bool)
        requires
            n * TOKEN_SCALE <= u64::MAX,
        ensures
            (*final(self), r) == spec_allow_n(*old(self), n),
    {
        self.total_requests = self.total_requests.wrapping_add(1);
        let needed = n * TOKEN_SCALE;
        if self.tokens < needed {
            self.total_rejected = self.total_rejected.wrapping_add(1);
            false
        } else {
            self.tokens = self.tokens - needed;
            self.total_allowed = self.total_allowed.wrapping_add(1);
            true
        }
    }

    /// Handles a request for one order.
    pub fn allow(&mut self) -> (r: bool)
        ensures
            (*final(self), r) == spec_allow_n(*old(self), 1),
    {
        self.allow_n(1)
    }

    /// Adds `added` thousandths of a token, up to the capacity (see [`spec_refill`]).
    pub fn refill(&mut self, added: u64)
        ensures
            *final(self) == spec_refill(*old(self), added),
    {
        if added > 0 {
            let sum = self.tokens.saturating_add(added);
            self.tokens = if sum < self.max_tokens { sum } else { self.max_tokens };
        }
    }

    /// Whole tokens available.
    pub fn available_tokens(&self) -> (r: u64)
        ensures
            r == self.tokens / TOKEN_SCALE,
    {
        self.tokens / TOKEN_SCALE
    }

    /// Clears the request counters; the tokens stay.
    pub fn reset_stats(&mut self)
        ensures
            *final(self) == (TokenBucket { total_requests: 0, total_allowed: 0, total_rejected: 0, ..*old(self) }),
    {
        self.total_requests = 0;
        self.total_allowed = 0;
        self.total_rejected = 0;
    }
}

/// The bucket never holds more than its capacity: requests and refills keep the
/// tokens at or below it.
pub proof fn lemma_tokens_within_capacity(b: TokenBucket, n: u64, added: u64)
    requires
        b.tokens <= b.max_tokens,
    ensures
        spec_allow_n(b, n).0.tokens <= spec_allow_n(b, n).0.max_tokens,
        spec_refill(b, added).tokens <= spec_refill(b, added).max_tokens,
{
}

/// Every request is either allowed or rejected: while no counter wraps around, the
/// allowed and rejected requests add up to all requests.
pub proof fn lemma_requests_accounted(b: TokenBucket, n: u64)
    requires
        b.total_allowed + b.total_rejected == b.total_requests,
        b.total_requests < u64::MAX,
    ensures
        spec_allow_n(b, n).0.total_allowed + spec_allow_n(b, n).0.total_rejected == spec_allow_n(b, n).0.total_requests,
{
}

/// A full bucket of `burst` tokens allows `burst` single-order requests in a row and
/// then rejects the next one until it is refilled.
pub proof fn lemma_burst_then_throttle(burst: u64, k: nat)
    requires
        burst * TOKEN_SCALE <= u64::MAX,
        k <= burst,
    ensures
        ({
            let b = TokenBucket {
                tokens: ((burst - k) * TOKEN_SCALE) as u64,
                max_tokens: (burst * TOKEN_SCALE) as u64,
                total_requests: 0,
                total_allowed: 0,
                total_rejected: 0,
            };
            &&& k < burst ==> spec_allow_n(b, 1).1
            &&& k < burst ==> spec_allow_n(b, 1).0.tokens == (burst - k - 1) * TOKEN_SCALE
            &&& k == burst ==> !spec_allow_n(b, 1).1
        }),
{
}

} // verus!
