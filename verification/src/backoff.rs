//! Exponential-backoff state for the connection supervisor.
//!
//! A `BackoffState` tracks one connection-establishment sequence: how many
//! attempts have failed so far and how long to sleep before the next attempt.
//! The delay doubles after every failed attempt (saturating at `u64::MAX`
//! milliseconds), and the sequence is exhausted once the attempt count reaches
//! the configured maximum.

use vstd::prelude::*;
use vstd::arithmetic::power2::pow2;
use vstd::arithmetic::power2::lemma_pow2_unfold;

verus! {

/// Backoff bookkeeping for one connection-establishment sequence:
/// `attempt` failed attempts so far, and a sleep of `delay_ms` milliseconds
/// due before the next attempt.
#[derive(Clone, Copy, Debug, PartialEq, Eq, Structural)]
pub struct BackoffState {
    pub attempt: u32,
    pub delay_ms: u64,
}

/// The delay doubled, saturating at `u64::MAX`.
pub open spec fn spec_doubled(d: u64) -> u64 {
    if d <= u64::MAX / 2 {
        (2 * d) as u64
    } else {
        u64::MAX
    }
}

impl BackoffState {
    /// The state after one more failed attempt: the attempt count goes up by
    /// one and the delay doubles.
    pub open spec fn spec_next(self) -> BackoffState {
        BackoffState { attempt: (self.attempt + 1) as u32, delay_ms: spec_doubled(self.delay_ms) }
    }

    /// Whether the sequence has used up all `max_retries` attempts.
    pub open spec fn spec_exhausted(self, max_retries: u32) -> bool {
        self.attempt >= max_retries
    }

    /// A fresh sequence: no attempts made, initial delay as configured.
    pub fn new(initial_delay_ms: u64) -> (s: Self)
        ensures
            s.attempt == 0,
            s.delay_ms == initial_delay_ms,
    {
        BackoffState { attempt: 0, delay_ms: initial_delay_ms }
    }

    /// Record one failed attempt: increment the attempt count and double the
    /// delay for the next sleep.
    pub fn next(&mut self)
        requires
            old(self).attempt < u32::MAX,
        ensures
            *final(self) == old(self).spec_next(),
    {
        self.attempt = self.attempt + 1;
        if self.delay_ms <= u64::MAX / 2 {
            self.delay_ms = 2 * self.delay_ms;
        } else {
            self.delay_ms = u64::MAX;
        }
    }

    /// Whether the sequence has used up all `max_retries` attempts.
    pub fn exhausted(&self, max_retries: u32) -> (r: bool)
        ensures
            r == self.spec_exhausted(max_retries),
    {
        self.attempt >= max_retries
    }
}

/// The backoff state reached from a fresh sequence with initial delay `d0`
/// after `n` failed attempts.
pub open spec fn backoff_after(d0: u64, n: nat) -> BackoffState
    decreases n,
{
    if n == 0 {
        BackoffState { attempt: 0, delay_ms: d0 }
    } else {
        backoff_after(d0, (n - 1) as nat).spec_next()
    }
}

/// The delays of a backoff sequence with initial delay `d0` are
/// `d0, 2*d0, 4*d0, ...`: as long as the doubling does not saturate, the
/// delay slept before attempt `n + 1` is exactly `d0 * 2^n`, and the
/// sequence is exhausted precisely once `max_retries` attempts have failed
/// (never one more, never one fewer).
pub proof fn lemma_backoff_sequence(d0: u64, n: nat, max_retries: u32)
    requires
        n <= u32::MAX,
        d0 * pow2(n) <= u64::MAX,
    ensures
        backoff_after(d0, n).attempt == n,
        backoff_after(d0, n).delay_ms == d0 * pow2(n),
        backoff_after(d0, n).spec_exhausted(max_retries) <==> n >= max_retries,
    decreases n,
{
    if n == 0 {
        assert(pow2(0) == 1) by {
            vstd::arithmetic::power2::lemma2_to64();
        }
    } else {
        lemma_pow2_unfold(n);
        assert(pow2(n) == 2 * pow2((n - 1) as nat));
        assert(d0 * pow2((n - 1) as nat) <= u64::MAX) by {
            assert(d0 * pow2(n) == 2 * (d0 * pow2((n - 1) as nat))) by (nonlinear_arith)
                requires
                    pow2(n) == 2 * pow2((n - 1) as nat),
            ;
        }
        lemma_backoff_sequence(d0, (n - 1) as nat, max_retries);
        assert(d0 * pow2(n) == 2 * (d0 * pow2((n - 1) as nat))) by (nonlinear_arith)
            requires
                pow2(n) == 2 * pow2((n - 1) as nat),
        ;
    }
}

} // verus!
