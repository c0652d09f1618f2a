//! The connection supervisor for the message bus.
//!
//! Before each poll cycle the supervisor drives the transport connection
//! through `Disconnected -> Connecting -> Connected -> Disconnected`,
//! retrying failed connect attempts with exponential backoff and giving up
//! for the cycle — never crashing — once the configured attempt budget is
//! spent. The caller performs the actual connect, sleep and disconnect; the
//! supervisor makes every decision.

use vstd::prelude::*;
use crate::backoff::BackoffState;

verus! {

/// Where the supervisor stands with the bus connection.
#[derive(Clone, Copy, Debug, PartialEq, Eq, Structural)]
pub enum ConnectionPhase {
    Disconnected,
    Connecting,
    Connected,
}

/// What the caller must do next after reporting a connect attempt.
#[derive(Clone, Copy, Debug, PartialEq, Eq, Structural)]
pub enum SupervisorAction {
    /// The connection is live: run the cycle's fetch-and-publish tasks.
    RunCycle,
    /// Sleep for the given number of milliseconds, then try to connect
    /// again.
    SleepThenRetry(u64),
    /// The attempt budget is spent: skip this cycle entirely and publish
    /// nothing.
    SkipCycle,
}

/// The connection supervisor for one process: the phase of the current
/// connection, the backoff state of the current attempt sequence, and the
/// configured retry policy.
#[derive(Clone, Copy, Debug, PartialEq, Eq, Structural)]
pub struct Supervisor {
    pub phase: ConnectionPhase,
    pub backoff: BackoffState,
    pub max_retries: u32,
    pub initial_backoff_ms: u64,
}

impl Supervisor {
    /// A fresh supervisor with the configured retry policy, disconnected.
    pub fn new(max_retries: u32, initial_backoff_ms: u64) -> (s: Self)
        ensures
            s.phase == ConnectionPhase::Disconnected,
            s.backoff.attempt == 0,
            s.backoff.delay_ms == initial_backoff_ms,
            s.max_retries == max_retries,
            s.initial_backoff_ms == initial_backoff_ms,
    {
        Supervisor {
            phase: ConnectionPhase::Disconnected,
            backoff: BackoffState::new(initial_backoff_ms),
            max_retries,
            initial_backoff_ms,
        }
    }

    /// Begin a cycle's connection sequence: a fresh attempt sequence with
    /// the backoff reset to the configured initial delay.
    pub fn start_cycle(&mut self)
        ensures
            final(self).phase == ConnectionPhase::Connecting,
            final(self).backoff.attempt == 0,
            final(self).backoff.delay_ms == old(self).initial_backoff_ms,
            final(self).max_retries == old(self).max_retries,
            final(self).initial_backoff_ms == old(self).initial_backoff_ms,
    {
        self.phase = ConnectionPhase::Connecting;
        self.backoff = BackoffState::new(self.initial_backoff_ms);
    }

    /// Report the outcome of one connect attempt and learn what to do next.
    ///
    /// On success the supervisor is connected and the backoff state is
    /// reset. On failure it either orders a sleep of the current delay
    /// followed by another attempt — doubling the delay for the next round —
    /// or, once exactly `max_retries` attempts have failed, orders the cycle
    /// skipped; it never orders more attempts than that.
    pub fn on_connect_result(&mut self, success: bool) -> (a: SupervisorAction)
        requires
            old(self).phase == ConnectionPhase::Connecting,
            old(self).backoff.attempt < u32::MAX,
        ensures
            final(self).max_retries == old(self).max_retries,
            final(self).initial_backoff_ms == old(self).initial_backoff_ms,
            success ==> a == SupervisorAction::RunCycle
                && final(self).phase == ConnectionPhase::Connected
                && final(self).backoff.attempt == 0
                && final(self).backoff.delay_ms == old(self).initial_backoff_ms,
            !success ==> final(self).backoff == old(self).backoff.spec_next(),
            !success && old(self).backoff.attempt + 1 < old(self).max_retries
                ==> a == SupervisorAction::SleepThenRetry(old(self).backoff.delay_ms)
                && final(self).phase == ConnectionPhase::Connecting,
            !success && old(self).backoff.attempt + 1 >= old(self).max_retries
                ==> a == SupervisorAction::SkipCycle
                && final(self).phase == ConnectionPhase::Disconnected,
    {
        if success {
            self.phase = ConnectionPhase::Connected;
            self.backoff = BackoffState::new(self.initial_backoff_ms);
            SupervisorAction::RunCycle
        } else {
            let delay_before_doubling = self.backoff.delay_ms;
            self.backoff.next();
            if self.backoff.exhausted(self.max_retries) {
                self.phase = ConnectionPhase::Disconnected;
                SupervisorAction::SkipCycle
            } else {
                SupervisorAction::SleepThenRetry(delay_before_doubling)
            }
        }
    }

    /// End-of-cycle disconnect, best-effort: whatever the disconnect itself
    /// did, the supervisor is disconnected and ready for the next cycle's
    /// fresh attempt sequence.
    pub fn end_cycle(&mut self)
        requires
            old(self).phase == ConnectionPhase::Connected,
        ensures
            final(self).phase == ConnectionPhase::Disconnected,
            final(self).max_retries == old(self).max_retries,
            final(self).initial_backoff_ms == old(self).initial_backoff_ms,
            final(self).backoff == old(self).backoff,
    {
        self.phase = ConnectionPhase::Disconnected;
    }
}

} // verus!
