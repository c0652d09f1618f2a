//! Configuration records for the bridge.
//!
//! The records are immutable plain values, built once at startup by the
//! caller; the library never reads the environment itself. Timeouts and
//! intervals are stored as integer counts and handed out as `Duration`
//! values through the trusted conversions below, since the standard
//! library's `Duration` is opaque here.

use vstd::prelude::*;
use core::time::Duration;

verus! {

/// The number of milliseconds a `Duration` holds.
pub uninterp spec fn duration_as_millis(d: Duration) -> nat;

/// Relies on `std::time::Duration::from_millis`: the resulting duration
/// holds exactly the given number of milliseconds.
#[verifier::external_body]
fn duration_from_millis(ms: u64) -> (d: Duration)
    ensures
        duration_as_millis(d) == ms,
{
    Duration::from_millis(ms)
}

/// Relies on `std::time::Duration::from_secs`: the resulting duration holds
/// exactly a thousand milliseconds per second given.
#[verifier::external_body]
fn duration_from_secs(secs: u64) -> (d: Duration)
    ensures
        duration_as_millis(d) == 1000 * secs,
{
    Duration::from_secs(secs)
}

/// Connection settings for the message bus.
#[derive(Clone, Debug)]
pub struct MqttConfig {
    pub host: String,
    pub username: String,
    pub password: String,
    pub connect_timeout_ms: u64,
    pub client_id: String,
}

impl MqttConfig {
    /// The configured connect timeout as a duration.
    pub fn connect_timeout(&self) -> (d: Duration)
        ensures
            duration_as_millis(d) == self.connect_timeout_ms,
    {
        duration_from_millis(self.connect_timeout_ms)
    }
}

/// Settings that govern the poll loop as a whole.
#[derive(Clone, Debug)]
pub struct GeneralConfig {
    pub refresh_interval_secs: u64,
    pub http_timeout_ms: u64,
    pub max_retries: u32,
    pub initial_backoff_ms: u64,
}

impl GeneralConfig {
    /// The configured tick period as a duration.
    pub fn refresh_interval(&self) -> (d: Duration)
        ensures
            duration_as_millis(d) == 1000 * self.refresh_interval_secs,
    {
        duration_from_secs(self.refresh_interval_secs)
    }

    /// The configured HTTP timeout as a duration.
    pub fn http_timeout(&self) -> (d: Duration)
        ensures
            duration_as_millis(d) == self.http_timeout_ms,
    {
        duration_from_millis(self.http_timeout_ms)
    }

    /// The configured first backoff delay as a duration.
    pub fn initial_backoff(&self) -> (d: Duration)
        ensures
            duration_as_millis(d) == self.initial_backoff_ms,
    {
        duration_from_millis(self.initial_backoff_ms)
    }
}

} // verus!
