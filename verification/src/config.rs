//! Time limits as durations.
//!
//! The settings live in one place that the program owns. Every operation
//! reads them when it starts, so a change is seen by the next operation and
//! by none that is already under way.

use std::time::Duration;
use vstd::prelude::*;

verus! {

/// The duration that `Duration::from_secs` makes of a number of seconds.
pub uninterp spec fn whole_seconds(secs: u64) -> Duration;

/// Calls `Duration::from_secs`, which makes the duration of that many whole
/// seconds.
#[verifier::external_body]
fn from_secs(secs: u64) -> (duration: Duration)
    ensures
        duration == whole_seconds(secs),
{
    Duration::from_secs(secs)
}

/// The time limits of a client.
#[derive(Debug, Copy, Clone, Eq, PartialEq)]
pub struct ClientConfig {
    /// How long connecting and the handshake together may take.
    pub connect_timeout: Duration,
    /// How long one receive may take.
    pub receive_timeout: Duration,
}

impl Default for ClientConfig {
    /// Ten seconds to connect, thirty to receive.
    fn default() -> (config: Self)
        ensures
            config.connect_timeout == whole_seconds(10),
            config.receive_timeout == whole_seconds(30),
    {
        ClientConfig { connect_timeout: from_secs(10), receive_timeout: from_secs(30) }
    }
}

/// Replaces the settings in `store` by `config`.
pub fn set_config(store: &mut ClientConfig, config: ClientConfig)
    ensures
        *final(store) == config,
{
    *store = config;
}

/// A copy of the settings in `store`.
pub fn get_config(store: &ClientConfig) -> (config: ClientConfig)
    ensures
        config == *store,
{
    *store
}

/// The limit on connecting that `store` holds.
pub fn get_connect_timeout(store: &ClientConfig) -> (timeout: Duration)
    ensures
        timeout == store.connect_timeout,
{
    store.connect_timeout
}

/// The limit on one receive that `store` holds.
pub fn get_receive_timeout(store: &ClientConfig) -> (timeout: Duration)
    ensures
        timeout == store.receive_timeout,
{
    store.receive_timeout
}

} // verus!
