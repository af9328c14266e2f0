//! Time limits in whole seconds.
//!
//! The settings live in one place that the program owns. Every operation
//! reads them when it starts, so a change is seen by the next operation and
//! by none that is already under way.

use vstd::prelude::*;

verus! {

/// The time limits of a client.
#[derive(Debug, Clone, Copy)]
pub struct Configuration {
    /// How long connecting and the handshake together may take, in seconds.
    pub connect_sec: u64,
    /// How long one send or one receive may take, in seconds.
    pub idle_sec: u64,
}

impl Default for Configuration {
    /// Thirty seconds for either limit.
    fn default() -> (config: Self)
        ensures
            config.connect_sec == 30,
            config.idle_sec == 30,
    {
        Configuration { connect_sec: 30, idle_sec: 30 }
    }
}

/// Replaces the settings in `store` by `config`.
pub fn set_config(store: &mut Configuration, config: Configuration)
    ensures
        *final(store) == config,
{
    *store = config;
}

/// A copy of the settings in `store`.
pub fn get_config(store: &Configuration) -> (config: Configuration)
    ensures
        config == *store,
{
    *store
}

/// The limit on connecting that `store` holds.
pub fn get_connect_sec(store: &Configuration) -> (seconds: u64)
    ensures
        seconds == store.connect_sec,
{
    store.connect_sec
}

/// The limit on one send or receive that `store` holds.
pub fn get_idle_sec(store: &Configuration) -> (seconds: u64)
    ensures
        seconds == store.idle_sec,
{
    store.idle_sec
}

} // verus!
