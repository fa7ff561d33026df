//! Start-up parameters and the context every connection shares.

use vstd::prelude::*;
use crate::config::Config;
use crate::consts::{INACTIVITY_TIMEOUT_MS, TARGET_CONNECT_TIMEOUT_MS};

verus! {

/// The parameters given at start-up. A timeout left out takes its default.
#[derive(Debug, Clone)]
pub struct Cli {
    /// Path of the configuration file, or the configuration itself as JSON.
    pub config_path: String,
    pub target_connect_timeout_ms: Option<u64>,
    pub inactivity_timeout_ms: Option<u64>,
}

/// What the listeners and handlers of one process share, read-only.
#[derive(Debug, Clone)]
pub struct AppContext {
    pub cli: Cli,
    pub config: Config,
}

impl Cli {
    /// Time allowed for one dial, in milliseconds.
    pub fn target_connect_timeout(&self) -> (ms: u64)
        ensures
            self.target_connect_timeout_ms matches Some(given) ==> ms == given,
            self.target_connect_timeout_ms.is_none() ==> ms == TARGET_CONNECT_TIMEOUT_MS,
    {
        match self.target_connect_timeout_ms {
            Some(given) => given,
            None => TARGET_CONNECT_TIMEOUT_MS,
        }
    }

    /// Time a connection may stay silent, in milliseconds.
    pub fn inactivity_timeout(&self) -> (ms: u64)
        ensures
            self.inactivity_timeout_ms matches Some(given) ==> ms == given,
            self.inactivity_timeout_ms.is_none() ==> ms == INACTIVITY_TIMEOUT_MS,
    {
        match self.inactivity_timeout_ms {
            Some(given) => given,
            None => INACTIVITY_TIMEOUT_MS,
        }
    }
}

impl AppContext {
    pub fn new(cli: Cli, config: Config) -> (r: Self)
        ensures
            r.cli == cli,
            r.config == config,
    {
        AppContext { cli, config }
    }
}

} // verus!
