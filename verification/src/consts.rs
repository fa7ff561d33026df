use vstd::prelude::*;

verus! {

/// How many times a failed dial is repeated for one inbound connection.
pub const TARGET_CONNECT_RETRIES: usize = 3;

/// Default time allowed for one dial, in milliseconds.
pub const TARGET_CONNECT_TIMEOUT_MS: u64 = 3_000;

/// Default time a connection may stay silent, in milliseconds.
pub const INACTIVITY_TIMEOUT_MS: u64 = 60_000;

/// Size of the buffer each copy direction owns, in bytes.
pub const DEFAULT_BUF_SIZE: usize = 8192;

} // verus!
