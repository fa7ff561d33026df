//! Decision logic of a layer-4 reverse proxy: the one-way copy state machine,
//! the two-way pump that pairs two of them under an inactivity timer, the
//! upstream selector with its bounded retries, and the read-only
//! configuration they work on. All socket and timer work is left to the
//! caller, who reports what each attempt gave and is told what to do next.

pub mod consts;
pub mod copy;
pub mod transfer;
pub mod util;
pub mod config;
pub mod conn;
pub mod handler;
pub mod context;
