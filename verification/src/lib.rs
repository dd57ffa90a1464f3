//! A dead simple one-shot single producer, multiple consumer (SPMC) channel.
//!
//! One sender transmits exactly one value; any number of receiver duplicates
//! may observe that same value, either by non-blocking polling or by
//! registering a wake handle and being notified when the value arrives.

pub mod shotgun;
