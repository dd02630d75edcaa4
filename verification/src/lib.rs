//! Verified core of a queue-to-HTTP forwarding bridge.
//!
//! The crate models the decision logic of a streaming proxy: records are
//! pulled from a partitioned log in batches, fanned out to a bounded worker
//! pool that forwards each payload to an HTTP destination with bounded
//! retry, and the batch's offsets are committed only after every record has
//! been handled.  Records whose delivery is exhausted are routed, byte for
//! byte, to a dead-letter sink when one is configured, and dropped with an
//! explicit decision otherwise.
//!
//! Transport (queue client, HTTP client, worker threads, sleeping between
//! attempts) lives outside this crate; the functions here take transport
//! outcomes as arguments and decide what happens next, so every decision is
//! verified for every outcome the transport can produce.

pub mod application;
pub mod backoff;
pub mod config;
pub mod delivery;
pub mod handler;
pub mod pool;
pub mod proxy;
