//! Latency-measurement server library.
//!
//! The crate holds the verified core of a benchmarking server: the
//! percentile statistics engine, the monotonic clock discipline, the
//! length-prefixed echo protocol, the TLS material resolver, and the
//! structured RPC operations. Network plumbing lives outside, in an
//! ordinary binary that calls into this library.

pub mod clock;
pub mod echo;
pub mod rpc;
pub mod stats;
pub mod tls;
