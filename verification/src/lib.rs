//! The decision core of a market-data push server, verified with Verus.
//!
//! The server distributes a time-indexed feed of records to a bounded set
//! of TCP subscribers on a fixed cadence, while a small HTTP control plane
//! answers snapshot queries and subscription handshakes. The long-running
//! loops and their I/O live outside this crate; what stands here, with
//! contracts, is everything those loops decide over plain values:
//!
//! - [`registry`]: the shared collection of subscribers — a strict
//!   capacity bound on admission, and exact pruning of failed writes;
//! - [`server`]: snapshot selection by elapsed time, subscriber
//!   admission, broadcast deadline accounting, and HTTP routing;
//! - [`logger`]: the asynchronous logger's message model and rendering,
//!   with a per-handle history of what was enqueued;
//! - [`client`]: the subscribing side's vocabulary — strategies,
//!   decisions, request paths, and the push-port parse;
//! - [`html`]: request paths split and rendered, with round-trip laws;
//! - [`text`]: decimal rendering and parsing, and whitespace trimming.

pub mod client;
pub mod html;
pub mod logger;
pub mod registry;
pub mod server;
pub mod text;
