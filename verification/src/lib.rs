//! Runtime for functions that are defined once and called across a process
//! boundary: as a request/response call, as a stream pushed by the server, or
//! as a stream in both directions.
//!
//! Everything here is plain computation on plain values. Sockets, timers and
//! task scheduling belong to the host program, which feeds events in and
//! carries out the actions that come back.
//!
//! - `error`, `wire`: the errors a call can end in, and how they travel.
//! - `reconnect`, `connection`, `link`: when to retry, the life of one
//!   streaming connection, and the conduct of the task that owns it.
//! - `mailbox`, `sse`, `ws`, `socket`: what a polling caller holds, and what
//!   arrivals on a stream call for.
//! - `context`, `headers`, `scope`: what a handler learns about its request,
//!   and the values injected for it.
//! - `path`, `descriptor`, `registry`: endpoint paths, the description of a
//!   function, and the table of what is served.
//! - `engine`, `event`, `client`: the response to an invocation, the events
//!   of a stream, and the outcome of a call.
//! - `text`: the vocabulary over character sequences the contracts use.
//! - `demo`: a few functions to serve.

pub mod client;
pub mod connection;
pub mod context;
pub mod demo;
pub mod descriptor;
pub mod engine;
pub mod error;
pub mod event;
pub mod headers;
pub mod link;
pub mod mailbox;
pub mod path;
pub mod prelude;
pub mod reconnect;
pub mod registry;
pub mod scope;
pub mod socket;
pub mod sse;
pub mod text;
pub mod wire;
pub mod ws;
