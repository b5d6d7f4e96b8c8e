//! Core logic of a synthetic signal source: a background worker that
//! fabricates positional signal events on a randomized schedule, records
//! each one in a persistence store, and forwards it to a downstream
//! consumer over HTTP.
//!
//! This crate holds the verified decision logic of that worker: signal
//! generation, the readiness gate that delays startup until the consumer
//! is healthy, the consecutive-failure governor that stops a persistently
//! failing loop, the tiered delay scheduler, the health evaluation, the
//! startup configuration rules, and the framing of the outbound request
//! body. The surrounding process (HTTP server, storage driver, clocks and
//! sleeps) performs the I/O and feeds its outcomes to these functions.

mod rng;

pub mod clock;
pub mod gate;
pub mod governor;
pub mod health;
pub mod json;
pub mod mongo;
pub mod scheduler;
pub mod signal;
pub mod signal_loop;
