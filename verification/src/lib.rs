//! Core of a multi-worker connection server.
//!
//! A supervisor binds listening sockets, an acceptor hands each accepted
//! connection to one of a pool of workers by round robin, and every worker
//! drives its services under a bounded in-flight connection budget with
//! pause, resume and graceful-stop control.
//!
//! The decision logic of every component lives here as verified state
//! machines over plain data; the surrounding runtime performs the socket
//! and channel operations and feeds their outcomes back in as events.

pub mod accept;
pub mod blocking;
pub mod builder;
pub mod connect;
pub mod counter;
pub mod service;
pub mod sys;
pub mod transform;
pub mod waker_queue;
pub mod worker;

use vstd::prelude::*;

verus! {

/// Dense identifier of a bound listener and of the service slot serving it.
#[derive(Clone, Copy, PartialEq, Eq, Structural, Debug)]
pub struct Token(pub usize);

} // verus!
