//! An interactive intercepting HTTP proxy, modelled as a verified library.
//!
//! A local listener accepts inbound HTTP requests and suspends each one until
//! a human operator decides to forward it to the real origin or to drop it.
//! This crate holds the verified core of that pipeline: the captured
//! request/response data model, the one-shot decision and outcome handoff,
//! the connection-handler protocol, the dynamic response-waiter multiplexer,
//! the request registry with its tabs, and the operator input handling.
//! The network listener, the terminal, and the async runtime live outside the
//! library and drive it through these types.

pub mod app;
pub mod config;
pub mod input_state;
pub mod layout;
pub mod proxy;
pub mod request;
pub mod response_waiter;

use vstd::prelude::*;

verus! {

} // verus!
