//! A bridge between one HTTP endpoint and one TCP service.
//!
//! A `PUT /stream` request opens a tunnel: the request body is relayed to a
//! TCP connection and what the connection sends back becomes the response
//! body. This crate holds the decisions of that bridge as state machines over
//! plain values. A driver performs the I/O: it feeds each machine the events
//! it observes and carries out the commands it gets back.

pub mod inbound;
pub mod outbound;
pub mod phase;
pub mod relay;
pub mod route;
pub mod session;
