//! Request-dispatch core of a point-to-point RPC server.
//!
//! Incoming frames carry a routing key and a sequence number. The dispatcher
//! looks the key up in a routing table whose keys are proved unique, decodes
//! the payload as the matched endpoint's request type, runs the bound handler
//! under its registered execution flavor, and transmits the reply -- or a
//! keyed error frame -- through the single shared outbound resource.

pub mod codec;
pub mod context;
pub mod dispatch;
pub mod endpoints;
pub mod sender;
pub mod wire;
