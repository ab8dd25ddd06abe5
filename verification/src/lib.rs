//! Control plane of a distributed real-time I/O fabric: link bring-up,
//! serialized request/reply transactions, destination liveness survey,
//! chunked bulk transfers and asynchronous error aggregation.
//!
//! The library performs no I/O. Every operation is a transition from a state
//! and an observed event to the next state and the action to perform; the
//! embedding firmware performs the action and hands the next event back.

pub mod chunk;
pub mod packet;
pub mod transact;
pub mod errors;
pub mod routing;
pub mod survey;
pub mod link;
pub mod bulk;
pub mod device_map;
pub mod message;
pub mod fabric;
