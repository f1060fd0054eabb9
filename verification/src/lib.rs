//! Verified goal bookkeeping for a ROS 2 action server, and a bounded
//! drop-oldest queue matching ROS depth QoS.
//!
//! The library holds the decisions of the action protocol as plain values:
//! which goals exist and in which state, when they expire, which goals a
//! cancel request selects, and what a result request is answered. Transport,
//! locking and clocks stay with the caller, which hands the library the
//! current time and the requests it received.

pub mod error;
pub mod ids;
pub mod id_map;
pub mod queue;
pub mod state;
pub mod messages;
pub mod model;
pub mod server;
pub mod handle;
pub mod builder;
pub mod driver;
pub mod compat;
pub mod laws;
