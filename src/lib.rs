//! Decision logic of a ping interoperability node: which peers have been
//! seen, when a wait is over, and how a test scenario proceeds from its
//! configuration to success, failure or timeout.
//!
//! Everything that touches the network, the clock or the coordination
//! service is left to the caller, which feeds the outcomes back in.

pub mod peers;
pub mod address;
pub mod node;
pub mod config;
pub mod driver;
pub mod laws;
