//! Sockets whose traffic comes from the agent.
//!
//! [`registry::Sockets`] keeps track of every socket that the local program
//! made through the layer. It works on stream handles: the streams themselves
//! belong to the caller, which reads and writes them as the registry says.

pub mod address;
pub mod collections;
pub mod effects;
pub mod laws;
pub mod model;
pub mod registry;
pub mod types;
