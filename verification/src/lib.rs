//! The decisions of a process layer that serves a local program's sockets and
//! files from a remote agent.
//!
//! - [`sockets`] keeps track of the sockets that the program made through the
//!   layer, and says what to write to them.
//! - [`file`] turns the program's file operations into requests to the agent,
//!   or leaves them to the system.
//!
//! Nothing here does I/O: an operation names the next thing to do, and takes
//! back what came of it.

pub mod detour;
pub mod file;
pub mod path;
pub mod path_laws;
pub mod platform;
pub mod protocol;
pub mod sockets;
pub mod text;
