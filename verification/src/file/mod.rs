//! File operations that the agent carries out.
//!
//! [`layer::FileLayer`] knows which local descriptors stand for remote files.
//! An operation that is one request to the agent comes in two parts: one says
//! what to send, the other what the answer means. An operation that takes more
//! is a small machine: it names an [`action::Action`], and goes on with the
//! [`action::Event`] that came of it.

pub mod action;
pub mod effects;
pub mod io;
pub mod laws;
pub mod layer;
pub mod local_file;
pub mod open;
pub mod stat;
