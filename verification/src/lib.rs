//! Readable messages for the errors of an X connection.
//!
//! An X server reports an error as a handful of numbers. The names behind
//! those numbers are kept by a registry outside this library. Given the names
//! that the registry has for an error, this library makes the message, keeps
//! track of the registry handle that a connection owns, and orders the steps
//! by which the registry itself is built.

pub mod context;
pub mod error;
pub mod pipeline;
pub mod text;
