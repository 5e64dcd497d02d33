//! A deletion engine with the semantics of `rm`, for platforms on which a
//! read-only attribute blocks removal.
//!
//! The engine never touches the file system itself. Every operation is a small
//! state machine: it names the next [`Request`](protocol::Request) it needs
//! performed, is handed the [`Reply`](protocol::Reply), and moves on. The caller
//! owns the loop and the I/O; every decision is taken, and proved, here.

pub mod config;
pub mod protocol;
pub mod text;
pub mod error;
pub mod leaf;
pub mod engine;
pub mod order;
pub mod world;
pub mod estimate;
pub mod run;
