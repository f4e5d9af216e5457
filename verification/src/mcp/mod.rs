//! The tools that agents control the lights with.

pub mod server;
pub mod texts;
pub mod tools;
