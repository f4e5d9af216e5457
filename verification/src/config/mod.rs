//! The configuration: its shape, its defaults, and when it is in order.

pub mod defaults;
pub mod migrate;
pub mod types;
pub mod validate;
