//! Light that follows the day.

pub mod curve;
pub mod engine;
