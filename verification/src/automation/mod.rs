//! What rooms do about motion, remotes, and the automations of the configuration.

pub mod action;
pub mod condition;
pub mod engine;
pub mod remote;
pub mod trigger;
