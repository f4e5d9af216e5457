//! Circadian light automation for Zigbee2MQTT: the rules that decide what every room's lights
//! should do, kept apart from the process that talks to the broker.

pub mod api;
pub mod automation;
pub mod calibration;
pub mod circadian;
pub mod clock;
pub mod config;
pub mod config_sync;
pub mod control;
pub mod daemon;
pub mod effect;
pub mod event;
pub mod init;
pub mod json;
pub mod laws;
pub mod lights_out;
pub mod mcp;
pub mod mqtt;
pub mod names;
pub mod naming;
pub mod night_mode;
pub mod report;
pub mod schedule;
pub mod state;
pub mod text;
pub mod time;
