//! Verified core of an MPRIS-to-MQTT adapter: capability probing,
//! command decisions and the adapter's publication rules.
pub mod adapter;
pub mod commands;
pub mod playerctl;
pub mod probe;
pub mod text;
pub mod types;
