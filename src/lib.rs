//! Authenticated chat over a shared publish/subscribe topic: packet framing,
//! signed messages, the registry of announced peers and the protocol engine.

pub mod commands;
pub mod data_client;
pub mod mqtt_controller;
pub mod packets;
pub mod registry;
pub mod signing;
pub mod utils;
