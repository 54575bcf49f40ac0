//! Verified decision logic of an MQTT client and connection manager for embassy.
//!
//! Nothing in this crate waits, reads a clock or touches a network. Each operation is a
//! chain of steps: a step takes what the outside world answered, and returns what is to
//! be done next together with the step that takes the answer to that.

pub mod address;
pub mod client_laws;
pub mod error;
pub mod manager_laws;
pub mod manager_model;
pub mod message;
pub mod mqtt_manager;
pub mod packet_bin;
pub mod poll_client;
pub mod step;
pub mod time;
