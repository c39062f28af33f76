//! Routes MIDI controller messages to desktop actions.
//!
//! The library decodes raw controller messages, keeps the router's state
//! (active profile and active note layout), evaluates the bindings that hold
//! in every profile, dispatches to the active profile's handler, and drives
//! the device connection's life cycle as a state machine. Every side effect
//! is returned as a value for the caller to perform.
pub mod message;
pub mod layout;
pub mod profile;
pub mod action;
pub mod bindings;
pub mod profiles;
pub mod router;
pub mod connection;
pub mod steelseries_sonar_api;
