//! Protocol layer of a command-line client for a lighting bridge on the local
//! network: what to send to the bridge, how to read what comes back, and how
//! friendly names map to the addresses the bridge understands.

pub mod alias;
pub mod brightness;
pub mod config;
pub mod discovery;
pub mod envelope;
pub mod exchange;
pub mod inventory;
pub mod json;
pub mod pairing;
pub mod probe;
pub mod session;
pub mod state;
pub mod text;
