//! Presence tracking for a Discord community: the data model, the decoding of
//! gateway payloads, the in-memory presence and key/value store, and the
//! decisions of the gateway and websocket sessions.

pub mod commands;
pub mod config;
pub mod gateway;
pub mod json;
pub mod laws;
pub mod models;
pub mod payload;
pub mod reading_laws;
pub mod requests;
pub mod routes;
pub mod socket;
pub mod state;
pub mod strmap;
pub mod text;
