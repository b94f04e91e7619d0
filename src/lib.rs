//! Elimination-tournament engine: bracket pairing, vote intake with
//! deduplication, round advancement, invite-gated admission, and the
//! per-tournament fan-out of live events.

// Identities, and what only the machine can supply.
pub mod ids;
pub mod runtime;
pub mod text;

// The bracket and voting engine.
pub mod model;
pub mod voting;
pub mod bracket;
pub mod engine;
pub mod invites;
pub mod responses;
pub mod laws;

// Live viewers.
pub mod events;
pub mod broadcaster;
pub mod auth;
pub mod guards;
pub mod websocket;

// The service around the engine.
pub mod error;
pub mod pagination;
pub mod route;
pub mod health;
pub mod spa;
pub mod config;
pub mod users;
