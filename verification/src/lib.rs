//! Realtime core of a small chat backend: the connection hub with its
//! presence model, the per-connection session, the wire envelope, and the
//! request rules of the HTTP surface, each with a machine-checked contract.

pub mod api;
pub mod clock;
pub mod credentials;
pub mod delivery;
pub mod envelope;
pub mod events;
pub mod giphy;
pub mod hex;
pub mod identity;
pub mod json;
pub mod laws;
pub mod pagination;
pub mod presence;
pub mod reactions;
pub mod signature;
pub mod socket_session;
pub mod text;
pub mod tokens;
pub mod validation;
pub mod ws_server;
