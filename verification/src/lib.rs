//! Core of a webhook-facing gateway: signed-request authentication,
//! session-bound OAuth2 state validation, and a registry that routes
//! follow-up events to the task waiting for them.
//!
//! Everything that touches the wire is handled as bytes. The embedding
//! program performs the I/O (reading bodies, talking to the session store
//! and to the remote identity provider) and feeds the results back in.

pub mod auth;
pub mod binding;
pub mod cookie;
pub mod dispatcher;
pub mod encoding;
pub mod fields;
pub mod lobby;
pub mod registry;
pub mod router;
pub mod session;
pub mod signature;
pub mod store;
