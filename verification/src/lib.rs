//! Authentication and credential-verification core of a multi-tenant web
//! backend: a memoizing cache for hot identity data, session derivation from
//! a signed bearer token, a one-time passkey challenge registry, passkey
//! resolution, public-key assertion verification, and per-request message
//! signature verification.

pub mod assertion;
pub mod bytes;
pub mod cache;
pub mod cafe;
pub mod connection;
pub mod crypto;
pub mod encoding;
pub mod error;
pub mod id;
pub mod model_event;
pub mod passkey;
pub mod session;
pub mod visual_scripting;
