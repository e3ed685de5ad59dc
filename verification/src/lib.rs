//! Core of a desktop streaming-music client: the credential record and its
//! expiry rules, the token cache, the OAuth authorization-code flow with PKCE,
//! and the session/player command actor that serializes playback and
//! authentication operations.
//!
//! All network, secret-store and audio I/O happens outside this crate; the
//! modules here hold the decisions, formats and state machines, each with a
//! verified contract.

pub mod credentials;
pub mod text;
pub mod token_store;
pub mod query;
pub mod oauth;
pub mod player;
pub mod codec;
pub mod state;
pub mod login_state;
pub mod settings_state;
pub mod login_model;
pub mod redirect_uri;
