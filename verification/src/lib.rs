//! Verified core of a GitHub App webhook handler.
//!
//! The crate covers the parts of the handler with real invariants:
//! webhook signature verification ([`signature`]), the installation
//! credential broker with its cache ([`broker`]), the project mutation
//! client with its error taxonomy ([`mutation`]), and the dispatcher
//! that routes one request through all of them ([`dispatcher`]).
//! HTTP transport, configuration loading and telemetry live outside the
//! verified core and hand it plain values.

use vstd::prelude::*;

pub mod broker;
pub mod dispatcher;
pub mod mutation;
pub mod signature;

verus! {

/// Configuration the surrounding process hands to the core at startup:
/// the GitHub App identity, the target project and the webhook secret.
pub struct CoreConfig {
    /// Numeric identifier of the GitHub App.
    pub app_id: u64,
    /// PEM-encoded RSA private key of the GitHub App.
    pub app_private_key: String,
    /// Node id of the Projects-v2 board that receives new items.
    pub project_id: String,
    /// Shared secret that keys the webhook signature.
    pub webhook_secret: Vec<u8>,
}

} // verus!
