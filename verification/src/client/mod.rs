//! The sending side.

pub mod client;
pub mod laws;
pub mod trust_policy;
pub mod wire_laws;

pub use client::LocalSendClient;
pub use trust_policy::TlsTrustPolicy;
