//! A certificate identity registry.
//!
//! Certificates are recorded under identifiers that are handed out in
//! increasing order. A leaf certificate names the entry of its issuer. The
//! holder of a certificate revokes or deactivates it by signing the
//! identifier with the certificate's own key.

pub mod certificate;
pub mod clock;
pub mod der;
pub mod error;
pub mod identifier;
pub mod laws;
pub mod model;
pub mod record;
pub mod registry;
pub mod signature;
pub mod store;
