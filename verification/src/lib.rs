//! Core of a multi-tenant key-management service.
//!
//! Client requests arrive as a decoded header plus an opaque body. A
//! dispatcher selects the back-end handler whose provider id and body
//! encodings match the header; the handler decodes the body into a tagged
//! operation, routes it to a provider, and encodes the tagged result back
//! into a response body. Providers keep tenant-scoped key material: a core
//! provider answers administrative requests, and a PKCS#11 provider manages
//! RSA keys on a hardware token behind a session pool with a shared login
//! counter.

pub mod backend;
pub mod codec;
pub mod dispatcher;
pub mod core_provider;
pub mod der;
pub mod key_info;
pub mod login;
pub mod key_metadata;
pub mod token;
pub mod operations;
pub mod pkcs11_provider;
pub mod requests;
