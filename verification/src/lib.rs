//! Builder for JSON Web Signature documents in the general JSON
//! serialization: one payload, any number of signatures over it.
//!
//! Signing itself is left to the caller's [`jws::JwsSigner`]; this crate
//! fixes the bytes each signer is given and the text of the document.

pub mod base64url;
pub mod error;
pub mod json;
pub mod jws;
