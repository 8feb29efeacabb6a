//! Verified core of a local secrets manager.
//!
//! The vault stores named secret values behind a single master password.
//! This crate holds the parts worth proving: the secret data model and its
//! redaction rules, the vault state with its name-uniqueness invariant, the
//! outcome of every create/list/describe/decrypt operation, and the mapping
//! from storage-level failures to the domain error taxonomy. The surrounding
//! program supplies the encrypted store connection, the password prompt and
//! the clipboard, and feeds their outcomes to the decision functions here.

pub mod db;
pub mod error;
pub mod laws;
pub mod secret;
pub mod vault;
