use vstd::prelude::*;
use vstd::string::StringExecFns;

verus! {

/// The domain error taxonomy of the vault.
///
/// Every failure of a vault operation surfaces as exactly one of these
/// variants; the vault never retries. Migration failures are special: they
/// are reported but deliberately do not abort opening the store, so that
/// reads against an already-correct schema keep working.
#[derive(Debug)]
pub enum VaultError {
    /// Opening or authenticating the encrypted store failed. A wrong master
    /// password surfaces here too: a wrong key yields an unreadable store
    /// rather than a clean authentication failure.
    ConnectionError(String),
    /// The store path exists after connecting but is not a regular file.
    StoreCorrupted,
    /// A schema migration step failed. Non-fatal: the connection is still
    /// handed out, carrying this as a warning.
    MigrationFailed(String),
    /// No explicit store path was given and the home directory could not be
    /// determined.
    HomeDirUnresolvable,
    /// A secret with the requested name already exists.
    NameAlreadyInUse,
    /// No secret with the requested name exists; carries the name.
    NotFound(String),
    /// The host has no usable clipboard.
    ClipboardUnavailable(String),
    /// Any other persistence failure, with the underlying message preserved.
    UnexpectedStorageError(String),
    /// The operation is an intended but unbuilt extension point.
    NotImplemented,
}

impl VaultError {
    /// The human-readable message for this error, as printed to the user.
    pub open spec fn spec_message(&self) -> Seq<char> {
        match self {
            VaultError::ConnectionError(m) => m@,
            VaultError::StoreCorrupted => "Store corrupted"@,
            VaultError::MigrationFailed(m) => "Failed to migrate database: "@ + m@,
            VaultError::HomeDirUnresolvable => "Could not resolve home directory"@,
            VaultError::NameAlreadyInUse => "Secret name already in use"@,
            VaultError::NotFound(name) => "No secret named '"@ + name@ + "'"@,
            VaultError::ClipboardUnavailable(m) => m@,
            VaultError::UnexpectedStorageError(m) => "Unexpected error: "@ + m@,
            VaultError::NotImplemented => "Not implemented"@,
        }
    }

    /// Renders the error for display; the secret value never appears here.
    pub fn message(&self) -> (r: String)
        ensures
            r@ == self.spec_message(),
    {
        match self {
            VaultError::ConnectionError(m) => m.clone(),
            VaultError::StoreCorrupted => "Store corrupted".to_owned(),
            VaultError::MigrationFailed(m) => {
                "Failed to migrate database: ".to_owned().concat(m.as_str())
            },
            VaultError::HomeDirUnresolvable => "Could not resolve home directory".to_owned(),
            VaultError::NameAlreadyInUse => "Secret name already in use".to_owned(),
            VaultError::NotFound(name) => {
                "No secret named '".to_owned().concat(name.as_str()).concat("'")
            },
            VaultError::ClipboardUnavailable(m) => m.clone(),
            VaultError::UnexpectedStorageError(m) => {
                "Unexpected error: ".to_owned().concat(m.as_str())
            },
            VaultError::NotImplemented => "Not implemented".to_owned(),
        }
    }
}

} // verus!
