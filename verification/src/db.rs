use vstd::prelude::*;
use vstd::string::StringExecFns;
use crate::error::VaultError;
use crate::secret::Secret;

verus! {

/// What the surrounding program observed while opening the encrypted
/// store: either the open/authenticate step failed outright, or a
/// connection was obtained and the file and migrations were checked.
pub enum StoreOpenEvent {
    /// Opening or keying the store failed; a wrong master password lands
    /// here, since a wrong key yields an unreadable store.
    OpenFailed { message: String },
    /// A connection was obtained. `regular_file` says whether the store
    /// path now exists as a regular file; `migration_error` carries the
    /// message of a failed migration run, if any.
    Opened { regular_file: bool, migration_error: Option<String> },
}

/// Decides what an attempt to open the store comes to.
///
/// A failed open is a `ConnectionError`; a connection whose path is not a
/// regular file is a corrupted store. A failed migration is deliberately
/// non-fatal: the connection is kept so that reads against an
/// already-correct schema keep working, and the failure is handed back as
/// a warning to log, never as a refusal.
pub fn settle_store_open(event: StoreOpenEvent) -> (r: Result<Option<VaultError>, VaultError>)
    ensures
        (event matches StoreOpenEvent::OpenFailed { message } ==> (r matches Err(e)
            && e matches VaultError::ConnectionError(m) && m@ == message@)),
        (event matches StoreOpenEvent::Opened { regular_file: false, .. } ==> (r matches Err(e)
            && e is StoreCorrupted)),
        (event matches StoreOpenEvent::Opened { regular_file: true, migration_error: None }
            ==> (r matches Ok(w) && w is None)),
        (event matches StoreOpenEvent::Opened { regular_file: true, migration_error: Some(msg) }
            ==> (r matches Ok(w) && w matches Some(e)
            && e matches VaultError::MigrationFailed(m) && m@ == msg@)),
{
    match event {
        StoreOpenEvent::OpenFailed { message } => Err(VaultError::ConnectionError(message)),
        StoreOpenEvent::Opened { regular_file: false, .. } => Err(VaultError::StoreCorrupted),
        StoreOpenEvent::Opened { regular_file: true, migration_error: None } => Ok(None),
        StoreOpenEvent::Opened { regular_file: true, migration_error: Some(msg) } => {
            Ok(Some(VaultError::MigrationFailed(msg)))
        },
    }
}

/// Outcome of one insert statement against the real store, as observed by
/// the surrounding program.
pub enum InsertOutcome {
    /// The row went in.
    Done,
    /// The database engine rejected the statement; `code` is the engine's
    /// extended error code when it reports one.
    Rejected { code: Option<String>, message: String },
    /// Any other failure on the way to the store.
    Failed { message: String },
}

/// SQLite's extended error code for a violated primary-key uniqueness
/// constraint, the one the secret table's unique name raises.
pub open spec fn unique_violation_code() -> Seq<char> {
    "1555"@
}

/// Decides what an insert outcome comes to: a rejection carrying the
/// uniqueness-violation code is a name collision; every other failure is
/// wrapped with its message preserved.
pub fn settle_insert(outcome: InsertOutcome) -> (r: Result<(), VaultError>)
    ensures
        (outcome is Done ==> r matches Ok(u)),
        (outcome matches InsertOutcome::Rejected { code, message } ==> (match code {
            Some(c) => {
                if c@ == unique_violation_code() {
                    r matches Err(e) && e is NameAlreadyInUse
                } else {
                    r matches Err(e) && e matches VaultError::UnexpectedStorageError(m)
                        && m@ == "Unexpected error: "@ + message@
                }
            },
            None => r matches Err(e) && e matches VaultError::UnexpectedStorageError(m)
                && m@ == "Unexpected error: "@ + message@,
        })),
        (outcome matches InsertOutcome::Failed { message } ==> (r matches Err(e)
            && e matches VaultError::UnexpectedStorageError(m)
            && m@ == "Unexpected error: "@ + message@)),
{
    match outcome {
        InsertOutcome::Done => Ok(()),
        InsertOutcome::Rejected { code, message } => {
            let collision = match &code {
                Some(c) => *c == "1555".to_owned(),
                None => false,
            };
            if collision {
                Err(VaultError::NameAlreadyInUse)
            } else {
                Err(VaultError::UnexpectedStorageError(
                    "Unexpected error: ".to_owned().concat(message.as_str()),
                ))
            }
        },
        InsertOutcome::Failed { message } => Err(VaultError::UnexpectedStorageError(
            "Unexpected error: ".to_owned().concat(message.as_str()),
        )),
    }
}

/// Outcome of fetching the value column for one name.
pub enum ValueFetchOutcome {
    /// Exactly one row matched; its value column.
    Row { value: String },
    /// No row matched.
    NoRow,
    /// Any other failure.
    Failed { message: String },
}

/// Decides what a value fetch comes to: the plaintext when a row matched,
/// `NotFound` carrying the name when none did, and a wrapped failure with
/// the underlying message otherwise.
pub fn settle_value_fetch(name: &str, outcome: ValueFetchOutcome) -> (r: Result<
    String,
    VaultError,
>)
    ensures
        (outcome matches ValueFetchOutcome::Row { value } ==> (r matches Ok(v) && v@ == value@)),
        (outcome is NoRow ==> (r matches Err(e) && e matches VaultError::NotFound(n)
            && n@ == name@)),
        (outcome matches ValueFetchOutcome::Failed { message } ==> (r matches Err(e)
            && e matches VaultError::UnexpectedStorageError(m)
            && m@ == "Failed to decrypt secret: "@ + message@)),
{
    match outcome {
        ValueFetchOutcome::Row { value } => Ok(value),
        ValueFetchOutcome::NoRow => Err(VaultError::NotFound(name.to_owned())),
        ValueFetchOutcome::Failed { message } => Err(VaultError::UnexpectedStorageError(
            "Failed to decrypt secret: ".to_owned().concat(message.as_str()),
        )),
    }
}

/// Outcome of fetching one secret's metadata row by name.
pub enum RowFetchOutcome {
    /// Exactly one row matched, already shaped as display metadata.
    Row { secret: Secret },
    /// No row matched.
    NoRow,
    /// Any other failure, including the impossible more-than-one-row case,
    /// handled defensively.
    Failed { message: String },
}

/// Decides what a metadata fetch comes to: the metadata when a row
/// matched, `NotFound` carrying the name when none did, and a wrapped
/// failure otherwise.
pub fn settle_row_fetch(name: &str, outcome: RowFetchOutcome) -> (r: Result<Secret, VaultError>)
    ensures
        (outcome matches RowFetchOutcome::Row { secret } ==> (r matches Ok(s) && s == secret)),
        (outcome is NoRow ==> (r matches Err(e) && e matches VaultError::NotFound(n)
            && n@ == name@)),
        (outcome matches RowFetchOutcome::Failed { message } ==> (r matches Err(e)
            && e matches VaultError::UnexpectedStorageError(m) && m@ == message@)),
{
    match outcome {
        RowFetchOutcome::Row { secret } => Ok(secret),
        RowFetchOutcome::NoRow => Err(VaultError::NotFound(name.to_owned())),
        RowFetchOutcome::Failed { message } => Err(VaultError::UnexpectedStorageError(message)),
    }
}

/// Resolves where the store file lives: an explicit path wins; otherwise
/// the fixed dotfile under the home directory; with neither, the vault
/// cannot be located.
pub fn resolve_store_path(path: Option<String>, home: Option<String>) -> (r: Result<
    String,
    VaultError,
>)
    ensures
        (path matches Some(p) ==> (r matches Ok(q) && q@ == p@)),
        (path is None ==> (home matches Some(h) ==> (r matches Ok(q)
            && q@ == h@ + "/.privy.db"@))),
        (path is None && home is None ==> (r matches Err(e) && e is HomeDirUnresolvable)),
{
    match path {
        Some(p) => Ok(p),
        None => match home {
            Some(h) => Ok(h.concat("/.privy.db")),
            None => Err(VaultError::HomeDirUnresolvable),
        },
    }
}

} // verus!
