use secretly::db::{
    resolve_store_path, settle_insert, settle_row_fetch, settle_store_open, settle_value_fetch,
    InsertOutcome, RowFetchOutcome, StoreOpenEvent, ValueFetchOutcome,
};
use secretly::error::VaultError;
use secretly::secret::{display_secret, Secret};

#[test]
fn open_failure_is_connection_error() {
    let r = settle_store_open(StoreOpenEvent::OpenFailed {
        message: "file is not a database".to_owned(),
    });
    match r {
        Err(VaultError::ConnectionError(m)) => assert_eq!(m, "file is not a database"),
        other => panic!("expected ConnectionError, got {:?}", other),
    }
}

#[test]
fn missing_regular_file_is_store_corrupted() {
    let r = settle_store_open(StoreOpenEvent::Opened {
        regular_file: false,
        migration_error: None,
    });
    match r {
        Err(VaultError::StoreCorrupted) => {}
        other => panic!("expected StoreCorrupted, got {:?}", other),
    }
    assert_eq!(VaultError::StoreCorrupted.message(), "Store corrupted");
}

#[test]
fn clean_open_carries_no_warning() {
    let r = settle_store_open(StoreOpenEvent::Opened {
        regular_file: true,
        migration_error: None,
    });
    match r {
        Ok(None) => {}
        other => panic!("expected a clean open, got {:?}", other),
    }
}

#[test]
fn migration_failure_is_non_fatal() {
    let r = settle_store_open(StoreOpenEvent::Opened {
        regular_file: true,
        migration_error: Some("table secret already exists".to_owned()),
    });
    match r {
        Ok(Some(VaultError::MigrationFailed(m))) => {
            assert_eq!(m, "table secret already exists");
            assert_eq!(
                VaultError::MigrationFailed(m).message(),
                "Failed to migrate database: table secret already exists"
            );
        }
        other => panic!("expected a kept connection with a warning, got {:?}", other),
    }
}

#[test]
fn insert_done_is_ok() {
    assert!(settle_insert(InsertOutcome::Done).is_ok());
}

#[test]
fn unique_violation_is_name_already_in_use() {
    let r = settle_insert(InsertOutcome::Rejected {
        code: Some("1555".to_owned()),
        message: "UNIQUE constraint failed: secret.name".to_owned(),
    });
    match r {
        Err(VaultError::NameAlreadyInUse) => {}
        other => panic!("expected NameAlreadyInUse, got {:?}", other),
    }
    assert_eq!(VaultError::NameAlreadyInUse.message(), "Secret name already in use");
}

#[test]
fn other_rejection_is_unexpected_storage_error() {
    let r = settle_insert(InsertOutcome::Rejected {
        code: Some("787".to_owned()),
        message: "FOREIGN KEY constraint failed".to_owned(),
    });
    match r {
        Err(VaultError::UnexpectedStorageError(m)) => {
            assert_eq!(m, "Unexpected error: FOREIGN KEY constraint failed");
        }
        other => panic!("expected UnexpectedStorageError, got {:?}", other),
    }
}

#[test]
fn codeless_rejection_is_unexpected_storage_error() {
    let r = settle_insert(InsertOutcome::Rejected {
        code: None,
        message: "disk I/O error".to_owned(),
    });
    match r {
        Err(VaultError::UnexpectedStorageError(m)) => {
            assert_eq!(m, "Unexpected error: disk I/O error");
        }
        other => panic!("expected UnexpectedStorageError, got {:?}", other),
    }
}

#[test]
fn driver_failure_is_unexpected_storage_error() {
    let r = settle_insert(InsertOutcome::Failed {
        message: "connection closed".to_owned(),
    });
    match r {
        Err(VaultError::UnexpectedStorageError(m)) => {
            assert_eq!(m, "Unexpected error: connection closed");
        }
        other => panic!("expected UnexpectedStorageError, got {:?}", other),
    }
}

#[test]
fn value_fetch_row_hands_value_through() {
    let r = settle_value_fetch(
        "x",
        ValueFetchOutcome::Row {
            value: "v".to_owned(),
        },
    );
    assert_eq!(r.expect("row matched"), "v");
}

#[test]
fn value_fetch_no_row_is_not_found() {
    match settle_value_fetch("ghost", ValueFetchOutcome::NoRow) {
        Err(VaultError::NotFound(name)) => assert_eq!(name, "ghost"),
        other => panic!("expected NotFound, got {:?}", other),
    }
}

#[test]
fn value_fetch_failure_keeps_message() {
    let r = settle_value_fetch(
        "x",
        ValueFetchOutcome::Failed {
            message: "malformed row".to_owned(),
        },
    );
    match r {
        Err(VaultError::UnexpectedStorageError(m)) => {
            assert_eq!(m, "Failed to decrypt secret: malformed row");
        }
        other => panic!("expected UnexpectedStorageError, got {:?}", other),
    }
}

#[test]
fn row_fetch_cases() {
    let secret = Secret::new("a".to_owned(), "d".to_owned(), false, 1, 1, None);
    let r = settle_row_fetch("a", RowFetchOutcome::Row { secret });
    assert_eq!(r.expect("row matched").name, "a");
    match settle_row_fetch("b", RowFetchOutcome::NoRow) {
        Err(VaultError::NotFound(name)) => assert_eq!(name, "b"),
        other => panic!("expected NotFound, got {:?}", other),
    }
    match settle_row_fetch(
        "c",
        RowFetchOutcome::Failed {
            message: "two rows matched".to_owned(),
        },
    ) {
        Err(VaultError::UnexpectedStorageError(m)) => assert_eq!(m, "two rows matched"),
        other => panic!("expected UnexpectedStorageError, got {:?}", other),
    }
}

#[test]
fn explicit_path_wins() {
    let r = resolve_store_path(Some("/tmp/vault.db".to_owned()), Some("/home/u".to_owned()));
    assert_eq!(r.expect("explicit path"), "/tmp/vault.db");
}

#[test]
fn default_path_is_dotfile_under_home() {
    let r = resolve_store_path(None, Some("/home/u".to_owned()));
    assert_eq!(r.expect("home known"), "/home/u/.privy.db");
}

#[test]
fn no_home_is_unresolvable() {
    match resolve_store_path(None, None) {
        Err(VaultError::HomeDirUnresolvable) => {}
        other => panic!("expected HomeDirUnresolvable, got {:?}", other),
    }
    assert_eq!(
        VaultError::HomeDirUnresolvable.message(),
        "Could not resolve home directory"
    );
}

#[test]
fn redaction_ignores_the_value() {
    assert_eq!(display_secret(&"anything".to_owned()), "<redacted>");
    assert_eq!(display_secret(&String::new()), "<redacted>");
}

#[test]
fn datetime_rendering_matches_utc_display() {
    let epoch = Secret::new("e".to_owned(), String::new(), false, 0, 0, Some(1700000000));
    assert_eq!(epoch.rendered_created_at(), "1970-01-01 00:00:00 UTC");
    assert_eq!(epoch.rendered_expires_at(), "2023-11-14 22:13:20 UTC");
}

#[test]
fn error_messages_preserve_underlying_text() {
    assert_eq!(
        VaultError::ConnectionError("unable to open database file".to_owned()).message(),
        "unable to open database file"
    );
    assert_eq!(
        VaultError::ClipboardUnavailable("no clipboard on this host".to_owned()).message(),
        "no clipboard on this host"
    );
    assert_eq!(VaultError::NotImplemented.message(), "Not implemented");
}
