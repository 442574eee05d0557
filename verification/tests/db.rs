//! Opening a database: the engine's reply decides between an owning
//! wrapper and a typed error.

use notmuch_rs::db::{Database, OpenMode};
use notmuch_rs::status::Status;

/// A freshly created empty mail store opens successfully: the engine
/// reports success and writes a handle, and the layer yields a usable
/// database.
#[test]
fn open_db() {
    let db = Database::open(OpenMode::ReadOnly, 0, 0x1000);

    assert!(db.is_ok());
    let db = db.unwrap();
    assert_eq!(0x1000, db.handle());
    assert_eq!(OpenMode::ReadOnly, db.mode());
}

/// A path that holds no database: the engine reports a file error and
/// writes no handle, and the layer yields the file-error status — it
/// never fails hard.
#[test]
fn open_db_no_db() {
    let db = Database::open(OpenMode::ReadOnly, 4, 0);

    assert!(db.is_err());
    assert_eq!(Some(Status::FileError), db.err());
}

/// Whatever numeric code the engine reports, opening maps it to a typed
/// outcome: an unrecognized code becomes the sentinel, not a crash.
#[test]
fn open_db_unknown_code() {
    let db = Database::open(OpenMode::ReadWrite, 9999, 0);

    assert_eq!(Some(Status::LastStatus), db.err());
}

/// The mode word handed to the engine's open call.
#[test]
fn open_mode_codes() {
    assert_eq!(0, OpenMode::ReadOnly.code());
    assert_eq!(1, OpenMode::ReadWrite.code());
}

/// Closing surrenders exactly the handle the database owned.
#[test]
fn close_returns_handle() {
    let db = Database::open(OpenMode::ReadWrite, 0, 77).unwrap();
    assert_eq!(77, db.close());
}
