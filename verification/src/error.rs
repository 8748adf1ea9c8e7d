//! The error taxonomy of the storage layer.
//!
//! [`DatabaseError`] covers opening a database; [`StorageError`] covers
//! general storage faults; [`Error`] is the union both convert into.

use vstd::prelude::*;
use vstd::string::StringExecFns;

verus! {

/// The top-level error union of the storage layer.
///
/// Variants that in an embedded single-writer store would carry a panic
/// location or an operating-system error value carry here the rendered text of
/// that value, which is all the surrounding logic ever reads of it.
#[derive(Debug)]
#[non_exhaustive]
pub enum Error {
    /// The database is already open. Cannot acquire lock.
    DatabaseAlreadyOpen,
    /// This savepoint is invalid or cannot be created.
    InvalidSavepoint,
    /// A repair session was aborted.
    RepairAborted,
    /// A persistent savepoint was modified.
    PersistentSavepointModified,
    /// A persistent savepoint exists.
    PersistentSavepointExists,
    /// An ephemeral savepoint exists.
    EphemeralSavepointExists,
    /// A transaction is still in progress.
    TransactionInProgress,
    /// The database is corrupted.
    Corrupted(String),
    /// The value being inserted exceeds the maximum size.
    ValueTooLarge(usize),
    /// The table is a multimap table.
    TableIsMultimap(String),
    /// The table is not a multimap table.
    TableIsNotMultimap(String),
    /// Table name does not match any table in the database.
    TableDoesNotExist(String),
    /// Table name already exists in the database.
    TableExists(String),
    /// The table is already open for writing; carries the table name and the
    /// rendered source location of the earlier open.
    TableAlreadyOpen(String, String),
    /// An I/O fault, rendered as text.
    Io(String),
    /// The database was closed.
    DatabaseClosed,
    /// A previous I/O error occurred. The database must be closed and re-opened.
    PreviousIo,
    /// A lock was poisoned; carries the rendered source location.
    LockPoisoned(String),
}

/// General errors directly from the storage layer.
#[derive(Debug)]
#[non_exhaustive]
pub enum StorageError {
    /// The database is corrupted.
    Corrupted(String),
    /// The value being inserted exceeds the maximum size.
    ValueTooLarge(usize),
    /// An I/O fault, rendered as text.
    Io(String),
    /// A previous I/O error occurred.
    PreviousIo,
    /// The database was closed.
    DatabaseClosed,
    /// A lock was poisoned; carries the rendered source location.
    LockPoisoned(String),
}

/// Errors related to opening a database.
#[derive(Debug, Clone)]
#[non_exhaustive]
pub enum DatabaseError {
    /// The database is already open. Cannot acquire lock.
    DatabaseAlreadyOpen,
    /// A repair session was aborted, for instance because the database is
    /// read-only.
    RepairAborted,
    /// The backing store failed; carries the underlying driver's message.
    Corrupted(String),
    /// A named database property was not found.
    PropertyNotFound(String),
}

impl DatabaseError {
    /// The human-readable rendering of this error.
    pub open spec fn message_view(&self) -> Seq<char> {
        match self {
            DatabaseError::RepairAborted => "Database repair aborted."@,
            DatabaseError::DatabaseAlreadyOpen => "Database already open. Cannot acquire lock."@,
            DatabaseError::Corrupted(msg) => "Database corrupted: "@ + msg@,
            DatabaseError::PropertyNotFound(prop) => "Database property not found: "@ + prop@,
        }
    }

    /// Renders the error as its message text.
    pub fn message(&self) -> (r: String)
        ensures
            r@ == self.message_view(),
    {
        match self {
            DatabaseError::RepairAborted => String::from_str("Database repair aborted."),
            DatabaseError::DatabaseAlreadyOpen => {
                String::from_str("Database already open. Cannot acquire lock.")
            },
            DatabaseError::Corrupted(msg) => {
                String::from_str("Database corrupted: ").concat(msg.as_str())
            },
            DatabaseError::PropertyNotFound(prop) => {
                String::from_str("Database property not found: ").concat(prop.as_str())
            },
        }
    }
}

impl Error {
    /// Widens an open-time error into the top-level union.
    ///
    /// Every variant maps to its namesake; a missing property has no namesake
    /// and surfaces as corruption with the property named in the message.
    pub fn from_database(err: DatabaseError) -> (r: Error)
        ensures
            match err {
                DatabaseError::DatabaseAlreadyOpen => r == Error::DatabaseAlreadyOpen,
                DatabaseError::RepairAborted => r == Error::RepairAborted,
                DatabaseError::Corrupted(msg) => r matches Error::Corrupted(m) && m == msg,
                DatabaseError::PropertyNotFound(prop) => r matches Error::Corrupted(m) && m@
                    == "Property not found: "@ + prop@,
            },
    {
        match err {
            DatabaseError::DatabaseAlreadyOpen => Error::DatabaseAlreadyOpen,
            DatabaseError::RepairAborted => Error::RepairAborted,
            DatabaseError::Corrupted(msg) => Error::Corrupted(msg),
            DatabaseError::PropertyNotFound(prop) => {
                Error::Corrupted(String::from_str("Property not found: ").concat(prop.as_str()))
            },
        }
    }
}

} // verus!
