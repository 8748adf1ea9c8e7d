//! Tests of the pool abstraction, the open/create completion, and the error
//! taxonomy.

use timeseries_service::db::{
    Builder, Database, DriverError, PoolHandle, ReadOnlyDatabase, ReadableDatabase,
    DEFAULT_DB_PATH, DEFAULT_MAX_CONNECTIONS,
};
use timeseries_service::error::{DatabaseError, Error};

/// A lazily-connected pool touches no server, but the driver still wants a
/// reactor context to park its maintenance task in.
fn reactor() -> tokio::runtime::Runtime {
    tokio::runtime::Builder::new_current_thread()
        .enable_all()
        .build()
        .expect("building a reactor needs no network")
}

fn lazy_pool() -> PoolHandle {
    let pool = sqlx::postgres::PgPoolOptions::new()
        .connect_lazy(DEFAULT_DB_PATH)
        .expect("a lazily-connected pool needs no running server");
    PoolHandle { inner: pool }
}

/// Exercises a handle purely through the read capability: only borrowing a
/// connection is available on this interface, so a caller holding it can
/// never issue a mutating call — the restriction is in the types, not at
/// runtime.
fn read_only_use<D: ReadableDatabase>(db: &D) -> usize {
    let pool = db.get_connection();
    pool.inner.size() as usize
}

#[test]
fn builders_fix_the_default_pool_size() {
    assert_eq!(Builder::new().max_connections, DEFAULT_MAX_CONNECTIONS);
    assert_eq!(Database::builder().max_connections, 20);
    assert_eq!(ReadOnlyDatabase::builder().max_connections, 20);
}

#[test]
fn read_capability_exposes_only_borrowing() {
    let rt = reactor();
    let _guard = rt.enter();
    let db = Database::new(lazy_pool());
    // A lazily-created pool has no physical connections yet.
    assert_eq!(read_only_use(&db), 0);
}

#[test]
fn successful_connect_outcome_becomes_the_pool_handle() {
    let rt = reactor();
    let _guard = rt.enter();
    let opened = Database::from_connect(Ok(lazy_pool()));
    assert!(opened.is_ok());
}

#[test]
fn read_only_completion_yields_a_usable_read_only_handle() {
    let rt = reactor();
    let _guard = rt.enter();
    let opened = ReadOnlyDatabase::from_connect(Ok(lazy_pool()));
    let handle = opened.expect("a pool was handed in");
    // The handle is exercised through the read capability alone.
    assert_eq!(read_only_use(&handle), 0);
}

#[test]
fn read_only_completion_preserves_the_drivers_message() {
    let err = DriverError { inner: sqlx::Error::PoolTimedOut };
    match ReadOnlyDatabase::from_connect(Err(err)) {
        Err(DatabaseError::Corrupted(msg)) => {
            assert_eq!(msg, "pool timed out while waiting for an open connection");
        }
        other => panic!("expected a connectivity error, got {:?}", other.is_ok()),
    }
}

#[test]
fn failed_connect_outcome_is_a_connectivity_error() {
    let err = DriverError { inner: sqlx::Error::PoolTimedOut };
    let opened = Database::from_connect(Err(err));
    match opened {
        Err(DatabaseError::Corrupted(msg)) => {
            assert_eq!(msg, "pool timed out while waiting for an open connection");
        }
        other => panic!("expected a connectivity error, got {:?}", other.is_ok()),
    }
}

#[test]
fn driver_failure_keeps_the_drivers_message() {
    let err = DriverError { inner: sqlx::Error::WorkerCrashed };
    match DatabaseError::from_sqlx(err) {
        DatabaseError::Corrupted(msg) => assert!(!msg.is_empty()),
        other => panic!("expected Corrupted, got {:?}", other),
    }
}

#[test]
fn database_error_messages_are_exact() {
    assert_eq!(DatabaseError::RepairAborted.message(), "Database repair aborted.");
    assert_eq!(
        DatabaseError::DatabaseAlreadyOpen.message(),
        "Database already open. Cannot acquire lock."
    );
    assert_eq!(
        DatabaseError::Corrupted("bad header".to_string()).message(),
        "Database corrupted: bad header"
    );
    assert_eq!(
        DatabaseError::PropertyNotFound("version".to_string()).message(),
        "Database property not found: version"
    );
}

#[test]
fn open_errors_widen_into_their_namesakes() {
    assert!(matches!(
        Error::from_database(DatabaseError::DatabaseAlreadyOpen),
        Error::DatabaseAlreadyOpen
    ));
    assert!(matches!(Error::from_database(DatabaseError::RepairAborted), Error::RepairAborted));
    match Error::from_database(DatabaseError::Corrupted("torn page".to_string())) {
        Error::Corrupted(msg) => assert_eq!(msg, "torn page"),
        other => panic!("expected Corrupted, got {:?}", other),
    }
}

#[test]
fn missing_property_widens_into_corruption_naming_the_property() {
    match Error::from_database(DatabaseError::PropertyNotFound("epoch".to_string())) {
        Error::Corrupted(msg) => assert_eq!(msg, "Property not found: epoch"),
        other => panic!("expected Corrupted, got {:?}", other),
    }
}

#[test]
fn default_path_points_at_the_local_store() {
    assert_eq!(DEFAULT_DB_PATH, "postgresql://localhost:5432/postgres");
}
