//! The pooled-connection storage abstraction.
//!
//! A [`Database`] wraps one driver connection pool for the life of the
//! process. A [`Builder`] fixes the pool sizing before the pool is
//! established. Read capability is granted through the [`ReadableDatabase`]
//! interface, which exposes borrowing a connection and nothing else, so code
//! that depends only on it can never issue a mutating call.
//!
//! Establishing the pool is a network action and happens at the process edge;
//! this module states what is done with its outcome.

use vstd::prelude::*;
use crate::error::DatabaseError;

verus! {

/// The default connection string of the backing store.
pub const DEFAULT_DB_PATH: &'static str = "postgresql://localhost:5432/postgres";

/// The maximum number of physical connections a [`Builder`] configures by
/// default.
pub const DEFAULT_MAX_CONNECTIONS: u32 = 20;

/// The driver's pooled client: a collection of physical connections that
/// queries borrow and return. It is held opaquely — nothing inside it is read
/// here — and the field is exposed so that the process edge can wrap the pool
/// it established and run queries on the pool it gets back.
#[verifier::external_body]
pub struct PoolHandle {
    pub inner: sqlx::PgPool,
}

/// A driver error, held opaquely. Only its rendered text is read here.
#[verifier::external_body]
pub struct DriverError {
    pub inner: sqlx::Error,
}

/// The rendered text of a driver error: a function of the error value alone,
/// the same in every process. What the text says is the driver's business;
/// the contracts here only promise that it is preserved.
pub uninterp spec fn driver_text_of(err: DriverError) -> Seq<char>;

/// Relies on the `Display` implementation of sqlx's error type (reached
/// through std's `ToString`) to render the driver error as text. The
/// rendering depends on the error value alone; the text is stored in the
/// error envelope, never interpreted.
#[verifier::external_body]
fn driver_error_text(err: &DriverError) -> (r: String)
    ensures
        r@ == driver_text_of(*err),
{
    err.inner.to_string()
}

impl DatabaseError {
    /// Normalizes a driver error: every connect-time failure surfaces as
    /// [`DatabaseError::Corrupted`], carrying the driver's own message
    /// verbatim.
    pub fn from_sqlx(err: DriverError) -> (r: DatabaseError)
        ensures
            r matches DatabaseError::Corrupted(m) && m@ == driver_text_of(err),
    {
        DatabaseError::Corrupted(driver_error_text(&err))
    }
}

/// A full-capability handle to the connection pool.
pub struct Database {
    pool: PoolHandle,
}

/// A read-only handle over the same underlying pool type as [`Database`].
/// Its interface exposes no mutating operation.
pub struct ReadOnlyDatabase {
    pool: PoolHandle,
}

/// Read capability over a pooled database: borrowing a connection for the
/// duration of a query is the only operation granted.
pub trait ReadableDatabase {
    /// The pool this handle reads from.
    spec fn pool_view(&self) -> PoolHandle;

    /// Borrows the underlying pool to run a query against.
    fn get_connection(&self) -> (p: &PoolHandle)
        ensures
            *p == self.pool_view(),
    ;
}

impl ReadableDatabase for Database {
    closed spec fn pool_view(&self) -> PoolHandle {
        self.pool
    }

    fn get_connection(&self) -> (p: &PoolHandle) {
        &self.pool
    }
}

impl ReadableDatabase for ReadOnlyDatabase {
    closed spec fn pool_view(&self) -> PoolHandle {
        self.pool
    }

    fn get_connection(&self) -> (p: &PoolHandle) {
        &self.pool
    }
}

/// Configuration builder of a pooled [`Database`]. Stateless across uses:
/// it holds only the sizing options a connect call is made with, and the
/// process edge converts them into the driver's option type.
pub struct Builder {
    pub max_connections: u32,
}

impl Builder {
    /// Constructs a new [`Builder`] with the default pool sizing.
    pub fn new() -> (r: Self)
        ensures
            r.max_connections == DEFAULT_MAX_CONNECTIONS,
    {
        Builder { max_connections: DEFAULT_MAX_CONNECTIONS }
    }
}

impl Database {
    /// Wraps an established pool.
    pub fn new(pool: PoolHandle) -> (r: Self)
        ensures
            r.pool_view() == pool,
    {
        Database { pool }
    }

    /// Completes an `open` or `create` call: the outcome of the driver's
    /// connect call either becomes the process's pool handle, or is
    /// normalized into a connectivity error carrying the driver's own
    /// message verbatim. A pool exists exactly when the connect call
    /// succeeded.
    pub fn from_connect(outcome: Result<PoolHandle, DriverError>) -> (r: Result<
        Database,
        DatabaseError,
    >)
        ensures
            outcome matches Ok(pool) ==> (r matches Ok(db) && db.pool_view() == pool),
            outcome is Err <==> r is Err,
            outcome matches Err(err) ==> (r matches Err(de) && de
                matches DatabaseError::Corrupted(m) && m@ == driver_text_of(err)),
    {
        match outcome {
            Ok(pool) => Ok(Database::new(pool)),
            Err(err) => Err(DatabaseError::from_sqlx(err)),
        }
    }

    /// A builder with the default pool sizing.
    pub fn builder() -> (r: Builder)
        ensures
            r.max_connections == DEFAULT_MAX_CONNECTIONS,
    {
        Builder::new()
    }
}

impl ReadOnlyDatabase {
    /// Wraps an established pool behind the read-only capability.
    pub fn new(pool: PoolHandle) -> (r: Self)
        ensures
            r.pool_view() == pool,
    {
        ReadOnlyDatabase { pool }
    }

    /// Completes an `open` call behind the read-only capability: the same
    /// contract as [`Database::from_connect`], but the handle that comes
    /// back can only ever borrow connections.
    pub fn from_connect(outcome: Result<PoolHandle, DriverError>) -> (r: Result<
        ReadOnlyDatabase,
        DatabaseError,
    >)
        ensures
            outcome matches Ok(pool) ==> (r matches Ok(db) && db.pool_view() == pool),
            outcome is Err <==> r is Err,
            outcome matches Err(err) ==> (r matches Err(de) && de
                matches DatabaseError::Corrupted(m) && m@ == driver_text_of(err)),
    {
        match outcome {
            Ok(pool) => Ok(ReadOnlyDatabase::new(pool)),
            Err(err) => Err(DatabaseError::from_sqlx(err)),
        }
    }

    /// A builder with the default pool sizing.
    pub fn builder() -> (r: Builder)
        ensures
            r.max_connections == DEFAULT_MAX_CONNECTIONS,
    {
        Builder::new()
    }
}

} // verus!
