//! Pool handles. A pool is the driver's own object; the library carries it
//! through and asks it one question, whether it has been closed.

use vstd::prelude::*;

verus! {

/// A handle to the driver's PostgreSQL connection pool, `sqlx::Pool<sqlx::Postgres>`.
///
/// The pool's inside is not visible to the verifier: nothing is claimed of it
/// beyond what the two functions below state.
#[derive(Debug)]
#[verifier::external_body]
pub struct PgPoolHandle {
    pub pool: sqlx::Pool<sqlx::Postgres>,
}

/// A handle to the driver's MySQL connection pool, `sqlx::Pool<sqlx::MySql>`.
///
/// It is held so that a descriptor can name such a pool; no execution runs
/// against it, and nothing is claimed of it.
#[derive(Debug)]
#[verifier::external_body]
pub struct MySqlPoolHandle {
    pub pool: sqlx::Pool<sqlx::MySql>,
}

/// The live pool of a descriptor, by backend.
#[derive(Debug)]
pub enum DBPool {
    PostgresCon(PgPoolHandle),
    MySqlCon(MySqlPoolHandle),
}

/// Calls `sqlx::Pool::is_closed`, which reads the flag that `Pool::close`
/// sets. The answer depends on what has happened to the pool so far, so
/// nothing is promised about it.
#[verifier::external_body]
pub(crate) fn pool_is_closed(handle: &PgPoolHandle) -> (closed: bool) {
    handle.pool.is_closed()
}

/// Calls `Clone::clone` of `sqlx::Pool`, which returns a new handle tied to
/// the same shared pool. The two handles are taken to be the same value.
#[verifier::external_body]
pub(crate) fn share_pool(handle: &PgPoolHandle) -> (shared: PgPoolHandle)
    ensures
        shared == *handle,
{
    PgPoolHandle { pool: handle.pool.clone() }
}

} // verus!
