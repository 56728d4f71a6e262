//! What the facade takes from the pooling crates: their error types, a handle
//! onto a built pool, and the one call that builds a pool from a URL.

use vstd::prelude::*;

verus! {

#[verifier::external_type_specification]
#[verifier::external_body]
pub struct ExConfigError(deadpool_postgres::ConfigError);

#[verifier::external_type_specification]
#[verifier::external_body]
pub struct ExPgError(tokio_postgres::Error);

#[verifier::external_type_specification]
#[verifier::external_body]
#[verifier::reject_recursive_types(C)]
pub struct ExCreatePoolError<C>(deadpool::managed::CreatePoolError<C>);

#[verifier::external_type_specification]
#[verifier::external_body]
#[verifier::reject_recursive_types(E)]
pub struct ExPoolError<E>(deadpool::managed::PoolError<E>);

/// A built connection pool of deadpool-postgres, opaque to proofs.
///
/// `deadpool::managed::Pool` is bounded by deadpool's `Manager` trait, which
/// cannot stand as a bound in a type declaration here, so the pool is held in
/// this struct. Callers lease clients through `pool.get()`.
#[verifier::external_body]
#[derive(Debug)]
pub struct PoolHandle {
    pub pool: deadpool_postgres::Pool,
}

impl Clone for PoolHandle {
    /// Relies on `deadpool::managed::Pool::clone`: the copy shares the pool.
    #[verifier::external_body]
    fn clone(&self) -> (r: Self) {
        PoolHandle { pool: self.pool.clone() }
    }
}

/// The connection URL that a pool was built from.
pub uninterp spec fn pool_source(h: PoolHandle) -> Seq<char>;

/// How a pool checks a connection before handing it out again.
#[derive(Clone, Copy, Debug, PartialEq, Eq)]
pub enum Recycling {
    /// Only check that the connection is not closed.
    Fast,
    /// Also run a test query on the connection.
    Verified,
}

/// The recycling method that a pool was built with.
pub uninterp spec fn pool_recycling(h: PoolHandle) -> Recycling;

/// Whether deadpool-postgres builds a pool from this URL: it must parse as a
/// tokio-postgres connection string and name a non-empty database.
pub uninterp spec fn pool_config_accepts(url: Seq<char>) -> bool;

/// Relies on `deadpool_postgres::Config::create_pool`: with only `url` and
/// the manager config set, and a runtime given, it succeeds exactly when the
/// URL is accepted. The pool is built from the URL with the given recycling
/// method, and no connection is opened.
#[verifier::external_body]
pub(crate) fn build_pool(url: &String, recycling: Recycling) -> (r: Result<PoolHandle, deadpool_postgres::CreatePoolError>)
    ensures
        r is Ok <==> pool_config_accepts(url@),
        r matches Ok(h) ==> pool_source(h) == url@,
        r matches Ok(h) ==> pool_recycling(h) == recycling,
{
    let recycling_method = match recycling {
        Recycling::Fast => deadpool_postgres::RecyclingMethod::Fast,
        Recycling::Verified => deadpool_postgres::RecyclingMethod::Verified,
    };
    let config = deadpool_postgres::Config {
        url: Some(url.clone()),
        manager: Some(deadpool_postgres::ManagerConfig { recycling_method }),
        ..Default::default()
    };
    config
        .create_pool(Some(deadpool_postgres::Runtime::Tokio1), tokio_postgres::NoTls)
        .map(|pool| PoolHandle { pool })
}

} // verus!
