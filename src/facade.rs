//! The pool facade: a connection URL fixed at construction and, once a pool
//! built from it has reached its database, that pool.

use vstd::prelude::*;

use crate::external::{
    build_pool, pool_config_accepts, pool_recycling, pool_source, PoolHandle, Recycling,
};

verus! {

/// The ways the facade fails.
#[derive(Debug)]
pub enum DatabasePoolError {
    /// The pool could not be built from the URL (it is malformed, or names no
    /// database).
    PoolCreationError(deadpool_postgres::CreatePoolError),
    /// The pool could not hand out a client.
    PoolError(deadpool_postgres::PoolError),
    /// No pool is installed: `connect` never succeeded.
    NoPoolError,
}

impl DatabasePoolError {
    /// The one-line description of the error.
    pub fn message(&self) -> (r: &'static str)
        ensures
            self is PoolCreationError ==> r@ == "Error creating pool"@,
            self is PoolError ==> r@ == "Pool error"@,
            self is NoPoolError ==> r@ == "Pool not initialized"@,
    {
        match self {
            DatabasePoolError::PoolCreationError(_) => "Error creating pool",
            DatabasePoolError::PoolError(_) => "Pool error",
            DatabasePoolError::NoPoolError => "Pool not initialized",
        }
    }
}

/// A connection URL and the pool installed for it, if any.
#[derive(Clone, Debug)]
pub struct DatabasePool {
    url: String,
    pub pool: Option<PoolHandle>,
}

impl DatabasePool {
    /// The connection URL the facade was made with.
    pub closed spec fn target(&self) -> Seq<char> {
        self.url@
    }

    /// The pool currently installed: the value of the `pool` field. Outside
    /// this module the private `url` makes the struct's fields unreadable to
    /// proofs, so contracts speak of the field through this function.
    pub closed spec fn installed(&self) -> Option<PoolHandle> {
        self.pool
    }

    /// Made with `url` and holding no pool yet.
    pub open spec fn is_fresh(&self, url: Seq<char>) -> bool {
        self.target() == url && self.installed() is None
    }

    /// Asking this facade for a client fails with `NoPoolError`.
    pub open spec fn refuses_lease(&self) -> bool {
        self.installed() is None
    }

    /// Clients asked of this facade come from the pool `h`.
    pub open spec fn serves_from(&self, h: PoolHandle) -> bool {
        self.installed() == Some(h)
    }

    /// How the facade changes when a connectivity probe of the new pool `h`
    /// has come back: on success `h` replaces whatever pool was installed; on
    /// failure nothing changes.
    pub open spec fn probe_step(before: DatabasePool, after: DatabasePool, h: PoolHandle, probe_ok: bool) -> bool {
        if probe_ok {
            after.target() == before.target() && after.installed() == Some(h)
        } else {
            after == before
        }
    }

    /// Creates a facade for `url`. Nothing is checked or connected.
    pub fn new(url: String) -> (r: Self)
        ensures
            r.is_fresh(url@),
    {
        DatabasePool { url, pool: None }
    }

    /// The first half of connecting: builds a pool from the URL, with every
    /// recycled connection verified before reuse. No connection is opened.
    pub fn create_pool(&self) -> (r: Result<PoolHandle, DatabasePoolError>)
        ensures
            r is Ok <==> pool_config_accepts(self.target()),
            r matches Ok(h) ==> pool_source(h) == self.target(),
            r matches Ok(h) ==> pool_recycling(h) == Recycling::Verified,
            r matches Err(e) ==> e is PoolCreationError,
    {
        Self::creation_outcome(build_pool(&self.url, Recycling::Verified))
    }

    /// What building a pool gave, as the facade reports it: the pool, or the
    /// builder's error wrapped as `PoolCreationError`.
    pub fn creation_outcome(built: Result<PoolHandle, deadpool_postgres::CreatePoolError>) -> (r: Result<PoolHandle, DatabasePoolError>)
        ensures
            built matches Ok(h) ==> r == Ok::<PoolHandle, DatabasePoolError>(h),
            built matches Err(e) ==> r == Err::<PoolHandle, DatabasePoolError>(DatabasePoolError::PoolCreationError(e)),
    {
        match built {
            Ok(h) => Ok(h),
            Err(e) => Err(DatabasePoolError::PoolCreationError(e)),
        }
    }

    /// The second half of connecting: `probe` is what leasing one client from
    /// the new pool `handle` gave. On success the pool is installed; on
    /// failure the facade is left as it was and the pool error is returned.
    pub fn complete_connect<C>(
        &mut self,
        handle: PoolHandle,
        probe: Result<C, deadpool_postgres::PoolError>,
    ) -> (r: Result<(), DatabasePoolError>)
        ensures
            r is Ok <==> probe is Ok,
            Self::probe_step(*old(self), *final(self), handle, probe is Ok),
            probe matches Err(e) ==> r == Err::<(), DatabasePoolError>(DatabasePoolError::PoolError(e)),
    {
        match probe {
            Ok(_) => {
                self.pool = Some(handle);
                Ok(())
            },
            Err(e) => Err(DatabasePoolError::PoolError(e)),
        }
    }

    /// The pool to lease a client from, or `NoPoolError` when none is
    /// installed.
    pub fn lease_pool(&self) -> (r: Result<&PoolHandle, DatabasePoolError>)
        ensures
            r is Err <==> self.refuses_lease(),
            r matches Ok(h) ==> self.serves_from(*h),
            r matches Err(e) ==> e is NoPoolError,
    {
        match &self.pool {
            Some(h) => Ok(h),
            None => Err(DatabasePoolError::NoPoolError),
        }
    }

    /// What a lease from the installed pool gave, as the facade reports it:
    /// the client, or the pool's error wrapped as `PoolError`.
    pub fn lease_outcome<C>(leased: Result<C, deadpool_postgres::PoolError>) -> (r: Result<C, DatabasePoolError>)
        ensures
            leased matches Ok(c) ==> r == Ok::<C, DatabasePoolError>(c),
            leased matches Err(e) ==> r == Err::<C, DatabasePoolError>(DatabasePoolError::PoolError(e)),
    {
        match leased {
            Ok(c) => Ok(c),
            Err(e) => Err(DatabasePoolError::PoolError(e)),
        }
    }
}

} // verus!
