//! A facade over a PostgreSQL connection pool: it keeps a connection URL and,
//! once a pool built from that URL has been shown to reach its database, the
//! pool itself, and hands out the pool for leasing clients.

pub mod external;
pub mod facade;
pub mod laws;

pub use deadpool_postgres::Client;
pub use tokio_postgres::types::ToSql;
pub use external::{PoolHandle, Recycling};
pub use facade::{DatabasePool, DatabasePoolError};
