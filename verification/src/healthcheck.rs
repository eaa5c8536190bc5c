use vstd::prelude::*;

verus! {

/// What a health check reads of the pool of connections to the main database:
/// the number of connections that the pool holds when the check is made.
#[derive(Clone, Copy, Debug, PartialEq, Eq)]
pub struct MainConnectionPool {
    pub size: u32,
}

/// The details that the check reports.
#[derive(Clone, Copy, Debug, PartialEq, Eq)]
pub struct MainConnectionPoolHealthDetails {
    pub pool_size: u32,
}

/// The states that a component can report.
#[derive(Clone, Copy, Debug, PartialEq, Eq)]
pub enum HealthStatus {
    NotReady,
    Ready,
    Affected,
    ShutDown,
    Panicked,
}

/// The health of the main connection pool.
#[derive(Clone, Copy, Debug, PartialEq, Eq)]
pub struct Health {
    pub status: HealthStatus,
    pub details: MainConnectionPoolHealthDetails,
}

/// Checks that the main database can be reached. The pool that it is given is one
/// to which a connection could be made.
#[derive(Clone, Copy, Debug)]
pub struct MainConnectionPoolHealthCheck {
    pub connection_pool: MainConnectionPool,
}

impl MainConnectionPoolHealthDetails {
    pub fn new(pool: &MainConnectionPool) -> (details: MainConnectionPoolHealthDetails)
        ensures
            details.pool_size == pool.size,
    {
        MainConnectionPoolHealthDetails { pool_size: pool.size }
    }
}

impl MainConnectionPoolHealthCheck {
    pub fn new(connection_pool: MainConnectionPool) -> (check: MainConnectionPoolHealthCheck)
        ensures
            check.connection_pool == connection_pool,
    {
        MainConnectionPoolHealthCheck { connection_pool }
    }

    /// The name under which the check is listed.
    pub fn name(&self) -> (name: &'static str)
        ensures
            name@ == "main_connection_pool"@,
    {
        "main_connection_pool"
    }

    /// Reports the pool as ready, with its size as the details.
    pub fn check_health(&self) -> (health: Health)
        ensures
            health.status == HealthStatus::Ready,
            health.details.pool_size == self.connection_pool.size,
    {
        let details = MainConnectionPoolHealthDetails::new(&self.connection_pool);
        Health { status: HealthStatus::Ready, details }
    }
}

} // verus!
