use vstd::prelude::*;

verus! {

/// Why a pool configuration was refused.
#[derive(Debug, Clone, Copy, PartialEq, Eq, Structural)]
pub enum PoolConfigError {
    /// The pool must be allowed at least one connection.
    ZeroMaxSize,
    /// A maximum lifetime, where given, must be positive.
    ZeroMaxLifetime,
    /// An idle timeout, where given, must be positive.
    ZeroIdleTimeout,
    /// The checkout timeout must be positive.
    ZeroConnectionTimeout,
    /// More idle connections were asked to be kept warm than may exist.
    MinIdleAboveMaxSize,
}

/// The options of a backend's connection pool. Durations are in
/// milliseconds.
#[derive(Debug, Clone, Copy, PartialEq, Eq, Structural)]
pub struct PoolConfig {
    /// Idle connections kept warm, if any.
    pub min_idle: Option<u32>,
    /// Ceiling on the connections that exist at once, idle or checked out.
    pub max_size: u32,
    /// Age after which a connection is retired, if any.
    pub max_lifetime_ms: Option<u64>,
    /// Idle time after which a connection is retired, if any.
    pub idle_timeout_ms: Option<u64>,
    /// Longest wait of a checkout for a connection.
    pub connection_timeout_ms: u64,
    /// Whether a connection is probed for liveness before it is handed out.
    pub test_on_check_out: bool,
}

impl PoolConfig {
    /// The options describe a pool that can hand out connections.
    pub open spec fn wf(&self) -> bool {
        &&& self.max_size > 0
        &&& self.max_lifetime_ms != Some(0u64)
        &&& self.idle_timeout_ms != Some(0u64)
        &&& self.connection_timeout_ms > 0
        &&& (self.min_idle matches Some(n) ==> n <= self.max_size)
    }

    /// Checks the options, reporting the first one that is out of range.
    pub fn new(
        min_idle: Option<u32>,
        max_size: u32,
        max_lifetime_ms: Option<u64>,
        idle_timeout_ms: Option<u64>,
        connection_timeout_ms: u64,
        test_on_check_out: bool,
    ) -> (r: core::result::Result<PoolConfig, PoolConfigError>)
        ensures
            r is Ok <==> (PoolConfig {
                min_idle,
                max_size,
                max_lifetime_ms,
                idle_timeout_ms,
                connection_timeout_ms,
                test_on_check_out,
            }).wf(),
            r matches Ok(c) ==> c.wf() && c == (PoolConfig {
                min_idle,
                max_size,
                max_lifetime_ms,
                idle_timeout_ms,
                connection_timeout_ms,
                test_on_check_out,
            }),
            (r == Err::<PoolConfig, PoolConfigError>(PoolConfigError::ZeroMaxSize)) <==> max_size == 0,
            (r == Err::<PoolConfig, PoolConfigError>(PoolConfigError::ZeroMaxLifetime)) <==> (max_size > 0
                && max_lifetime_ms == Some(0u64)),
            (r == Err::<PoolConfig, PoolConfigError>(PoolConfigError::ZeroIdleTimeout)) <==> (max_size > 0
                && max_lifetime_ms != Some(0u64) && idle_timeout_ms == Some(0u64)),
            (r == Err::<PoolConfig, PoolConfigError>(PoolConfigError::ZeroConnectionTimeout)) <==> (
            max_size > 0 && max_lifetime_ms != Some(0u64) && idle_timeout_ms != Some(0u64)
                && connection_timeout_ms == 0),
            (r == Err::<PoolConfig, PoolConfigError>(PoolConfigError::MinIdleAboveMaxSize)) <==> (
            max_size > 0 && max_lifetime_ms != Some(0u64) && idle_timeout_ms != Some(0u64)
                && connection_timeout_ms > 0 && (min_idle matches Some(n) && n > max_size)),
    {
        if max_size == 0 {
            return Err(PoolConfigError::ZeroMaxSize);
        }
        if let Some(ms) = max_lifetime_ms {
            if ms == 0 {
                return Err(PoolConfigError::ZeroMaxLifetime);
            }
        }
        if let Some(ms) = idle_timeout_ms {
            if ms == 0 {
                return Err(PoolConfigError::ZeroIdleTimeout);
            }
        }
        if connection_timeout_ms == 0 {
            return Err(PoolConfigError::ZeroConnectionTimeout);
        }
        if let Some(n) = min_idle {
            if n > max_size {
                return Err(PoolConfigError::MinIdleAboveMaxSize);
            }
        }
        Ok(PoolConfig {
            min_idle,
            max_size,
            max_lifetime_ms,
            idle_timeout_ms,
            connection_timeout_ms,
            test_on_check_out,
        })
    }
}

} // verus!
