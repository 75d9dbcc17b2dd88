//! Blocking-task offload: outcome mapping and pool sizing.
//!
//! Blocking closures run on a thread pool the runtime owns; the caller
//! awaits a completion channel. Here stand the verified parts: how the
//! channel outcome maps to the caller's result, and how the pool limits are
//! chosen from the environment overrides and the CPU count.

use vstd::prelude::*;

verus! {

/// Why an offloaded blocking operation yielded no value.
#[derive(PartialEq, Eq, Structural, Debug)]
pub enum BlockingError<E> {
    /// The operation itself failed.
    Error(E),
    /// The thread pool is gone; the completion channel closed unanswered.
    Canceled,
}

/// Map what the completion channel delivered to the caller's result:
/// `None` means the channel closed before any answer arrived.
pub fn blocking_result<I, E>(received: Option<Result<I, E>>) -> (r: Result<I, BlockingError<E>>)
    ensures
        received matches Some(Ok(i)) ==> (r matches Ok(i2) && i2 == i),
        received matches Some(Err(e)) ==> (r matches Err(b) && b == BlockingError::Error(e)),
        received is None ==> (r matches Err(b) && b == BlockingError::<E>::Canceled),
{
    match received {
        Some(Ok(i)) => Ok(i),
        Some(Err(e)) => Err(BlockingError::Error(e)),
        None => Err(BlockingError::Canceled),
    }
}

/// Sizing of the blocking thread pool.
#[derive(Clone, Copy, PartialEq, Eq, Structural, Debug)]
pub struct PoolLimits {
    pub max_threads: usize,
    pub min_threads: usize,
    pub idle_timeout_secs: u64,
}

/// Choose the pool limits: each environment override wins where set, else
/// five threads per CPU at most, one at least, and a minute of idle grace.
pub fn pool_limits(
    max_env: Option<usize>,
    min_env: Option<usize>,
    timeout_env: Option<u64>,
    cpus: usize,
) -> (l: PoolLimits)
    requires
        cpus <= usize::MAX / 5,
    ensures
        l.max_threads as int == (match max_env {
            Some(m) => m as int,
            None => cpus * 5,
        }),
        l.min_threads == (match min_env {
            Some(m) => m,
            None => 1usize,
        }),
        l.idle_timeout_secs == (match timeout_env {
            Some(t) => t,
            None => 60u64,
        }),
{
    let max_threads = match max_env {
        Some(m) => m,
        None => cpus * 5,
    };
    let min_threads = match min_env {
        Some(m) => m,
        None => 1,
    };
    let idle_timeout_secs = match timeout_env {
        Some(t) => t,
        None => 60,
    };
    PoolLimits { max_threads, min_threads, idle_timeout_secs }
}

} // verus!
