//! The shared worker pool on which recomputations run, and the ids under
//! which they are submitted.

use vstd::prelude::*;

verus! {

/// Queues a closure on the process-wide worker pool.
///
/// Trusted: the body is one call of `rayon::spawn`, which queues the closure on
/// rayon's global pool, sized to the available parallelism, and returns
/// without waiting for it. The contract asks that the closure can be called
/// and promises nothing of when it runs.
#[verifier::external_body]
fn spawn_on_pool<F>(cb: F) where F: FnOnce() + Send + 'static
    requires
        cb.requires(()),
{
    rayon::spawn(cb);
}

/// Hands `cb` to the process-wide worker pool and returns at once. The closure
/// runs later, on a thread of the pool; nothing is said of when.
pub fn run_threaded<F>(cb: F) where F: FnOnce() + Send + 'static
    requires
        cb.requires(()),
{
    spawn_on_pool(cb);
}

/// A random number from the whole range of `u64`.
///
/// Trusted: the body is one call of `fastrand::u64` on the full range, for
/// which it does not panic. Nothing holds of the number, so nothing is
/// promised.
#[verifier::external_body]
pub(crate) fn random_id() -> u64 {
    fastrand::u64(..)
}

} // verus!
