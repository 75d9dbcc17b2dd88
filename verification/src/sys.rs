//! Machine queries answered by the host.

use vstd::prelude::*;

verus! {

/// Relies on num_cpus::get: the number of logical CPUs of this machine,
/// documented to always be at least one.
#[verifier::external_body]
pub fn cpu_count() -> (n: usize)
    ensures
        1 <= n,
{
    num_cpus::get()
}

} // verus!
