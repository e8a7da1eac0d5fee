//! Decisions of the orchestrator: how many workers to run, and whether a
//! worker pool is needed at all.

use vstd::prelude::*;

verus! {

/// Relies on num_cpus::get for the number of logical CPUs this process may
/// use. It depends on the machine, so nothing is claimed of it.
#[verifier::external_body]
fn logical_cores() -> (r: usize) {
    num_cpus::get()
}

/// The worker count: the explicit value when one was given and it is
/// positive, else the logical core count.
pub open spec fn resolved(explicit: Option<usize>, cores: usize) -> usize {
    match explicit {
        Some(n) => if n > 0 {
            n
        } else {
            cores
        },
        None => cores,
    }
}

/// Picks the worker count from an optional explicit value and the logical
/// core count.
pub fn resolve_concurrency(explicit: Option<usize>, cores: usize) -> (r: usize)
    ensures
        r == resolved(explicit, cores),
{
    match explicit {
        Some(n) => if n > 0 {
            n
        } else {
            cores
        },
        None => cores,
    }
}

/// The worker count, asking the machine for its core count only when no
/// positive explicit value was given.
pub fn concurrency_for(explicit: Option<usize>) -> (r: usize)
    ensures
        explicit is Some && explicit->0 > 0 ==> r == explicit->0,
{
    match explicit {
        Some(n) if n > 0 => n,
        _ => resolve_concurrency(explicit, logical_cores()),
    }
}

/// The size of the worker pool for `file_count` discovered files, or `None`
/// when there is nothing to do and no pool is to be built.
pub fn pool_size(file_count: usize, explicit: Option<usize>) -> (r: Option<usize>)
    ensures
        file_count == 0 <==> r is None,
        file_count > 0 && explicit is Some && explicit->0 > 0 ==> r == explicit,
{
    if file_count == 0 {
        None
    } else {
        Some(concurrency_for(explicit))
    }
}

} // verus!
