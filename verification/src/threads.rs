use vstd::prelude::*;

verus! {

/// Relies on num_cpus::get: the number of logical CPUs of this machine,
/// always at least one.
#[verifier::external_body]
pub fn get_sys_threads() -> (n: usize)
    ensures
        1 <= n,
{
    num_cpus::get()
}

/// Seven eighths of the logical CPUs, saturated to what an `i32` can hold:
/// the worker-thread count handed to the backend context.
pub open spec fn spec_worker_threads(n: nat) -> int {
    if 7 * n / 8 > i32::MAX as int {
        i32::MAX as int
    } else {
        7 * (n as int) / 8
    }
}

/// Computes the backend's worker-thread count from the CPU count.
pub fn worker_threads(n: usize) -> (t: i32)
    ensures
        t as int == spec_worker_threads(n as nat),
{
    let wide: u128 = (n as u128) * 7 / 8;
    if wide > i32::MAX as u128 {
        i32::MAX
    } else {
        wide as i32
    }
}

} // verus!
