//! The live handle to the operating system's memory counters, held behind
//! trusted declarations of the `sysinfo` crate. The counter values are
//! machine state, so none of them is promised anything: the rest of the
//! library is verified for every value they may take.

use sysinfo::{RefreshKind, System, SystemExt};
use vstd::prelude::*;

verus! {

#[verifier::external_type_specification]
#[verifier::external_body]
pub struct ExSystem(System);

/// Relies on sysinfo's `System::new_with_specifics`, asked to track memory
/// counters only. The handle starts with whatever the operating system
/// reported; nothing is promised of it.
#[verifier::external_body]
pub(crate) fn new_system() -> System {
    System::new_with_specifics(RefreshKind::new().with_memory())
}

/// Relies on sysinfo's `SystemExt::refresh_memory`: re-queries the operating
/// system's memory counters in place. A counter the query cannot reach keeps
/// its previous value inside the handle.
#[verifier::external_body]
pub(crate) fn refresh_counters(handle: &mut System) {
    handle.refresh_memory();
}

/// Relies on sysinfo's `SystemExt::total_memory`: the RAM size in bytes as
/// the operating system last reported it.
#[verifier::external_body]
pub(crate) fn query_total_memory(handle: &System) -> u64 {
    handle.total_memory()
}

/// Relies on sysinfo's `SystemExt::free_memory`: the free RAM in bytes as
/// the operating system last reported it.
#[verifier::external_body]
pub(crate) fn query_free_memory(handle: &System) -> u64 {
    handle.free_memory()
}

/// Relies on sysinfo's `SystemExt::total_swap`: the swap size in bytes as
/// the operating system last reported it.
#[verifier::external_body]
pub(crate) fn query_total_swap(handle: &System) -> u64 {
    handle.total_swap()
}

/// Relies on sysinfo's `SystemExt::free_swap`: the free swap in bytes as
/// the operating system last reported it.
#[verifier::external_body]
pub(crate) fn query_free_swap(handle: &System) -> u64 {
    handle.free_swap()
}

} // verus!
