//! The renderer-process limit: how many renderer process hosts the
//! launched browser is allowed, derived from the machine's memory and CPU
//! count and clamped to a platform cap.

use crate::text::{ascii_bytes, dec_digits, str_bytes, u64_to_dec};
use vstd::prelude::*;

verus! {

#[verifier::external_type_specification]
#[verifier::external_body]
pub struct ExSystem(sysinfo::System);

/// Relies on sysinfo::System::new_all: builds a snapshot of the machine's
/// state. Nothing is promised of the snapshot.
#[verifier::external_body]
fn system_snapshot() -> sysinfo::System {
    sysinfo::System::new_all()
}

/// Relies on sysinfo::System::total_memory: the machine's RAM size in
/// bytes. The value is machine-dependent; nothing is promised of it.
#[verifier::external_body]
fn total_memory_bytes(s: &sysinfo::System) -> u64 {
    s.total_memory()
}

/// Relies on num_cpus::get, whose documentation promises at least one.
#[verifier::external_body]
fn cpu_count() -> (n: usize)
    ensures
        n >= 1,
{
    num_cpus::get()
}

/// The platform process limit derived from a CPU count: ten per CPU,
/// with a fixed fallback when that product cannot be represented.
pub fn platform_limit_from_cpus(cpus: usize) -> (r: u64)
    requires
        cpus >= 1,
    ensures
        r == if cpus * 10 <= usize::MAX {
            (cpus * 10) as u64
        } else {
            82u64
        },
        r >= 10,
{
    match cpus.checked_mul(10) {
        Some(v) => v as u64,
        None => 82,
    }
}

/// The platform process limit of this machine: ten per CPU.
pub fn get_platform_process_limit() -> (r: u64)
    ensures
        r >= 10,
{
    let cpus = cpu_count();
    platform_limit_from_cpus(cpus)
}

/// The renderer cap a platform limit allows: half of a finite limit, or
/// a fixed default where the limit is unbounded.
pub fn max_renderer_for_limit(limit: u64) -> (r: u64)
    ensures
        r == if limit != u64::MAX {
            limit / 2
        } else {
            82u64
        },
{
    if limit != u64::MAX {
        limit / 2
    } else {
        82
    }
}

/// The platform's maximum renderer process count for this machine.
pub fn get_platform_max_renderer_process_count() -> (r: u64)
    ensures
        r >= 5,
{
    let limit = get_platform_process_limit();
    max_renderer_for_limit(limit)
}

/// The renderer host limit for a machine with `total_memory_mb` of RAM
/// and the given platform cap: half the memory divided by the estimated
/// per-renderer usage, at least the fixed minimum, at most the cap. The
/// estimated usage depends on the pointer width.
pub fn renderer_host_limit(total_memory_mb: u64, platform_max: u64, wide_pointers: bool) -> (r:
    u64)
    ensures
        ({
            let est: u64 = if wide_pointers {
                85
            } else {
                60
            };
            let base = total_memory_mb / 2 / est;
            let floored = if base >= 3 {
                base
            } else {
                3u64
            };
            r == if floored <= platform_max {
                floored
            } else {
                platform_max
            }
        }),
{
    let est: u64 = if wide_pointers {
        85
    } else {
        60
    };
    let mut max_count = total_memory_mb / 2;
    max_count = max_count / est;
    if max_count < 3 {
        max_count = 3;
    }
    if max_count > platform_max {
        max_count = platform_max;
    }
    max_count
}

/// The renderer host limit of this machine.
pub fn calculate_max_renderer_process_hosts(wide_pointers: bool) -> (r: u64)
    ensures
        r >= 3,
{
    let sys = system_snapshot();
    let bytes = total_memory_bytes(&sys);
    let total_memory_mb = bytes / 1024 / 1024;
    let platform_max = get_platform_max_renderer_process_count();
    renderer_host_limit(total_memory_mb, platform_max, wide_pointers)
}

/// The renderer-process-limit launch flag for a given count.
pub fn make_renderer_limit_flag(count: u64) -> (v: Vec<u8>)
    ensures
        v@ == ascii_bytes("--renderer-process-limit="@) + dec_digits(count as nat),
{
    proof {
        reveal_strlit("--renderer-process-limit=");
    }
    let mut v = str_bytes("--renderer-process-limit=");
    let digits = u64_to_dec(count);
    crate::text::append_bytes(&mut v, digits.as_slice());
    v
}

} // verus!
