use vstd::prelude::*;

use crate::usage::models::{DiskUsage, MemoryUsage};

verus! {

/// The memory usage from the memory in use and in total.
pub fn memory_usage(used: u64, total: u64) -> (r: MemoryUsage)
    ensures
        r.used == used,
        r.total == total,
{
    MemoryUsage { used, total }
}

/// A disk's usage from its size and the space still available on it; the
/// space used is the size less what is available, and none where more is
/// available than the size.
pub fn disk_usage(mount_point: String, total: u64, available: u64) -> (r: DiskUsage)
    ensures
        r.mount_point == mount_point,
        r.total == total,
        r.used == (if available <= total {
            total - available
        } else {
            0
        }),
{
    let used = if available <= total {
        total - available
    } else {
        0
    };
    DiskUsage { mount_point, used, total }
}

} // verus!
