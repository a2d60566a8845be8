use vstd::prelude::*;

verus! {

/// Memory in use and in total, in bytes.
pub struct MemoryUsage {
    pub used: u64,
    pub total: u64,
}

/// Space in use and in total on a mounted disk, in bytes.
pub struct DiskUsage {
    pub mount_point: String,
    pub used: u64,
    pub total: u64,
}

} // verus!
