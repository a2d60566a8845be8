use vstd::prelude::*;

verus! {

/// Memory in use and in total, in bytes.
pub struct MemoryUsage {
    pub used: u64,
    pub total: u64,
}

/// Space in use and in total on a named disk, in bytes.
pub struct DiskUsage {
    pub name: String,
    pub used: u64,
    pub total: u64,
}

} // verus!
