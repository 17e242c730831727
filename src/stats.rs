use vstd::prelude::*;

verus! {

/// Usage of one mounted filesystem, as the statistics service reports it.
pub struct DiskUsage {
    /// Device or source of the filesystem, when known.
    pub filesystem: Option<String>,
    /// Size in blocks of 1 KiB.
    pub one_k_blocks: u64,
    /// Blocks of 1 KiB in use.
    pub one_k_blocks_used: u64,
    /// Blocks of 1 KiB still free.
    pub one_k_blocks_free: u64,
    /// Share of the filesystem in use, in percent.
    pub used_percentage: u32,
    /// Where the filesystem is mounted.
    pub mountpoint: String,
}

} // verus!
