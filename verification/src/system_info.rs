//! The system information reported to clients, and the arithmetic on it.

use vstd::prelude::*;
use crate::text::{contains, contains_text};

verus! {

/// The operating system.
#[derive(Debug, Clone)]
pub struct OsInfo {
    pub name: Option<String>,
    pub kernel_version: Option<String>,
    pub os_version: Option<String>,
    pub host_name: Option<String>,
    pub platform: Option<String>,
}

/// A disk.
#[derive(Debug, Clone)]
pub struct DiskInfo {
    pub name: String,
    pub mount_point: String,
    pub file_system: String,
    /// In bytes.
    pub total_space: u64,
    /// In bytes.
    pub available_space: u64,
    pub is_removable: bool,
}

/// The share of memory in use, in whole percent, rounded down.
pub fn memory_usage_percent(used_memory: u64, total_memory: u64) -> (r: u64)
    requires
        total_memory > 0,
        100 * used_memory <= u64::MAX,
    ensures
        r == (100 * used_memory) / (total_memory as int),
{
    100 * used_memory / total_memory
}

/// Whether a temperature sensor measures a CPU core: its label contains `Core`.
pub fn is_core_sensor(label: &str) -> (r: bool)
    ensures
        r == contains_text(label@, "Core"@),
{
    contains(label, "Core")
}

} // verus!
