//! Storage management for Jetson devices.
//!
//! The records of an NVMe drive, of the swap file and of the directory
//! layout on the drive. Paths are carried as text.

use vstd::prelude::*;
use vstd::string::*;
use crate::error::Error;
use crate::units::Percent;

verus! {

/// Bytes in a gigabyte.
pub const BYTES_PER_GB: u64 = 1_073_741_824;

/// NVMe device handle.
#[derive(Debug)]
pub struct NvmeDevice {
    /// Device path (e.g., /dev/nvme0n1)
    pub device_path: String,
    /// Mount point
    pub mount_point: String,
    /// Total capacity in bytes
    pub capacity_bytes: u64,
    /// Available space in bytes
    pub available_bytes: u64,
}

impl NvmeDevice {
    /// No more is available than the drive holds.
    pub open spec fn wf(&self) -> bool {
        self.available_bytes <= self.capacity_bytes
    }

    /// Used space as a share of the capacity, in thousandths of a percent,
    /// rounded down; zero for a drive of no capacity.
    pub open spec fn spec_utilization_millis(&self) -> nat
        recommends
            self.wf(),
    {
        if self.capacity_bytes == 0 {
            0
        } else {
            ((self.capacity_bytes - self.available_bytes) * 100_000 / (
            self.capacity_bytes as int)) as nat
        }
    }

    /// Detect NVMe device. None is found.
    pub fn detect() -> (outcome: Result<Option<Self>, Error>)
        ensures
            outcome matches Ok(found) && found is None,
    {
        Ok(None)
    }

    /// Get capacity in GB.
    #[must_use]
    pub fn capacity_gb(&self) -> (gb: u64)
        ensures
            gb == self.capacity_bytes / BYTES_PER_GB,
    {
        self.capacity_bytes / BYTES_PER_GB
    }

    /// Get available space in GB.
    #[must_use]
    pub fn available_gb(&self) -> (gb: u64)
        ensures
            gb == self.available_bytes / BYTES_PER_GB,
    {
        self.available_bytes / BYTES_PER_GB
    }

    /// Get utilization percentage.
    #[must_use]
    pub fn utilization_percent(&self) -> (used: Percent)
        requires
            self.wf(),
        ensures
            used.millis == self.spec_utilization_millis(),
            used.millis <= 100_000,
    {
        if self.capacity_bytes == 0 {
            return Percent { millis: 0 };
        }
        let used: u64 = self.capacity_bytes - self.available_bytes;
        proof {
            let u = used as int;
            let c = self.capacity_bytes as int;
            assert(u * 100_000 / c <= 100_000) by (nonlinear_arith)
                requires
                    0 <= u <= c,
                    c > 0,
            ;
        }
        Percent::share(used, self.capacity_bytes)
    }
}

/// Swap file configuration.
#[derive(Debug, Clone)]
pub struct SwapConfig {
    /// Swap file path
    pub path: String,
    /// Swap size in GB
    pub size_gb: u64,
    /// Swappiness value (0-100)
    pub swappiness: u8,
}

impl SwapConfig {
    /// Whether this is the swap configuration for ML workloads: sixteen GB
    /// on the NVMe drive, at a low swappiness.
    pub open spec fn is_default_ml(&self) -> bool {
        &&& self.path@ == "/mnt/nvme/swapfile"@
        &&& self.size_gb == 16
        &&& self.swappiness == 10
    }

    /// Default swap configuration for ML workloads.
    #[must_use]
    pub fn default_ml() -> (config: Self)
        ensures
            config.is_default_ml(),
    {
        SwapConfig { path: String::from_str("/mnt/nvme/swapfile"), size_gb: 16, swappiness: 10 }
    }
}

impl Default for SwapConfig {
    fn default() -> (config: Self)
        ensures
            config.is_default_ml(),
    {
        SwapConfig::default_ml()
    }
}

/// Storage layout configuration.
#[derive(Debug, Clone)]
pub struct StorageLayout {
    /// NVMe mount point
    pub nvme_mount: String,
    /// Models directory
    pub models_dir: String,
    /// Data directory
    pub data_dir: String,
    /// Cache directory
    pub cache_dir: String,
    /// Docker directory (optional)
    pub docker_dir: Option<String>,
}

impl StorageLayout {
    /// Whether this is the default layout: the drive mounted at `/mnt/nvme`,
    /// with one directory each for models, data, cache and docker below it.
    pub open spec fn is_default_layout(&self) -> bool {
        &&& self.nvme_mount@ == "/mnt/nvme"@
        &&& self.models_dir@ == "/mnt/nvme/models"@
        &&& self.data_dir@ == "/mnt/nvme/data"@
        &&& self.cache_dir@ == "/mnt/nvme/cache"@
        &&& self.docker_dir matches Some(dir) && dir@ == "/mnt/nvme/docker"@
    }

    /// Default storage layout.
    #[must_use]
    pub fn default_layout() -> (layout: Self)
        ensures
            layout.is_default_layout(),
    {
        StorageLayout {
            nvme_mount: String::from_str("/mnt/nvme"),
            models_dir: String::from_str("/mnt/nvme/models"),
            data_dir: String::from_str("/mnt/nvme/data"),
            cache_dir: String::from_str("/mnt/nvme/cache"),
            docker_dir: Some(String::from_str("/mnt/nvme/docker")),
        }
    }
}

impl Default for StorageLayout {
    fn default() -> (layout: Self)
        ensures
            layout.is_default_layout(),
    {
        StorageLayout::default_layout()
    }
}

} // verus!
