//! Safe operation of compute workloads on memory- and thermally-constrained
//! Jetson edge boards: a memory budget ledger, a thermal circuit breaker and a
//! quantization selector, with the device, fleet and provisioning records
//! around them.

use vstd::prelude::*;
use vstd::string::*;

pub mod config;
pub mod device;
pub mod fleet;
pub mod memory;
pub mod power;
pub mod provision;
pub mod quantize;
pub mod storage;
pub mod thermal;
pub mod units;
mod error;

pub use error::{Error, Subsystem};

verus! {

/// Crate version
pub const VERSION: &'static str = "0.1.0";

/// Supported Jetson models.
#[derive(Debug, Clone, Copy, PartialEq, Eq, Hash, Structural)]
#[non_exhaustive]
pub enum JetsonModel {
    /// Jetson Orin Nano 4GB
    OrinNano4GB,
    /// Jetson Orin Nano 8GB
    OrinNano8GB,
    /// Jetson Orin NX 8GB
    OrinNX8GB,
    /// Jetson Orin NX 16GB
    OrinNX16GB,
    /// Jetson AGX Orin 32GB
    AgxOrin32GB,
    /// Jetson AGX Orin 64GB
    AgxOrin64GB,
    /// Unknown Jetson model
    Unknown,
}

impl JetsonModel {
    /// Total memory of the model in MB, as a specification.
    pub open spec fn spec_memory_mb(self) -> u64 {
        match self {
            JetsonModel::OrinNano4GB => 4096,
            JetsonModel::OrinNano8GB => 8192,
            JetsonModel::OrinNX8GB => 8192,
            JetsonModel::OrinNX16GB => 16384,
            JetsonModel::AgxOrin32GB => 32768,
            JetsonModel::AgxOrin64GB => 65536,
            JetsonModel::Unknown => 0,
        }
    }

    /// CUDA cores of the model, as a specification.
    pub open spec fn spec_cuda_cores(self) -> u32 {
        match self {
            JetsonModel::OrinNano4GB => 512,
            JetsonModel::OrinNano8GB => 1024,
            JetsonModel::OrinNX8GB => 1024,
            JetsonModel::OrinNX16GB => 1024,
            JetsonModel::AgxOrin32GB => 2048,
            JetsonModel::AgxOrin64GB => 2048,
            JetsonModel::Unknown => 0,
        }
    }

    /// AI performance of the model in TOPS, as a specification.
    pub open spec fn spec_tops(self) -> u32 {
        match self {
            JetsonModel::OrinNano4GB => 20,
            JetsonModel::OrinNano8GB => 40,
            JetsonModel::OrinNX8GB => 70,
            JetsonModel::OrinNX16GB => 100,
            JetsonModel::AgxOrin32GB => 200,
            JetsonModel::AgxOrin64GB => 275,
            JetsonModel::Unknown => 0,
        }
    }

    /// The display name of the model, as a sequence of characters.
    pub open spec fn spec_name(self) -> Seq<char> {
        match self {
            JetsonModel::OrinNano4GB => "Jetson Orin Nano 4GB"@,
            JetsonModel::OrinNano8GB => "Jetson Orin Nano 8GB"@,
            JetsonModel::OrinNX8GB => "Jetson Orin NX 8GB"@,
            JetsonModel::OrinNX16GB => "Jetson Orin NX 16GB"@,
            JetsonModel::AgxOrin32GB => "Jetson AGX Orin 32GB"@,
            JetsonModel::AgxOrin64GB => "Jetson AGX Orin 64GB"@,
            JetsonModel::Unknown => "Unknown Jetson"@,
        }
    }

    /// Total memory in MB
    #[must_use]
    pub fn memory_mb(&self) -> (mb: u64)
        ensures
            mb == self.spec_memory_mb(),
    {
        match self {
            JetsonModel::OrinNano4GB => 4096,
            JetsonModel::OrinNano8GB => 8192,
            JetsonModel::OrinNX8GB => 8192,
            JetsonModel::OrinNX16GB => 16384,
            JetsonModel::AgxOrin32GB => 32768,
            JetsonModel::AgxOrin64GB => 65536,
            JetsonModel::Unknown => 0,
        }
    }

    /// CUDA cores
    #[must_use]
    pub fn cuda_cores(&self) -> (cores: u32)
        ensures
            cores == self.spec_cuda_cores(),
    {
        match self {
            JetsonModel::OrinNano4GB => 512,
            JetsonModel::OrinNano8GB => 1024,
            JetsonModel::OrinNX8GB => 1024,
            JetsonModel::OrinNX16GB => 1024,
            JetsonModel::AgxOrin32GB => 2048,
            JetsonModel::AgxOrin64GB => 2048,
            JetsonModel::Unknown => 0,
        }
    }

    /// AI performance in TOPS
    #[must_use]
    pub fn tops(&self) -> (tops: u32)
        ensures
            tops == self.spec_tops(),
    {
        match self {
            JetsonModel::OrinNano4GB => 20,
            JetsonModel::OrinNano8GB => 40,
            JetsonModel::OrinNX8GB => 70,
            JetsonModel::OrinNX16GB => 100,
            JetsonModel::AgxOrin32GB => 200,
            JetsonModel::AgxOrin64GB => 275,
            JetsonModel::Unknown => 0,
        }
    }

    /// The display name of the model.
    #[must_use]
    pub fn to_string(&self) -> (name: String)
        ensures
            name@ == self.spec_name(),
    {
        match self {
            JetsonModel::OrinNano4GB => String::from_str("Jetson Orin Nano 4GB"),
            JetsonModel::OrinNano8GB => String::from_str("Jetson Orin Nano 8GB"),
            JetsonModel::OrinNX8GB => String::from_str("Jetson Orin NX 8GB"),
            JetsonModel::OrinNX16GB => String::from_str("Jetson Orin NX 16GB"),
            JetsonModel::AgxOrin32GB => String::from_str("Jetson AGX Orin 32GB"),
            JetsonModel::AgxOrin64GB => String::from_str("Jetson AGX Orin 64GB"),
            JetsonModel::Unknown => String::from_str("Unknown Jetson"),
        }
    }
}

} // verus!
