//! Error values shared by every module.

use vstd::prelude::*;
use vstd::string::*;
use crate::units::Celsius;

verus! {

/// What can go wrong in any part of the crate.
#[derive(Debug)]
#[non_exhaustive]
pub enum Error {
    /// Device not found
    DeviceNotFound(String),
    /// Connection failed
    ConnectionFailed {
        /// Target host
        host: String,
        /// Failure reason
        reason: String,
    },
    /// SSH error
    Ssh(String),
    /// USB error
    Usb(String),
    /// Thermal threshold exceeded
    ThermalExceeded {
        /// Current temperature
        current_c: Celsius,
        /// Threshold temperature
        threshold_c: Celsius,
    },
    /// Insufficient memory
    InsufficientMemory {
        /// Requested memory in MB
        requested_mb: u64,
        /// Available memory in MB
        available_mb: u64,
    },
    /// Memory budget exceeded
    MemoryBudgetExceeded {
        /// Used memory in MB
        used_mb: u64,
        /// Budget in MB
        budget_mb: u64,
    },
    /// Power mode error
    PowerMode(String),
    /// Storage error
    Storage(String),
    /// Configuration error
    Config(String),
    /// Invalid YAML configuration
    InvalidYaml(String),
    /// Quantization error
    Quantization(String),
    /// Provisioning error
    Provisioning(String),
    /// Fleet error
    Fleet(String),
    /// Parse error
    Parse {
        /// Context of the parse error
        context: String,
        /// Error message
        message: String,
    },
    /// Timeout error
    Timeout {
        /// Operation that timed out
        operation: String,
        /// Timeout in milliseconds
        timeout_ms: u64,
    },
    /// I/O error, carried as the message of the failed operation
    Io(String),
    /// Subsystem unavailable
    SubsystemUnavailable {
        /// The unavailable subsystem
        subsystem: Subsystem,
        /// Reason for unavailability
        reason: String,
    },
    /// Internal error
    Internal(String),
}

/// Hardware subsystem identifiers.
#[derive(Debug, Clone, Copy, PartialEq, Eq, Hash, Structural)]
#[non_exhaustive]
pub enum Subsystem {
    /// tegrastats monitoring
    TegraStats,
    /// nvpmodel power management
    NvpModel,
    /// jetson_clocks frequency control
    JetsonClocks,
    /// NVMe storage
    Nvme,
    /// USB CDC serial
    UsbCdc,
    /// SSH connectivity
    Ssh,
    /// CUDA runtime
    Cuda,
    /// Thermal sensors
    Thermal,
    /// Power sensors
    Power,
}

impl Subsystem {
    /// The display name of the subsystem, as a sequence of characters.
    pub open spec fn spec_name(self) -> Seq<char> {
        match self {
            Subsystem::TegraStats => "tegrastats"@,
            Subsystem::NvpModel => "nvpmodel"@,
            Subsystem::JetsonClocks => "jetson_clocks"@,
            Subsystem::Nvme => "NVMe"@,
            Subsystem::UsbCdc => "USB CDC"@,
            Subsystem::Ssh => "SSH"@,
            Subsystem::Cuda => "CUDA"@,
            Subsystem::Thermal => "Thermal"@,
            Subsystem::Power => "Power"@,
        }
    }

    /// The display name of the subsystem.
    #[must_use]
    pub fn name(&self) -> (text: &'static str)
        ensures
            text@ == self.spec_name(),
    {
        match self {
            Subsystem::TegraStats => "tegrastats",
            Subsystem::NvpModel => "nvpmodel",
            Subsystem::JetsonClocks => "jetson_clocks",
            Subsystem::Nvme => "NVMe",
            Subsystem::UsbCdc => "USB CDC",
            Subsystem::Ssh => "SSH",
            Subsystem::Cuda => "CUDA",
            Subsystem::Thermal => "Thermal",
            Subsystem::Power => "Power",
        }
    }

    /// The display name of the subsystem as an owned string.
    #[must_use]
    pub fn to_string(&self) -> (text: String)
        ensures
            text@ == self.spec_name(),
    {
        String::from_str(self.name())
    }
}

} // verus!
