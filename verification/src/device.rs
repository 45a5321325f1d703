//! Device discovery and management for Jetson devices.
//!
//! The records that describe a Jetson device and how it is reached. Nothing
//! here touches a network or a bus: discovery hands back the records a caller
//! starts from, and the caller does the talking.

use vstd::prelude::*;
use vstd::string::*;
use crate::error::Error;
use crate::JetsonModel;

verus! {

/// Connection method to Jetson device.
#[derive(Debug, Clone, PartialEq, Eq)]
pub enum ConnectionMethod {
    /// USB-C direct connection (192.168.55.1)
    Usb,
    /// Ethernet connection with IP address, in its textual form
    Ethernet(String),
    /// mDNS discovery
    Mdns(String),
}

impl Default for ConnectionMethod {
    fn default() -> (method: Self)
        ensures
            method is Usb,
    {
        ConnectionMethod::Usb
    }
}

/// Device information for a discovered Jetson.
#[derive(Debug, Clone)]
pub struct DeviceInfo {
    /// Device identifier
    pub id: String,
    /// Jetson model
    pub model: JetsonModel,
    /// Connection method
    pub connection: ConnectionMethod,
    /// JetPack/L4T version
    pub jetpack_version: Option<String>,
    /// Hostname
    pub hostname: Option<String>,
}

/// Handle to a connected Jetson device.
#[derive(Debug)]
pub struct JetsonDevice {
    /// Device information
    pub info: DeviceInfo,
}

/// Hint for trueno backend selection.
#[derive(Debug, Clone, Copy)]
pub struct ComputeHint {
    /// Prefer ARM NEON backend
    pub prefer_neon: bool,
    /// Memory budget in MB
    pub memory_budget_mb: u64,
    /// CUDA available (limited on Jetson)
    pub cuda_available: bool,
}

impl JetsonDevice {
    /// Whether this is the record of the device on the USB-C link: named
    /// `jetson-usb`, of unknown model, with nothing else known of it.
    pub open spec fn is_usb_record(&self) -> bool {
        &&& self.info.id@ == "jetson-usb"@
        &&& self.info.model == JetsonModel::Unknown
        &&& self.info.connection is Usb
        &&& self.info.jetpack_version is None
        &&& self.info.hostname is None
    }

    /// Discover all Jetson devices on the network and USB.
    ///
    /// The device on the USB-C link comes first, then those found by mDNS.
    pub fn discover_all() -> (outcome: Result<Vec<Self>, Error>)
        ensures
            outcome matches Ok(devices) && devices@.len() == 1 && devices@[0].is_usb_record(),
    {
        let mut devices: Vec<Self> = Vec::new();
        match Self::discover_usb() {
            Ok(device) => {
                devices.push(device);
            },
            Err(_) => {},
        }
        match Self::discover_mdns() {
            Ok(mut found) => {
                devices.append(&mut found);
            },
            Err(_) => {},
        }
        Ok(devices)
    }

    /// Discover Jetson via USB-C connection.
    pub fn discover_usb() -> (outcome: Result<Self, Error>)
        ensures
            outcome matches Ok(device) && device.is_usb_record(),
    {
        let info = DeviceInfo {
            id: String::from_str("jetson-usb"),
            model: JetsonModel::Unknown,
            connection: ConnectionMethod::Usb,
            jetpack_version: None,
            hostname: None,
        };
        Ok(JetsonDevice { info })
    }

    /// Discover Jetson devices via mDNS. None are found.
    pub fn discover_mdns() -> (outcome: Result<Vec<Self>, Error>)
        ensures
            outcome matches Ok(devices) && devices@.len() == 0,
    {
        Ok(Vec::new())
    }

    /// Connect to a specific IP address, given in its textual form.
    ///
    /// The device is named `jetson-` followed by the address.
    pub fn connect(ip: &str) -> (outcome: Result<Self, Error>)
        ensures
            outcome matches Ok(device) && {
                &&& device.info.id@ == "jetson-"@ + ip@
                &&& device.info.model == JetsonModel::Unknown
                &&& device.info.connection matches ConnectionMethod::Ethernet(addr) && addr@ == ip@
                &&& device.info.jetpack_version is None
                &&& device.info.hostname is None
            },
    {
        let mut id = String::from_str("jetson-");
        id.append(ip);
        let info = DeviceInfo {
            id,
            model: JetsonModel::Unknown,
            connection: ConnectionMethod::Ethernet(String::from_str(ip)),
            jetpack_version: None,
            hostname: None,
        };
        Ok(JetsonDevice { info })
    }

    /// Get device identifier.
    #[must_use]
    pub fn id(&self) -> (id: &str)
        ensures
            id@ == self.info.id@,
    {
        self.info.id.as_str()
    }

    /// Get device model.
    #[must_use]
    pub fn model(&self) -> (model: JetsonModel)
        ensures
            model == self.info.model,
    {
        self.info.model
    }

    /// Get device info.
    #[must_use]
    pub fn info(&self) -> (info: &DeviceInfo)
        ensures
            *info == self.info,
    {
        &self.info
    }

    /// Execute a command on the device.
    ///
    /// No transport is attached to a device record, so this always fails
    /// with an internal error that names the command.
    pub fn exec(&self, command: &str) -> (outcome: Result<String, Error>)
        ensures
            outcome matches Err(Error::Internal(message)) && message@
                == "Command execution not implemented: "@ + command@,
    {
        let mut message = String::from_str("Command execution not implemented: ");
        message.append(command);
        Err(Error::Internal(message))
    }

    /// Get available memory in MB: a conservative half of the model's
    /// memory.
    pub fn available_memory_mb(&self) -> (outcome: Result<u64, Error>)
        ensures
            outcome matches Ok(mb) && mb == self.info.model.spec_memory_mb() / 2,
    {
        Ok(self.info.model.memory_mb() / 2)
    }

    /// Get compute hint for trueno backend selection.
    #[must_use]
    pub fn compute_hint(&self) -> (hint: ComputeHint)
        ensures
            hint.prefer_neon,
            hint.memory_budget_mb == self.info.model.spec_memory_mb() / 2,
            hint.cuda_available,
    {
        ComputeHint {
            prefer_neon: true,
            memory_budget_mb: self.info.model.memory_mb() / 2,
            cuda_available: true,
        }
    }
}

} // verus!
