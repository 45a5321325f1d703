//! Provisioning and setup for Jetson devices.
//!
//! What a device is provisioned with, the outcome of a setup run, and the
//! SSH client configuration of a device.

use vstd::prelude::*;
use vstd::string::*;
use crate::error::Error;
use crate::storage::StorageLayout;

verus! {

/// Provision configuration.
#[derive(Debug, Clone)]
pub struct ProvisionConfig {
    /// NVMe configuration
    pub nvme: NvmeProvisionConfig,
    /// SSH configuration
    pub ssh: SshProvisionConfig,
    /// Packages to install
    pub packages: Vec<String>,
}

impl ProvisionConfig {
    /// Whether this is the default provisioning: the default NVMe and SSH
    /// settings, and the packages `nvtop`, `htop` and `tmux`.
    pub open spec fn is_default(&self) -> bool {
        &&& self.nvme.is_default()
        &&& self.ssh.is_default()
        &&& self.packages@.len() == 3
        &&& self.packages@[0]@ == "nvtop"@
        &&& self.packages@[1]@ == "htop"@
        &&& self.packages@[2]@ == "tmux"@
    }
}

impl Default for ProvisionConfig {
    fn default() -> (config: Self)
        ensures
            config.is_default(),
    {
        let mut packages: Vec<String> = Vec::new();
        packages.push(String::from_str("nvtop"));
        packages.push(String::from_str("htop"));
        packages.push(String::from_str("tmux"));
        ProvisionConfig {
            nvme: NvmeProvisionConfig::default(),
            ssh: SshProvisionConfig::default(),
            packages,
        }
    }
}

/// NVMe provisioning configuration.
#[derive(Debug, Clone)]
pub struct NvmeProvisionConfig {
    /// Enable NVMe setup
    pub enabled: bool,
    /// Mount point
    pub mount_point: String,
    /// Swap size in GB
    pub swap_size_gb: u64,
}

impl NvmeProvisionConfig {
    /// Whether this is the default NVMe provisioning: enabled, mounted at
    /// `/mnt/nvme`, with sixteen GB of swap.
    pub open spec fn is_default(&self) -> bool {
        &&& self.enabled
        &&& self.mount_point@ == "/mnt/nvme"@
        &&& self.swap_size_gb == 16
    }
}

impl Default for NvmeProvisionConfig {
    fn default() -> (config: Self)
        ensures
            config.is_default(),
    {
        NvmeProvisionConfig {
            enabled: true,
            mount_point: String::from_str("/mnt/nvme"),
            swap_size_gb: 16,
        }
    }
}

/// SSH provisioning configuration.
#[derive(Debug, Clone)]
pub struct SshProvisionConfig {
    /// Copy SSH key to device
    pub copy_id: bool,
    /// Host entry name for ~/.ssh/config
    pub config_host: String,
    /// Username
    pub username: String,
}

impl SshProvisionConfig {
    /// Whether this is the default SSH provisioning: the key is copied, the
    /// host entry is `jetson` and the user `nvidia`.
    pub open spec fn is_default(&self) -> bool {
        &&& self.copy_id
        &&& self.config_host@ == "jetson"@
        &&& self.username@ == "nvidia"@
    }
}

impl Default for SshProvisionConfig {
    fn default() -> (config: Self)
        ensures
            config.is_default(),
    {
        SshProvisionConfig {
            copy_id: true,
            config_host: String::from_str("jetson"),
            username: String::from_str("nvidia"),
        }
    }
}

/// Interactive setup wizard.
#[derive(Debug)]
pub struct SetupWizard {
    config: ProvisionConfig,
}

/// Result of provisioning operation.
#[derive(Debug)]
pub struct ProvisionResult {
    /// SSH configured successfully
    pub ssh_configured: bool,
    /// NVMe configured successfully
    pub nvme_configured: bool,
    /// Packages installed
    pub packages_installed: Vec<String>,
    /// Storage layout
    pub storage_layout: StorageLayout,
}

/// A copy of a list of strings.
fn copy_strings(items: &Vec<String>) -> (copy: Vec<String>)
    ensures
        copy@ == items@,
{
    let mut copy: Vec<String> = Vec::new();
    let mut i: usize = 0;
    while i < items.len()
        invariant
            i <= items.len(),
            copy@ == items@.take(i as int),
        decreases items.len() - i,
    {
        copy.push(items[i].clone());
        assert(items@.take(i as int + 1) =~= items@.take(i as int).push(items@[i as int]));
        i = i + 1;
    }
    assert(items@.take(items.len() as int) =~= items@);
    copy
}

impl SetupWizard {
    /// The configuration the wizard provisions with, as a specification.
    pub closed spec fn spec_config(&self) -> ProvisionConfig {
        self.config
    }

    /// Create new setup wizard.
    #[must_use]
    pub fn new() -> (wizard: Self)
        ensures
            wizard.spec_config().is_default(),
    {
        SetupWizard { config: ProvisionConfig::default() }
    }

    /// Get the configuration the wizard provisions with.
    #[must_use]
    pub fn config(&self) -> (config: &ProvisionConfig)
        ensures
            *config == self.spec_config(),
    {
        &self.config
    }

    /// Run the setup.
    ///
    /// Nothing is installed here: the result reports SSH as configured, NVMe
    /// as configured exactly if it is enabled, the configured packages as
    /// installed, and the default storage layout.
    pub fn run(&self) -> (outcome: Result<ProvisionResult, Error>)
        ensures
            outcome matches Ok(result) && {
                &&& result.ssh_configured
                &&& result.nvme_configured == self.spec_config().nvme.enabled
                &&& result.packages_installed@ == self.spec_config().packages@
                &&& result.storage_layout.is_default_layout()
            },
    {
        Ok(
            ProvisionResult {
                ssh_configured: true,
                nvme_configured: self.config.nvme.enabled,
                packages_installed: copy_strings(&self.config.packages),
                storage_layout: StorageLayout::default_layout(),
            },
        )
    }

    /// Set provision config.
    #[must_use]
    pub fn with_config(self, config: ProvisionConfig) -> (wizard: Self)
        ensures
            wizard.spec_config() == config,
    {
        SetupWizard { config }
    }
}

impl Default for SetupWizard {
    fn default() -> (wizard: Self)
        ensures
            wizard.spec_config().is_default(),
    {
        SetupWizard::new()
    }
}

/// SSH config entry.
#[derive(Debug, Clone)]
pub struct SshConfigEntry {
    /// Host alias
    pub host: String,
    /// Hostname or IP
    pub hostname: String,
    /// Username
    pub user: String,
    /// Identity file (optional)
    pub identity_file: Option<String>,
}

impl SshConfigEntry {
    /// The block of this entry in an SSH client configuration: the host
    /// alias, then one indented line each for the host name and the user,
    /// and one for the identity file where there is one.
    pub open spec fn spec_config_block(&self) -> Seq<char> {
        let head = "Host "@ + self.host@ + "\n    HostName "@ + self.hostname@ + "\n    User "@
            + self.user@ + "\n"@;
        match self.identity_file {
            Some(identity) => head + "    IdentityFile "@ + identity@ + "\n"@,
            None => head,
        }
    }

    /// Create entry for USB connection.
    #[must_use]
    pub fn usb(user: &str) -> (entry: Self)
        ensures
            entry.host@ == "jetson-usb"@,
            entry.hostname@ == "192.168.55.1"@,
            entry.user@ == user@,
            entry.identity_file is None,
    {
        SshConfigEntry {
            host: String::from_str("jetson-usb"),
            hostname: String::from_str("192.168.55.1"),
            user: String::from_str(user),
            identity_file: None,
        }
    }

    /// Create entry for Ethernet connection.
    #[must_use]
    pub fn ethernet(ip: &str, user: &str) -> (entry: Self)
        ensures
            entry.host@ == "jetson-eth"@,
            entry.hostname@ == ip@,
            entry.user@ == user@,
            entry.identity_file is None,
    {
        SshConfigEntry {
            host: String::from_str("jetson-eth"),
            hostname: String::from_str(ip),
            user: String::from_str(user),
            identity_file: None,
        }
    }

    /// Generate SSH config block.
    #[must_use]
    pub fn to_config_block(&self) -> (block: String)
        ensures
            block@ == self.spec_config_block(),
    {
        let mut block = String::from_str("Host ");
        block.append(self.host.as_str());
        block.append("\n    HostName ");
        block.append(self.hostname.as_str());
        block.append("\n    User ");
        block.append(self.user.as_str());
        block.append("\n");
        match &self.identity_file {
            Some(identity) => {
                block.append("    IdentityFile ");
                block.append(identity.as_str());
                block.append("\n");
            },
            None => {},
        }
        block
    }
}

} // verus!
