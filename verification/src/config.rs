//! Declarative configuration for cohete.
//!
//! The configuration tree and the value every field takes where a
//! configuration leaves it out. Reading and writing the tree as YAML is left
//! to the caller.

use vstd::prelude::*;
use vstd::string::*;
use crate::thermal::ThermalPolicy;
use crate::units::Celsius;

verus! {

/// Root configuration structure.
#[derive(Debug, Clone)]
pub struct CoheteConfig {
    /// Configuration version
    pub version: String,
    /// Device discovery settings
    pub discovery: DiscoveryConfig,
    /// Fleet configuration
    pub fleet: FleetConfig,
    /// Model deployment settings
    pub models: Vec<ModelConfig>,
    /// Thermal policies
    pub thermal: ThermalPoliciesConfig,
    /// Inference server settings
    pub inference: InferenceConfig,
    /// Provisioning settings
    pub provision: ProvisionYamlConfig,
}

/// The configuration version assumed where none is given.
pub fn default_version() -> (version: String)
    ensures
        version@ == "1.0"@,
{
    String::from_str("1.0")
}

impl CoheteConfig {
    /// Whether every part of the configuration has its default.
    pub open spec fn is_default(&self) -> bool {
        &&& self.version@ == "1.0"@
        &&& self.discovery.methods@.len() == 0
        &&& self.fleet.is_default()
        &&& self.models@.len() == 0
        &&& self.thermal == ThermalPoliciesConfig::spec_default()
        &&& self.inference.is_default()
        &&& self.provision.is_default()
    }
}

impl Default for CoheteConfig {
    fn default() -> (config: Self)
        ensures
            config.is_default(),
    {
        CoheteConfig {
            version: default_version(),
            discovery: DiscoveryConfig::default(),
            fleet: FleetConfig::default(),
            models: Vec::new(),
            thermal: ThermalPoliciesConfig::default(),
            inference: InferenceConfig::default(),
            provision: ProvisionYamlConfig::default(),
        }
    }
}

/// Discovery configuration.
#[derive(Debug, Clone)]
pub struct DiscoveryConfig {
    /// Discovery methods to use
    pub methods: Vec<DiscoveryMethod>,
}

impl Default for DiscoveryConfig {
    fn default() -> (config: Self)
        ensures
            config.methods@.len() == 0,
    {
        DiscoveryConfig { methods: Vec::new() }
    }
}

/// Discovery method.
#[derive(Debug, Clone)]
pub enum DiscoveryMethod {
    /// USB-C direct connection
    Usb,
    /// mDNS discovery
    Mdns,
    /// Static IP list
    Static(Vec<String>),
}

/// Fleet configuration.
#[derive(Debug, Clone)]
pub struct FleetConfig {
    /// Fleet name
    pub name: String,
    /// Device configurations
    pub devices: Vec<DeviceYamlConfig>,
}

impl FleetConfig {
    /// Whether this is the default fleet: unnamed and without devices.
    pub open spec fn is_default(&self) -> bool {
        &&& self.name@.len() == 0
        &&& self.devices@.len() == 0
    }
}

impl Default for FleetConfig {
    fn default() -> (config: Self)
        ensures
            config.is_default(),
    {
        FleetConfig { name: String::new(), devices: Vec::new() }
    }
}

/// Device YAML configuration.
#[derive(Debug, Clone)]
pub struct DeviceYamlConfig {
    /// Device ID
    pub id: String,
    /// Connection type
    pub connection: String,
    /// IP address (for ethernet)
    pub ip: Option<String>,
    /// Thermal policy name
    pub thermal_policy: String,
    /// Memory budget in MB
    pub memory_budget_mb: u64,
}

/// The thermal policy of a device that names none.
pub fn default_thermal_policy() -> (name: String)
    ensures
        name@ == "conservative"@,
{
    String::from_str("conservative")
}

/// The memory budget in MB of a device that names none.
pub fn default_memory_budget() -> (mb: u64)
    ensures
        mb == 6000,
{
    6000
}

/// Model configuration.
#[derive(Debug, Clone)]
pub struct ModelConfig {
    /// Model name
    pub name: String,
    /// Model source (pacha:// URL)
    pub source: String,
    /// Quantization level
    pub quantization: Option<String>,
    /// Target devices ("all" or list)
    pub devices: String,
}

/// The target devices of a model that names none.
pub fn default_devices() -> (devices: String)
    ensures
        devices@ == "all"@,
{
    String::from_str("all")
}

/// Thermal policy YAML.
#[derive(Debug, Clone, Copy)]
pub struct ThermalPolicyYaml {
    /// Threshold temperature
    pub threshold_c: Celsius,
    /// Cooldown temperature
    pub cooldown_c: Celsius,
    /// Check interval in milliseconds
    pub check_interval_ms: u64,
}

impl ThermalPolicyYaml {
    /// The conservative policy, as a specification.
    pub open spec fn spec_conservative() -> ThermalPolicyYaml {
        ThermalPolicyYaml {
            threshold_c: Celsius { millis: 65_000 },
            cooldown_c: Celsius { millis: 55_000 },
            check_interval_ms: 500,
        }
    }

    /// The aggressive policy, as a specification.
    pub open spec fn spec_aggressive() -> ThermalPolicyYaml {
        ThermalPolicyYaml {
            threshold_c: Celsius { millis: 75_000 },
            cooldown_c: Celsius { millis: 65_000 },
            check_interval_ms: 1000,
        }
    }
}

impl Default for ThermalPolicyYaml {
    fn default() -> (policy: Self)
        ensures
            policy == ThermalPolicyYaml::spec_conservative(),
    {
        ThermalPolicyYaml {
            threshold_c: Celsius { millis: 65_000 },
            cooldown_c: Celsius { millis: 55_000 },
            check_interval_ms: 500,
        }
    }
}

impl From<ThermalPolicyYaml> for ThermalPolicy {
    fn from(yaml: ThermalPolicyYaml) -> (policy: ThermalPolicy) {
        ThermalPolicy::custom(yaml.threshold_c, yaml.cooldown_c, yaml.check_interval_ms)
    }
}

impl vstd::std_specs::convert::FromSpecImpl<ThermalPolicyYaml> for ThermalPolicy {
    open spec fn obeys_from_spec() -> bool {
        true
    }

    open spec fn from_spec(yaml: ThermalPolicyYaml) -> ThermalPolicy {
        ThermalPolicy {
            threshold_c: yaml.threshold_c,
            cooldown_c: yaml.cooldown_c,
            check_interval_ms: yaml.check_interval_ms,
        }
    }
}

/// Thermal policies configuration.
#[derive(Debug, Clone, Copy)]
pub struct ThermalPoliciesConfig {
    /// Conservative policy
    pub conservative: ThermalPolicyYaml,
    /// Aggressive policy
    pub aggressive: ThermalPolicyYaml,
}

impl ThermalPoliciesConfig {
    /// The default pair of policies, as a specification.
    pub open spec fn spec_default() -> ThermalPoliciesConfig {
        ThermalPoliciesConfig {
            conservative: ThermalPolicyYaml::spec_conservative(),
            aggressive: ThermalPolicyYaml::spec_aggressive(),
        }
    }
}

impl Default for ThermalPoliciesConfig {
    fn default() -> (config: Self)
        ensures
            config == ThermalPoliciesConfig::spec_default(),
    {
        ThermalPoliciesConfig {
            conservative: ThermalPolicyYaml {
                threshold_c: Celsius { millis: 65_000 },
                cooldown_c: Celsius { millis: 55_000 },
                check_interval_ms: 500,
            },
            aggressive: ThermalPolicyYaml {
                threshold_c: Celsius { millis: 75_000 },
                cooldown_c: Celsius { millis: 65_000 },
                check_interval_ms: 1000,
            },
        }
    }
}

/// Inference server configuration.
#[derive(Debug, Clone)]
pub struct InferenceConfig {
    /// Server port
    pub port: u16,
    /// Maximum batch size
    pub max_batch_size: usize,
    /// Context length
    pub context_length: usize,
    /// API compatibility mode
    pub api_compatibility: String,
}

/// The port of an inference server that names none.
pub fn default_port() -> (port: u16)
    ensures
        port == 8080,
{
    8080
}

/// The maximum batch size of an inference server that names none.
pub fn default_batch_size() -> (size: usize)
    ensures
        size == 4,
{
    4
}

/// The context length of an inference server that names none.
pub fn default_context() -> (length: usize)
    ensures
        length == 2048,
{
    2048
}

/// The API compatibility mode of an inference server that names none.
pub fn default_api() -> (api: String)
    ensures
        api@ == "openai"@,
{
    String::from_str("openai")
}

impl InferenceConfig {
    /// Whether this is the default inference server: port 8080, batches of
    /// four, a context of 2048, and the `openai` API.
    pub open spec fn is_default(&self) -> bool {
        &&& self.port == 8080
        &&& self.max_batch_size == 4
        &&& self.context_length == 2048
        &&& self.api_compatibility@ == "openai"@
    }
}

impl Default for InferenceConfig {
    fn default() -> (config: Self)
        ensures
            config.is_default(),
    {
        InferenceConfig {
            port: default_port(),
            max_batch_size: default_batch_size(),
            context_length: default_context(),
            api_compatibility: default_api(),
        }
    }
}

/// Provisioning YAML configuration.
#[derive(Debug, Clone)]
pub struct ProvisionYamlConfig {
    /// NVMe settings
    pub nvme: NvmeYamlConfig,
    /// SSH settings
    pub ssh: SshYamlConfig,
    /// Packages to install
    pub packages: Vec<String>,
}

impl ProvisionYamlConfig {
    /// Whether this is the default provisioning: the default NVMe and SSH
    /// settings and no packages.
    pub open spec fn is_default(&self) -> bool {
        &&& self.nvme.is_default()
        &&& self.ssh.is_default()
        &&& self.packages@.len() == 0
    }
}

impl Default for ProvisionYamlConfig {
    fn default() -> (config: Self)
        ensures
            config.is_default(),
    {
        ProvisionYamlConfig {
            nvme: NvmeYamlConfig::default(),
            ssh: SshYamlConfig::default(),
            packages: Vec::new(),
        }
    }
}

/// NVMe YAML configuration.
#[derive(Debug, Clone)]
pub struct NvmeYamlConfig {
    /// Enable NVMe setup
    pub enabled: bool,
    /// Mount point
    pub mount_point: String,
    /// Swap size in GB
    pub swap_size_gb: u64,
}

/// The value of a switch that is on unless a configuration turns it off.
pub fn default_true() -> (on: bool)
    ensures
        on,
{
    true
}

/// The NVMe mount point where none is given.
pub fn default_mount() -> (mount: String)
    ensures
        mount@ == "/mnt/nvme"@,
{
    String::from_str("/mnt/nvme")
}

/// The swap size in GB where none is given.
pub fn default_swap() -> (gb: u64)
    ensures
        gb == 16,
{
    16
}

impl NvmeYamlConfig {
    /// Whether this is the default NVMe setting: enabled, mounted at
    /// `/mnt/nvme`, with sixteen GB of swap.
    pub open spec fn is_default(&self) -> bool {
        &&& self.enabled
        &&& self.mount_point@ == "/mnt/nvme"@
        &&& self.swap_size_gb == 16
    }
}

impl Default for NvmeYamlConfig {
    fn default() -> (config: Self)
        ensures
            config.is_default(),
    {
        NvmeYamlConfig { enabled: true, mount_point: default_mount(), swap_size_gb: default_swap() }
    }
}

/// SSH YAML configuration.
#[derive(Debug, Clone)]
pub struct SshYamlConfig {
    /// Copy SSH ID
    pub copy_id: bool,
    /// Config host name
    pub config_host: String,
}

/// The SSH host entry where none is given.
pub fn default_host() -> (host: String)
    ensures
        host@ == "jetson"@,
{
    String::from_str("jetson")
}

impl SshYamlConfig {
    /// Whether this is the default SSH setting: the key is copied and the
    /// host entry is `jetson`.
    pub open spec fn is_default(&self) -> bool {
        &&& self.copy_id
        &&& self.config_host@ == "jetson"@
    }
}

impl Default for SshYamlConfig {
    fn default() -> (config: Self)
        ensures
            config.is_default(),
    {
        SshYamlConfig { copy_id: true, config_host: default_host() }
    }
}

} // verus!
