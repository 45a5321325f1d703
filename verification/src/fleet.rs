//! Fleet orchestration for multiple Jetson devices.
//!
//! A [`Fleet`] holds at most one member for each device identifier, in the
//! order in which the identifiers were first added.

use vstd::prelude::*;
use vstd::string::*;
use crate::device::JetsonDevice;
use crate::error::Error;
use crate::thermal::ThermalPolicy;
use crate::units::Percent;

verus! {

/// Member of a fleet.
#[derive(Debug)]
pub struct FleetMember {
    /// Device handle
    pub device: JetsonDevice,
    /// Thermal policy
    pub policy: ThermalPolicy,
    /// Device enabled for work
    pub enabled: bool,
}

impl FleetMember {
    /// The identifier of the member's device.
    pub open spec fn id(&self) -> Seq<char> {
        self.device.info.id@
    }
}

/// No two members have the same identifier.
pub open spec fn spec_distinct_ids(members: Seq<FleetMember>) -> bool {
    forall|i: int, j: int|
        0 <= i < j < members.len() ==> (#[trigger] members[i]).id() != (#[trigger] members[j]).id()
}

/// No member has the identifier `id`.
pub open spec fn spec_absent(members: Seq<FleetMember>, id: Seq<char>) -> bool {
    forall|i: int| 0 <= i < members.len() ==> (#[trigger] members[i]).id() != id
}

/// The number of members that are enabled.
pub open spec fn spec_enabled_count(members: Seq<FleetMember>) -> nat
    decreases members.len(),
{
    if members.len() == 0 {
        0
    } else {
        spec_enabled_count(members.drop_last()) + if members.last().enabled {
            1nat
        } else {
            0nat
        }
    }
}

/// Fleet of Jetson devices.
#[derive(Debug)]
pub struct Fleet {
    devices: Vec<FleetMember>,
}

impl View for Fleet {
    type V = Seq<FleetMember>;

    closed spec fn view(&self) -> Seq<FleetMember> {
        self.devices@
    }
}

/// Fleet health summary.
#[derive(Debug, Clone, Copy)]
pub struct FleetHealth {
    /// Total devices in fleet
    pub total_devices: usize,
    /// Enabled devices
    pub enabled_devices: usize,
    /// Healthy devices (thermal OK, memory OK)
    pub healthy_devices: usize,
    /// Degraded devices (thermal warning)
    pub degraded_devices: usize,
    /// Offline devices
    pub offline_devices: usize,
}

impl Fleet {
    #[verifier::type_invariant]
    spec fn inv(self) -> bool {
        spec_distinct_ids(self.devices@)
    }

    /// Create a new empty fleet.
    #[must_use]
    pub fn new() -> (fleet: Self)
        ensures
            fleet@.len() == 0,
    {
        Fleet { devices: Vec::new() }
    }

    /// The position of the member with identifier `id`, if there is one.
    fn position(&self, id: &str) -> (found: Option<usize>)
        ensures
            spec_distinct_ids(self@),
            match found {
                Some(i) => i < self@.len() && self@[i as int].id() == id@,
                None => spec_absent(self@, id@),
            },
    {
        proof {
            use_type_invariant(self);
        }
        let key = String::from_str(id);
        let mut i: usize = 0;
        while i < self.devices.len()
            invariant
                i <= self.devices.len(),
                key@ == id@,
                spec_distinct_ids(self.devices@),
                forall|j: int| 0 <= j < i ==> (#[trigger] self.devices@[j]).id() != id@,
            decreases self.devices.len() - i,
        {
            if self.devices[i].device.info.id == key {
                return Some(i);
            }
            i = i + 1;
        }
        None
    }

    /// Add a device to the fleet, enabled for work.
    ///
    /// A member with the same identifier is replaced where it stands; a new
    /// identifier goes to the end.
    pub fn add_device(&mut self, device: JetsonDevice, policy: ThermalPolicy) -> (outcome: Result<
        (),
        Error,
    >)
        ensures
            outcome is Ok,
            spec_distinct_ids(final(self)@),
            ({
                let member = FleetMember { device, policy, enabled: true };
                ||| spec_absent(old(self)@, member.id()) && final(self)@ == old(self)@.push(member)
                ||| exists|i: int|
                    0 <= i < old(self)@.len() && (#[trigger] old(self)@[i]).id() == member.id()
                        && final(self)@ == old(self)@.update(i, member)
            }),
    {
        let found = self.position(device.info.id.as_str());
        let member = FleetMember { device, policy, enabled: true };
        let mut devices: Vec<FleetMember> = Vec::new();
        std::mem::swap(&mut devices, &mut self.devices);
        match found {
            Some(i) => {
                devices.set(i, member);
            },
            None => {
                devices.push(member);
            },
        }
        self.devices = devices;
        Ok(())
    }

    /// Remove a device from the fleet and hand its member back, if there is
    /// one with this identifier.
    pub fn remove_device(&mut self, id: &str) -> (removed: Option<FleetMember>)
        ensures
            spec_distinct_ids(final(self)@),
            match removed {
                Some(member) => exists|i: int|
                    0 <= i < old(self)@.len() && #[trigger] old(self)@[i] == member && member.id()
                        == id@ && final(self)@ == old(self)@.remove(i),
                None => spec_absent(old(self)@, id@) && final(self)@ == old(self)@,
            },
    {
        match self.position(id) {
            Some(i) => {
                let mut devices: Vec<FleetMember> = Vec::new();
                std::mem::swap(&mut devices, &mut self.devices);
                let member = devices.remove(i);
                self.devices = devices;
                Some(member)
            },
            None => None,
        }
    }

    /// Get device count.
    #[must_use]
    pub fn len(&self) -> (count: usize)
        ensures
            count == self@.len(),
    {
        self.devices.len()
    }

    /// Check if fleet is empty.
    #[must_use]
    pub fn is_empty(&self) -> (empty: bool)
        ensures
            empty == (self@.len() == 0),
    {
        self.devices.len() == 0
    }

    /// Get enabled device count.
    #[must_use]
    pub fn enabled_count(&self) -> (count: usize)
        ensures
            count == spec_enabled_count(self@),
            count <= self@.len(),
    {
        let mut count: usize = 0;
        let mut i: usize = 0;
        while i < self.devices.len()
            invariant
                i <= self.devices.len(),
                count <= i,
                count == spec_enabled_count(self.devices@.take(i as int)),
            decreases self.devices.len() - i,
        {
            assert(self.devices@.take(i as int + 1).drop_last() =~= self.devices@.take(i as int));
            if self.devices[i].enabled {
                count = count + 1;
            }
            i = i + 1;
        }
        assert(self.devices@.take(self.devices.len() as int) =~= self.devices@);
        count
    }

    /// The members of the fleet, in the order in which their identifiers
    /// were first added. No two of them have the same identifier.
    #[must_use]
    pub fn devices(&self) -> (members: &Vec<FleetMember>)
        ensures
            members@ == self@,
            spec_distinct_ids(members@),
    {
        proof {
            use_type_invariant(self);
        }
        &self.devices
    }

    /// Get a device by ID.
    #[must_use]
    pub fn get(&self, id: &str) -> (found: Option<&FleetMember>)
        ensures
            spec_distinct_ids(self@),
            match found {
                Some(member) => exists|i: int|
                    0 <= i < self@.len() && #[trigger] self@[i] == *member && member.id() == id@,
                None => spec_absent(self@, id@),
            },
    {
        match self.position(id) {
            Some(i) => Some(&self.devices[i]),
            None => None,
        }
    }

    /// Deploy model to all fleet devices. Nothing is sent anywhere.
    pub fn deploy_model(&self, model: &[u8]) -> (outcome: Result<(), Error>)
        ensures
            outcome is Ok,
    {
        Ok(())
    }

    /// Start inference servers on all devices. Nothing is started anywhere.
    pub fn start_inference_servers(&self) -> (outcome: Result<(), Error>)
        ensures
            outcome is Ok,
    {
        Ok(())
    }

    /// Get fleet health status: every enabled device counts as healthy,
    /// every other as offline, and none as degraded.
    #[must_use]
    pub fn health_status(&self) -> (health: FleetHealth)
        ensures
            health.total_devices == self@.len(),
            health.enabled_devices == spec_enabled_count(self@),
            health.healthy_devices == spec_enabled_count(self@),
            health.degraded_devices == 0,
            health.offline_devices == self@.len() - spec_enabled_count(self@),
    {
        let total: usize = self.len();
        let enabled: usize = self.enabled_count();
        FleetHealth {
            total_devices: total,
            enabled_devices: enabled,
            healthy_devices: enabled,
            degraded_devices: 0,
            offline_devices: total - enabled,
        }
    }
}

impl Default for Fleet {
    fn default() -> (fleet: Self)
        ensures
            fleet@.len() == 0,
    {
        Fleet::new()
    }
}

impl FleetHealth {
    /// The healthy devices as a share of all devices, in thousandths of a
    /// percent, rounded down; the full hundred percent for an empty fleet.
    pub open spec fn spec_health_millis(&self) -> nat {
        if self.total_devices == 0 {
            100_000
        } else {
            Percent::spec_share(self.healthy_devices as u64, self.total_devices as u64)
        }
    }

    /// Get health percentage.
    #[must_use]
    pub fn health_percent(&self) -> (health: Percent)
        ensures
            health.millis == self.spec_health_millis(),
    {
        if self.total_devices == 0 {
            return Percent { millis: 100_000 };
        }
        Percent::share(self.healthy_devices as u64, self.total_devices as u64)
    }
}

/// Jetson executor for repartir integration.
#[derive(Debug)]
pub struct JetsonExecutor {
    /// Target IP address
    pub ip: String,
    /// Thermal policy
    pub policy: ThermalPolicy,
    /// Memory budget in MB
    pub memory_budget_mb: u64,
}

impl JetsonExecutor {
    /// Create new executor, with the default thermal policy and a budget of
    /// 6000 MB.
    #[must_use]
    pub fn new(ip: &str) -> (executor: Self)
        ensures
            executor.ip@ == ip@,
            executor.policy == ThermalPolicy::spec_conservative(),
            executor.memory_budget_mb == 6000,
    {
        JetsonExecutor {
            ip: String::from_str(ip),
            policy: ThermalPolicy::conservative(),
            memory_budget_mb: 6000,
        }
    }

    /// Set thermal policy.
    #[must_use]
    pub fn with_thermal_policy(self, policy: ThermalPolicy) -> (executor: Self)
        ensures
            executor.ip == self.ip,
            executor.policy == policy,
            executor.memory_budget_mb == self.memory_budget_mb,
    {
        JetsonExecutor { ip: self.ip, policy, memory_budget_mb: self.memory_budget_mb }
    }

    /// Set memory budget.
    #[must_use]
    pub fn with_memory_budget_mb(self, budget: u64) -> (executor: Self)
        ensures
            executor.ip == self.ip,
            executor.policy == self.policy,
            executor.memory_budget_mb == budget,
    {
        JetsonExecutor { ip: self.ip, policy: self.policy, memory_budget_mb: budget }
    }
}

/// Deployment configuration.
#[derive(Debug, Clone)]
pub struct DeploymentConfig {
    /// Target devices (empty = all)
    pub target_devices: Vec<String>,
    /// Model quantization level
    pub quantization: Option<String>,
    /// Memory budget per device in MB
    pub memory_budget_mb: u64,
    /// Thermal policy
    pub thermal_policy: ThermalPolicy,
}

impl DeploymentConfig {
    /// Whether this is the default deployment: every device, at `q4_0`,
    /// within 6000 MB, under the default thermal policy.
    pub open spec fn is_default(&self) -> bool {
        &&& self.target_devices@.len() == 0
        &&& self.quantization matches Some(level) && level@ == "q4_0"@
        &&& self.memory_budget_mb == 6000
        &&& self.thermal_policy == ThermalPolicy::spec_conservative()
    }
}

impl Default for DeploymentConfig {
    fn default() -> (config: Self)
        ensures
            config.is_default(),
    {
        DeploymentConfig {
            target_devices: Vec::new(),
            quantization: Some(String::from_str("q4_0")),
            memory_budget_mb: 6000,
            thermal_policy: ThermalPolicy::conservative(),
        }
    }
}

} // verus!
