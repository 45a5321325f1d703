use cohete::config::{
    default_api, default_batch_size, default_context, default_devices, default_host,
    default_memory_budget, default_mount, default_port, default_swap, default_thermal_policy,
    default_true, default_version, CoheteConfig, DeviceYamlConfig, DiscoveryConfig,
    DiscoveryMethod, FleetConfig, InferenceConfig, ModelConfig, NvmeYamlConfig,
    ProvisionYamlConfig, SshYamlConfig, ThermalPoliciesConfig, ThermalPolicyYaml,
};
use cohete::thermal::ThermalPolicy;
use cohete::units::Celsius;

fn degrees(t: Celsius) -> f32 {
    t.millis as f32 / 1000.0
}

fn celsius(degrees: f32) -> Celsius {
    Celsius::from_millis((degrees * 1000.0) as i32)
}

#[test]
fn test_config_default() {
    let config = CoheteConfig::default();
    assert_eq!(config.version, "1.0");
}

#[test]
fn test_thermal_policy_conversion() {
    let yaml = ThermalPolicyYaml {
        threshold_c: celsius(70.0),
        cooldown_c: celsius(60.0),
        check_interval_ms: 750,
    };
    let policy: ThermalPolicy = yaml.into();
    assert_eq!(degrees(policy.threshold_c), 70.0);
}

#[test]
fn conversion_keeps_every_field() {
    let yaml = ThermalPolicyYaml {
        threshold_c: celsius(70.0),
        cooldown_c: celsius(60.0),
        check_interval_ms: 750,
    };
    let policy = ThermalPolicy::from(yaml);
    assert_eq!(policy.threshold_c, Celsius { millis: 70_000 });
    assert_eq!(policy.cooldown_c, Celsius { millis: 60_000 });
    assert_eq!(policy.check_interval_ms, 750);
}

#[test]
fn default_values_of_fields() {
    assert_eq!(default_version(), "1.0");
    assert_eq!(default_thermal_policy(), "conservative");
    assert_eq!(default_memory_budget(), 6000);
    assert_eq!(default_devices(), "all");
    assert_eq!(default_port(), 8080);
    assert_eq!(default_batch_size(), 4);
    assert_eq!(default_context(), 2048);
    assert_eq!(default_api(), "openai");
    assert!(default_true());
    assert_eq!(default_mount(), "/mnt/nvme");
    assert_eq!(default_swap(), 16);
    assert_eq!(default_host(), "jetson");
}

#[test]
fn default_configuration_is_complete() {
    let config = CoheteConfig::default();
    assert!(config.discovery.methods.is_empty());
    assert_eq!(config.fleet.name, "");
    assert!(config.fleet.devices.is_empty());
    assert!(config.models.is_empty());
    assert_eq!(degrees(config.thermal.conservative.threshold_c), 65.0);
    assert_eq!(degrees(config.thermal.conservative.cooldown_c), 55.0);
    assert_eq!(config.thermal.conservative.check_interval_ms, 500);
    assert_eq!(degrees(config.thermal.aggressive.threshold_c), 75.0);
    assert_eq!(degrees(config.thermal.aggressive.cooldown_c), 65.0);
    assert_eq!(config.thermal.aggressive.check_interval_ms, 1000);
    assert_eq!(config.inference.port, 8080);
    assert_eq!(config.inference.max_batch_size, 4);
    assert_eq!(config.inference.context_length, 2048);
    assert_eq!(config.inference.api_compatibility, "openai");
    assert!(config.provision.nvme.enabled);
    assert_eq!(config.provision.nvme.mount_point, "/mnt/nvme");
    assert_eq!(config.provision.nvme.swap_size_gb, 16);
    assert!(config.provision.ssh.copy_id);
    assert_eq!(config.provision.ssh.config_host, "jetson");
    assert!(config.provision.packages.is_empty());
}

#[test]
fn defaults_of_the_parts() {
    assert!(DiscoveryConfig::default().methods.is_empty());
    assert_eq!(FleetConfig::default().name, "");
    let policy = ThermalPolicyYaml::default();
    assert_eq!(policy.threshold_c.millis, 65_000);
    assert_eq!(policy.cooldown_c.millis, 55_000);
    assert_eq!(policy.check_interval_ms, 500);
    let policies = ThermalPoliciesConfig::default();
    assert_eq!(policies.aggressive.threshold_c.millis, 75_000);
    assert_eq!(InferenceConfig::default().port, 8080);
    assert_eq!(NvmeYamlConfig::default().swap_size_gb, 16);
    assert_eq!(SshYamlConfig::default().config_host, "jetson");
    assert!(ProvisionYamlConfig::default().packages.is_empty());
}

#[test]
fn records_hold_what_they_are_given() {
    let device = DeviceYamlConfig {
        id: "jetson-01".to_string(),
        connection: "usb".to_string(),
        ip: None,
        thermal_policy: default_thermal_policy(),
        memory_budget_mb: default_memory_budget(),
    };
    let model = ModelConfig {
        name: "llama".to_string(),
        source: "pacha://llama".to_string(),
        quantization: Some("q4_0".to_string()),
        devices: default_devices(),
    };
    let config = CoheteConfig {
        discovery: DiscoveryConfig {
            methods: vec![
                DiscoveryMethod::Usb,
                DiscoveryMethod::Mdns,
                DiscoveryMethod::Static(vec!["10.0.0.1".to_string()]),
            ],
        },
        fleet: FleetConfig { name: "lab".to_string(), devices: vec![device] },
        models: vec![model],
        ..CoheteConfig::default()
    };
    let copy = config.clone();
    assert_eq!(copy.fleet.name, "lab");
    assert_eq!(copy.fleet.devices[0].thermal_policy, "conservative");
    assert_eq!(copy.fleet.devices[0].memory_budget_mb, 6000);
    assert_eq!(copy.models[0].devices, "all");
    assert_eq!(copy.discovery.methods.len(), 3);
    assert!(matches!(&copy.discovery.methods[2], DiscoveryMethod::Static(ips) if ips.len() == 1));
}
