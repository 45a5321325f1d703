use cohete::device::{ConnectionMethod, DeviceInfo, JetsonDevice};
use cohete::fleet::{DeploymentConfig, Fleet, FleetHealth, JetsonExecutor};
use cohete::thermal::ThermalPolicy;
use cohete::units::Percent;
use cohete::JetsonModel;

fn percent(p: Percent) -> f32 {
    p.millis as f32 / 1000.0
}

fn degrees(t: cohete::units::Celsius) -> f32 {
    t.millis as f32 / 1000.0
}

fn make_test_device(id: &str, model: JetsonModel) -> JetsonDevice {
    JetsonDevice {
        info: DeviceInfo {
            id: id.to_string(),
            model,
            connection: ConnectionMethod::Usb,
            jetpack_version: None,
            hostname: None,
        },
    }
}

#[test]
fn test_fleet_empty() {
    let fleet = Fleet::new();
    assert!(fleet.is_empty());
    assert_eq!(fleet.len(), 0);
    assert_eq!(fleet.enabled_count(), 0);
}

#[test]
fn test_fleet_add_device() {
    let mut fleet = Fleet::new();
    let device = make_test_device("jetson-01", JetsonModel::OrinNano8GB);
    fleet.add_device(device, ThermalPolicy::conservative()).unwrap();
    assert_eq!(fleet.len(), 1);
    assert!(!fleet.is_empty());
    assert_eq!(fleet.enabled_count(), 1);
}

#[test]
fn test_fleet_remove_device() {
    let mut fleet = Fleet::new();
    let device = make_test_device("jetson-01", JetsonModel::OrinNano8GB);
    fleet.add_device(device, ThermalPolicy::conservative()).unwrap();
    assert_eq!(fleet.len(), 1);

    let removed = fleet.remove_device("jetson-01");
    assert!(removed.is_some());
    assert!(fleet.is_empty());

    let not_found = fleet.remove_device("nonexistent");
    assert!(not_found.is_none());
}

#[test]
fn test_fleet_get_device() {
    let mut fleet = Fleet::new();
    let device = make_test_device("jetson-02", JetsonModel::OrinNX16GB);
    fleet.add_device(device, ThermalPolicy::aggressive()).unwrap();

    let member = fleet.get("jetson-02");
    assert!(member.is_some());
    assert!(member.unwrap().enabled);

    let not_found = fleet.get("nonexistent");
    assert!(not_found.is_none());
}

#[test]
fn test_fleet_devices_iterator() {
    let mut fleet = Fleet::new();
    fleet
        .add_device(make_test_device("j1", JetsonModel::OrinNano4GB), ThermalPolicy::conservative())
        .unwrap();
    fleet
        .add_device(make_test_device("j2", JetsonModel::OrinNano8GB), ThermalPolicy::aggressive())
        .unwrap();

    let count = fleet.devices().iter().count();
    assert_eq!(count, 2);
}

#[test]
fn test_fleet_health() {
    let fleet = Fleet::new();
    let health = fleet.health_status();
    assert_eq!(health.total_devices, 0);
    assert_eq!(health.enabled_devices, 0);
    assert_eq!(health.healthy_devices, 0);
    assert_eq!(health.degraded_devices, 0);
    assert_eq!(health.offline_devices, 0);
    assert_eq!(percent(health.health_percent()), 100.0);
}

#[test]
fn test_fleet_health_with_devices() {
    let mut fleet = Fleet::new();
    fleet
        .add_device(make_test_device("j1", JetsonModel::OrinNano8GB), ThermalPolicy::conservative())
        .unwrap();
    fleet
        .add_device(make_test_device("j2", JetsonModel::OrinNano8GB), ThermalPolicy::conservative())
        .unwrap();

    let health = fleet.health_status();
    assert_eq!(health.total_devices, 2);
    assert_eq!(health.enabled_devices, 2);
    assert_eq!(health.healthy_devices, 2);
    assert_eq!(percent(health.health_percent()), 100.0);
}

#[test]
fn test_fleet_health_clone() {
    let health = FleetHealth {
        total_devices: 5,
        enabled_devices: 4,
        healthy_devices: 3,
        degraded_devices: 1,
        offline_devices: 1,
    };
    let cloned = health.clone();
    assert_eq!(cloned.total_devices, 5);
    assert!((percent(cloned.health_percent()) - 60.0).abs() < 0.001);
}

#[test]
fn test_deployment_config() {
    let config = DeploymentConfig::default();
    assert_eq!(config.quantization, Some("q4_0".to_string()));
    assert_eq!(config.memory_budget_mb, 6000);
    assert!(config.target_devices.is_empty());
}

#[test]
fn test_deployment_config_clone() {
    let config = DeploymentConfig {
        target_devices: vec!["j1".to_string(), "j2".to_string()],
        quantization: Some("q8_0".to_string()),
        memory_budget_mb: 4000,
        thermal_policy: ThermalPolicy::aggressive(),
    };
    let cloned = config.clone();
    assert_eq!(cloned.target_devices.len(), 2);
    assert_eq!(cloned.quantization, Some("q8_0".to_string()));
}

#[test]
fn test_fleet_member_fields() {
    let mut fleet = Fleet::new();
    let device = make_test_device("j1", JetsonModel::AgxOrin64GB);
    fleet.add_device(device, ThermalPolicy::aggressive()).unwrap();

    let member = fleet.get("j1").unwrap();
    assert!(member.enabled);
    assert_eq!(degrees(member.policy.threshold_c), 75.0);
    assert_eq!(member.device.id(), "j1");
}

#[test]
fn test_fleet_deploy_model() {
    let fleet = Fleet::new();
    let result = fleet.deploy_model(&[1, 2, 3]);
    assert!(result.is_ok());
}

#[test]
fn test_fleet_start_inference_servers() {
    let fleet = Fleet::new();
    let result = fleet.start_inference_servers();
    assert!(result.is_ok());
}

#[test]
fn test_jetson_executor() {
    let executor = JetsonExecutor::new("192.168.1.100")
        .with_thermal_policy(ThermalPolicy::aggressive())
        .with_memory_budget_mb(4000);
    assert_eq!(executor.ip, "192.168.1.100");
    assert_eq!(executor.memory_budget_mb, 4000);
    assert_eq!(degrees(executor.policy.threshold_c), 75.0);
}

#[test]
fn adding_a_known_id_replaces_the_member_in_place() {
    let mut fleet = Fleet::new();
    for id in ["j1", "j2", "j3"] {
        fleet
            .add_device(make_test_device(id, JetsonModel::OrinNano4GB), ThermalPolicy::conservative())
            .unwrap();
    }
    fleet
        .add_device(make_test_device("j2", JetsonModel::AgxOrin64GB), ThermalPolicy::aggressive())
        .unwrap();
    assert_eq!(fleet.len(), 3);
    let ids: Vec<&str> = fleet.devices().iter().map(|m| m.device.id()).collect();
    assert_eq!(ids, vec!["j1", "j2", "j3"]);
    let member = fleet.get("j2").unwrap();
    assert_eq!(member.device.model(), JetsonModel::AgxOrin64GB);
    assert_eq!(member.policy.check_interval_ms, 1000);
    assert!(member.enabled);
}

#[test]
fn removing_keeps_the_order_of_the_rest() {
    let mut fleet = Fleet::new();
    for id in ["j1", "j2", "j3"] {
        fleet
            .add_device(make_test_device(id, JetsonModel::OrinNano8GB), ThermalPolicy::conservative())
            .unwrap();
    }
    let removed = fleet.remove_device("j2").unwrap();
    assert_eq!(removed.device.id(), "j2");
    let ids: Vec<&str> = fleet.devices().iter().map(|m| m.device.id()).collect();
    assert_eq!(ids, vec!["j1", "j3"]);
    assert!(fleet.get("j2").is_none());
    assert!(fleet.remove_device("j2").is_none());
    assert_eq!(fleet.len(), 2);
    assert_eq!(fleet.enabled_count(), 2);
    let health = fleet.health_status();
    assert_eq!(health.total_devices, 2);
    assert_eq!(health.offline_devices, 0);
    assert_eq!(health.degraded_devices, 0);
}

#[test]
fn health_percent_rounds_down() {
    let health = FleetHealth {
        total_devices: 3,
        enabled_devices: 1,
        healthy_devices: 1,
        degraded_devices: 0,
        offline_devices: 2,
    };
    assert_eq!(health.health_percent().millis, 33_333);
    let none = FleetHealth { healthy_devices: 0, ..health };
    assert_eq!(none.health_percent().millis, 0);
}

#[test]
fn executor_defaults() {
    let executor = JetsonExecutor::new("10.0.0.1");
    assert_eq!(executor.ip, "10.0.0.1");
    assert_eq!(executor.memory_budget_mb, 6000);
    assert_eq!(executor.policy.threshold_c.millis, 65_000);
    assert_eq!(executor.policy.cooldown_c.millis, 55_000);
    assert_eq!(executor.policy.check_interval_ms, 500);
    assert_eq!(Fleet::default().len(), 0);
}
