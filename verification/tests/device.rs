use cohete::device::{ComputeHint, ConnectionMethod, DeviceInfo, JetsonDevice};
use cohete::{Error, JetsonModel};

fn device_of(id: &str, model: JetsonModel) -> JetsonDevice {
    JetsonDevice {
        info: DeviceInfo {
            id: id.to_string(),
            model,
            connection: ConnectionMethod::Usb,
            jetpack_version: None,
            hostname: None,
        },
    }
}

#[test]
fn test_connection_method_default() {
    assert_eq!(ConnectionMethod::default(), ConnectionMethod::Usb);
}

#[test]
fn test_connection_method_ethernet() {
    let ip = "192.168.1.100".to_string();
    let method = ConnectionMethod::Ethernet(ip.clone());
    assert_eq!(method, ConnectionMethod::Ethernet(ip));
}

#[test]
fn test_connection_method_mdns() {
    let method = ConnectionMethod::Mdns("jetson.local".to_string());
    if let ConnectionMethod::Mdns(host) = method {
        assert_eq!(host, "jetson.local");
    } else {
        panic!("Expected Mdns variant");
    }
}

#[test]
fn test_device_info_creation() {
    let info = DeviceInfo {
        id: "jetson-01".to_string(),
        model: JetsonModel::OrinNano8GB,
        connection: ConnectionMethod::Usb,
        jetpack_version: Some("5.1.1".to_string()),
        hostname: Some("jetson-nano".to_string()),
    };
    assert_eq!(info.id, "jetson-01");
    assert_eq!(info.model, JetsonModel::OrinNano8GB);
    assert_eq!(info.jetpack_version, Some("5.1.1".to_string()));
    assert_eq!(info.hostname, Some("jetson-nano".to_string()));
}

#[test]
fn test_compute_hint() {
    let device = device_of("test", JetsonModel::OrinNano8GB);
    let hint = device.compute_hint();
    assert!(hint.prefer_neon);
    assert_eq!(hint.memory_budget_mb, 4096);
    assert!(hint.cuda_available);
}

#[test]
fn test_device_id() {
    let device = device_of("my-jetson", JetsonModel::OrinNX16GB);
    assert_eq!(device.id(), "my-jetson");
}

#[test]
fn test_device_model() {
    let device = device_of("test", JetsonModel::AgxOrin64GB);
    assert_eq!(device.model(), JetsonModel::AgxOrin64GB);
}

#[test]
fn test_device_info_accessor() {
    let info = DeviceInfo {
        id: "test-device".to_string(),
        model: JetsonModel::OrinNano4GB,
        connection: ConnectionMethod::Usb,
        jetpack_version: Some("6.0".to_string()),
        hostname: None,
    };
    let device = JetsonDevice { info };
    let retrieved = device.info();
    assert_eq!(retrieved.id, "test-device");
    assert_eq!(retrieved.model, JetsonModel::OrinNano4GB);
}

#[test]
fn test_discover_usb() {
    let device = JetsonDevice::discover_usb().unwrap();
    assert_eq!(device.id(), "jetson-usb");
    assert_eq!(device.info().connection, ConnectionMethod::Usb);
}

#[test]
fn test_discover_mdns() {
    let devices = JetsonDevice::discover_mdns().unwrap();
    // Nothing answers on mDNS
    assert!(devices.is_empty());
}

#[test]
fn test_discover_all() {
    let devices = JetsonDevice::discover_all().unwrap();
    // Should have at least the USB device
    assert!(!devices.is_empty());
}

#[test]
fn test_connect() {
    let ip = "192.168.55.1";
    let device = JetsonDevice::connect(ip).unwrap();
    assert_eq!(device.id(), "jetson-192.168.55.1");
    if let ConnectionMethod::Ethernet(addr) = &device.info().connection {
        assert_eq!(addr, ip);
    } else {
        panic!("Expected Ethernet connection");
    }
}

#[test]
fn test_available_memory() {
    let device = device_of("test", JetsonModel::OrinNano8GB);
    let mem = device.available_memory_mb().unwrap();
    assert_eq!(mem, 4096); // Half of 8192
}

#[test]
fn test_exec_not_implemented() {
    let device = device_of("test", JetsonModel::Unknown);
    let result = device.exec("ls -la");
    assert!(result.is_err());
}

#[test]
fn test_compute_hint_all_models() {
    for model in [
        JetsonModel::OrinNano4GB,
        JetsonModel::OrinNano8GB,
        JetsonModel::OrinNX8GB,
        JetsonModel::OrinNX16GB,
        JetsonModel::AgxOrin32GB,
        JetsonModel::AgxOrin64GB,
        JetsonModel::Unknown,
    ] {
        let device = device_of("test", model);
        let hint = device.compute_hint();
        assert!(hint.prefer_neon);
        assert_eq!(hint.memory_budget_mb, model.memory_mb() / 2);
    }
}

#[test]
fn discovery_finds_exactly_the_usb_device() {
    let devices = JetsonDevice::discover_all().unwrap();
    assert_eq!(devices.len(), 1);
    let usb = &devices[0];
    assert_eq!(usb.id(), "jetson-usb");
    assert_eq!(usb.model(), JetsonModel::Unknown);
    assert_eq!(usb.info().connection, ConnectionMethod::Usb);
    assert!(usb.info().jetpack_version.is_none());
    assert!(usb.info().hostname.is_none());
}

#[test]
fn exec_names_the_command() {
    let device = device_of("test", JetsonModel::Unknown);
    match device.exec("ls -la") {
        Err(Error::Internal(message)) => {
            assert_eq!(message, "Command execution not implemented: ls -la");
        }
        other => panic!("unexpected outcome: {:?}", other),
    }
}

#[test]
fn connect_keeps_the_address_as_given() {
    let device = JetsonDevice::connect("fe80::1").unwrap();
    assert_eq!(device.id(), "jetson-fe80::1");
    assert_eq!(device.model(), JetsonModel::Unknown);
    assert_eq!(device.info().connection, ConnectionMethod::Ethernet("fe80::1".to_string()));
    let unknown = device.available_memory_mb().unwrap();
    assert_eq!(unknown, 0);
    let hint: ComputeHint = device.compute_hint();
    assert_eq!(hint.memory_budget_mb, 0);
}
