use net_endpoint::config::{build_config, Interface, NetworkConfig, NetworkPair};
use net_endpoint::endpoint::{
    CollaboratorError, DeviceType, Endpoint, EndpointError, Hypervisor, NetworkModel,
    VlanEndpoint,
};
use net_endpoint::mac::parse_mac;

fn sample_pair() -> NetworkPair {
    NetworkPair {
        tap_iface: Interface {
            name: String::from("tap0"),
            hard_addr: String::from("02:42:ac:11:00:02"),
        },
        virt_iface: Interface {
            name: String::from("eth0"),
            hard_addr: String::from("02:42:ac:11:00:03"),
        },
        network_qos: true,
    }
}

struct MockModel {
    adds: u32,
    dels: u32,
    fail: bool,
}

impl NetworkModel for MockModel {
    fn add_network_model(&mut self) -> Result<(), CollaboratorError> {
        self.adds += 1;
        if self.fail {
            Err(CollaboratorError {
                message: String::from("tc refused the filter"),
            })
        } else {
            Ok(())
        }
    }

    fn del_network_model(&mut self) -> Result<(), CollaboratorError> {
        self.dels += 1;
        if self.fail {
            Err(CollaboratorError {
                message: String::from("tc refused the filter"),
            })
        } else {
            Ok(())
        }
    }
}

struct MockHypervisor {
    added: Vec<DeviceType>,
    removed: Vec<DeviceType>,
    fail: bool,
}

impl Hypervisor for MockHypervisor {
    fn add_device(&mut self, device: DeviceType) -> Result<(), CollaboratorError> {
        if self.fail {
            return Err(CollaboratorError {
                message: String::from("no free slot"),
            });
        }
        self.added.push(device);
        Ok(())
    }

    fn remove_device(&mut self, device: DeviceType) -> Result<(), CollaboratorError> {
        if self.fail {
            return Err(CollaboratorError {
                message: String::from("no such device"),
            });
        }
        self.removed.push(device);
        Ok(())
    }
}

#[test]
fn test_parse_mac_valid() {
    let bytes = parse_mac("02:42:ac:11:00:02").unwrap();
    assert_eq!(bytes, vec![0x02, 0x42, 0xac, 0x11, 0x00, 0x02]);
    let dashed = parse_mac("02-42-AC-11-00-FF").unwrap();
    assert_eq!(dashed, vec![0x02, 0x42, 0xac, 0x11, 0x00, 0xff]);
}

#[test]
fn test_parse_mac_malformed() {
    assert_eq!(parse_mac(""), None);
    assert_eq!(parse_mac("02:42:ac:11:00"), None);
    assert_eq!(parse_mac("02:42:ac:11:00:0g"), None);
    assert_eq!(parse_mac("0242:ac:11:00:02:"), None);
    assert_eq!(parse_mac("02:42:ac:11:00:02:33"), None);
    // Mixing the two delimiter kinds within one string is not a standard
    // form and is rejected.
    assert_eq!(parse_mac("02:42-ac:11:00:02"), None);
    assert_eq!(parse_mac("02-42-ac-11-00:02"), None);
}

#[test]
fn test_build_config() {
    let pair = sample_pair();
    let config = build_config(&pair).unwrap();
    assert_eq!(config.host_dev_name, "tap0".to_string());
    assert_eq!(
        config.guest_mac,
        Some(vec![0x02, 0x42, 0xac, 0x11, 0x00, 0x02])
    );
}

#[test]
fn test_build_config_malformed_hard_addr() {
    let mut pair = sample_pair();
    pair.tap_iface.hard_addr = String::new();
    let err = build_config(&pair).unwrap_err();
    assert_eq!(err.hard_addr, String::new());

    pair.tap_iface.hard_addr = String::from("not a mac");
    let err = build_config(&pair).unwrap_err();
    assert_eq!(err.hard_addr, "not a mac".to_string());
}

#[test]
fn test_attach_then_detach_registers_and_removes_device() {
    let endpoint = VlanEndpoint::new(sample_pair());
    let mut model = MockModel {
        adds: 0,
        dels: 0,
        fail: false,
    };
    let mut hypervisor = MockHypervisor {
        added: Vec::new(),
        removed: Vec::new(),
        fail: false,
    };

    endpoint.attach(&mut model, &mut hypervisor).unwrap();
    assert_eq!(model.adds, 1);
    assert_eq!(hypervisor.added.len(), 1);
    let DeviceType::Network(added) = hypervisor.added[0].clone();
    assert_eq!(added.id, "eth0".to_string());
    assert_eq!(added.config.host_dev_name, "tap0".to_string());
    assert_eq!(
        added.config.guest_mac,
        Some(vec![0x02, 0x42, 0xac, 0x11, 0x00, 0x02])
    );

    endpoint.detach(&mut model, &mut hypervisor).unwrap();
    assert_eq!(model.dels, 1);
    assert_eq!(hypervisor.removed.len(), 1);
    let DeviceType::Network(removed) = hypervisor.removed[0].clone();
    assert_eq!(removed, added);
}

#[test]
fn test_attach_fails_when_model_install_fails() {
    let endpoint = VlanEndpoint::new(sample_pair());
    let mut model = MockModel {
        adds: 0,
        dels: 0,
        fail: true,
    };
    let mut hypervisor = MockHypervisor {
        added: Vec::new(),
        removed: Vec::new(),
        fail: false,
    };
    let err = endpoint.attach(&mut model, &mut hypervisor).unwrap_err();
    assert!(matches!(err, EndpointError::AddNetworkModel(_)));
    // The failing step aborted the attach before the hypervisor was asked.
    assert_eq!(hypervisor.added.len(), 0);
}

#[test]
fn test_attach_fails_on_malformed_hard_addr() {
    let mut pair = sample_pair();
    pair.tap_iface.hard_addr = String::from("xx:yy");
    let endpoint = VlanEndpoint::new(pair);
    let mut model = MockModel {
        adds: 0,
        dels: 0,
        fail: false,
    };
    let mut hypervisor = MockHypervisor {
        added: Vec::new(),
        removed: Vec::new(),
        fail: false,
    };
    let err = endpoint.attach(&mut model, &mut hypervisor).unwrap_err();
    match err {
        EndpointError::GetNetworkConfig(e) => assert_eq!(e.hard_addr, "xx:yy".to_string()),
        other => panic!("unexpected error {:?}", other),
    }
    assert_eq!(hypervisor.added.len(), 0);
}

#[test]
fn test_attach_fails_when_hypervisor_refuses() {
    let endpoint = VlanEndpoint::new(sample_pair());
    let mut model = MockModel {
        adds: 0,
        dels: 0,
        fail: false,
    };
    let mut hypervisor = MockHypervisor {
        added: Vec::new(),
        removed: Vec::new(),
        fail: true,
    };
    let err = endpoint.attach(&mut model, &mut hypervisor).unwrap_err();
    assert!(matches!(err, EndpointError::AddDevice(_)));
}

#[test]
fn test_detach_fails_when_hypervisor_refuses() {
    let endpoint = VlanEndpoint::new(sample_pair());
    let mut model = MockModel {
        adds: 0,
        dels: 0,
        fail: false,
    };
    let mut hypervisor = MockHypervisor {
        added: Vec::new(),
        removed: Vec::new(),
        fail: true,
    };
    let err = endpoint.detach(&mut model, &mut hypervisor).unwrap_err();
    assert!(matches!(err, EndpointError::RemoveDevice(_)));
}

#[test]
fn test_name_and_hardware_addr() {
    let endpoint = VlanEndpoint::new(sample_pair());
    assert_eq!(endpoint.name(), "eth0".to_string());
    assert_eq!(endpoint.hardware_addr(), "02:42:ac:11:00:02".to_string());
}

#[test]
fn test_get_network_config() {
    let endpoint = VlanEndpoint::new(sample_pair());
    let config = endpoint.get_network_config().unwrap();
    assert_eq!(
        config,
        NetworkConfig {
            host_dev_name: String::from("tap0"),
            guest_mac: Some(vec![0x02, 0x42, 0xac, 0x11, 0x00, 0x02]),
        }
    );
}

#[test]
fn test_network_device_request() {
    let endpoint = VlanEndpoint::new(sample_pair());
    let device = endpoint.network_device().unwrap();
    assert_eq!(device.id, "eth0".to_string());
    assert_eq!(device.config.host_dev_name, "tap0".to_string());
    assert_eq!(
        device.config.guest_mac,
        Some(vec![0x02, 0x42, 0xac, 0x11, 0x00, 0x02])
    );
}

#[test]
fn test_save_snapshots_identity() {
    let mut endpoint = VlanEndpoint::new(sample_pair());
    let state = endpoint.save().unwrap();
    let vlan_state = state.vlan_endpoint.clone().unwrap();
    assert_eq!(vlan_state.if_name, endpoint.name());
    assert_eq!(vlan_state.network_qos, true);

    // A snapshot is a point-in-time copy: later mutation of the pair does
    // not reach into it.
    endpoint.net_pair.network_qos = false;
    endpoint.net_pair.virt_iface.name = String::from("eth7");
    assert_eq!(state.vlan_endpoint.unwrap().if_name, "eth0".to_string());
    assert_eq!(vlan_state.network_qos, true);
}
