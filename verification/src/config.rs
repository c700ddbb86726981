//! The network-interface pair as this core reads it, and the builder that
//! derives the hypervisor-facing device configuration from it.

use crate::mac::{parse_mac, parse_mac_spec};
use vstd::prelude::*;

verus! {

/// One network interface as discovered on the host: its name and its
/// hardware address as a text string.
#[derive(Debug, Clone, PartialEq, Eq)]
pub struct Interface {
    pub name: String,
    pub hard_addr: String,
}

/// The tap/virtual interface pair an endpoint is built over, together with
/// the pair's quality-of-service setting. The pair itself is materialized
/// and owned by the network-pair collaborator; this core only reads it.
#[derive(Debug, Clone, PartialEq, Eq)]
pub struct NetworkPair {
    pub tap_iface: Interface,
    pub virt_iface: Interface,
    pub network_qos: bool,
}

/// The device configuration handed to the hypervisor: the host-side tap
/// device name and the guest's six-byte hardware address.
#[derive(Debug, Clone, PartialEq, Eq)]
pub struct NetworkConfig {
    pub host_dev_name: String,
    pub guest_mac: Option<Vec<u8>>,
}

/// Mathematical image of a [`NetworkConfig`].
#[verifier::ext_equal]
pub struct NetworkConfigView {
    pub host_dev_name: Seq<char>,
    pub guest_mac: Option<Seq<u8>>,
}

impl View for NetworkConfig {
    type V = NetworkConfigView;

    open spec fn view(&self) -> NetworkConfigView {
        NetworkConfigView {
            host_dev_name: self.host_dev_name@,
            guest_mac: match self.guest_mac {
                Some(ref m) => Some(m@),
                None => None,
            },
        }
    }
}

/// A hardware-address string that could not be parsed; carries the
/// offending string. This is a configuration-integrity fault, never
/// retried.
#[derive(Debug, Clone, PartialEq, Eq)]
pub struct ConfigError {
    pub hard_addr: String,
}

/// The device configuration a pair gives rise to, or `None` when the tap
/// interface's hardware address does not parse.
pub open spec fn build_config_spec(pair: NetworkPair) -> Option<NetworkConfigView> {
    match parse_mac_spec(pair.tap_iface.hard_addr@) {
        Some(m) => Some(
            NetworkConfigView { host_dev_name: pair.tap_iface.name@, guest_mac: Some(m) },
        ),
        None => None,
    }
}

/// Builds the hypervisor device configuration from an interface pair: the
/// host device name is the tap interface's name and the guest hardware
/// address is the tap interface's parsed hardware address; an unparseable
/// hardware-address string is an error carrying that string.
pub fn build_config(pair: &NetworkPair) -> (r: Result<NetworkConfig, ConfigError>)
    ensures
        match r {
            Ok(config) => build_config_spec(*pair) == Some(config@),
            Err(e) => build_config_spec(*pair) is None && e.hard_addr@
                == pair.tap_iface.hard_addr@,
        },
{
    match parse_mac(pair.tap_iface.hard_addr.as_str()) {
        Some(guest_mac) => Ok(
            NetworkConfig { host_dev_name: pair.tap_iface.name.clone(), guest_mac: Some(guest_mac) },
        ),
        None => Err(ConfigError { hard_addr: pair.tap_iface.hard_addr.clone() }),
    }
}

} // verus!
