//! The polymorphic network-endpoint capability and its traffic-control
//! ("VLAN") variant. An endpoint cycles between detached and attached:
//! `attach` installs the pair's network model and registers a network
//! device with the hypervisor, `detach` mirrors both steps, `save`
//! snapshots the endpoint's external-facing identity.

use crate::config::{build_config, build_config_spec, ConfigError, NetworkConfig, NetworkConfigView, NetworkPair};
use vstd::prelude::*;

verus! {

/// A failure reported by the network-pair or hypervisor collaborator,
/// re-raised unchanged in cause.
#[derive(Debug, Clone, PartialEq, Eq)]
pub struct CollaboratorError {
    pub message: String,
}

/// What went wrong during an endpoint lifecycle step; each variant names
/// the step that failed, so the caller sees which sub-operation to blame.
#[derive(Debug, Clone, PartialEq, Eq)]
pub enum EndpointError {
    /// Installing the network model on the host side failed.
    AddNetworkModel(CollaboratorError),
    /// Removing the network model from the host side failed.
    DelNetworkModel(CollaboratorError),
    /// The device configuration could not be built.
    GetNetworkConfig(ConfigError),
    /// The hypervisor refused to add the device.
    AddDevice(CollaboratorError),
    /// The hypervisor refused to remove the device.
    RemoveDevice(CollaboratorError),
}

/// A network device registration: the identifier the hypervisor files the
/// device under, and its configuration.
#[derive(Debug, Clone, PartialEq, Eq)]
pub struct NetworkDevice {
    pub id: String,
    pub config: NetworkConfig,
}

/// Mathematical image of a [`NetworkDevice`].
#[verifier::ext_equal]
pub struct NetworkDeviceView {
    pub id: Seq<char>,
    pub config: NetworkConfigView,
}

impl View for NetworkDevice {
    type V = NetworkDeviceView;

    open spec fn view(&self) -> NetworkDeviceView {
        NetworkDeviceView { id: self.id@, config: self.config@ }
    }
}

/// The kinds of device this core registers with the hypervisor; a closed
/// set with one member here.
#[derive(Debug, Clone, PartialEq, Eq)]
pub enum DeviceType {
    Network(NetworkDevice),
}

/// The host-side network-model collaborator of one interface pair: it
/// installs and removes the traffic-control rules on the host. Its work is
/// kernel I/O, so nothing is promised of its outcome.
pub trait NetworkModel {
    fn add_network_model(&mut self) -> Result<(), CollaboratorError>;

    fn del_network_model(&mut self) -> Result<(), CollaboratorError>;
}

/// The hypervisor collaborator: it registers and removes guest devices.
/// Its work is device emulation outside this core, so nothing is promised
/// of its outcome.
pub trait Hypervisor {
    fn add_device(&mut self, device: DeviceType) -> Result<(), CollaboratorError>;

    fn remove_device(&mut self, device: DeviceType) -> Result<(), CollaboratorError>;
}

/// Snapshot of a VLAN endpoint: the guest-visible interface name and the
/// pair's quality-of-service setting at the time of the call.
#[derive(Debug, Clone, PartialEq, Eq)]
pub struct VlanEndpointState {
    pub if_name: String,
    pub network_qos: bool,
}

/// Mathematical image of a [`VlanEndpointState`].
#[verifier::ext_equal]
pub struct VlanEndpointStateView {
    pub if_name: Seq<char>,
    pub network_qos: bool,
}

impl View for VlanEndpointState {
    type V = VlanEndpointStateView;

    open spec fn view(&self) -> VlanEndpointStateView {
        VlanEndpointStateView { if_name: self.if_name@, network_qos: self.network_qos }
    }
}

/// Snapshot of any endpoint variant; each variant fills in its own field.
#[derive(Debug, Clone, PartialEq, Eq)]
pub struct EndpointState {
    pub vlan_endpoint: Option<VlanEndpointState>,
}

/// Mathematical image of an [`EndpointState`].
#[verifier::ext_equal]
pub struct EndpointStateView {
    pub vlan_endpoint: Option<VlanEndpointStateView>,
}

impl View for EndpointState {
    type V = EndpointStateView;

    open spec fn view(&self) -> EndpointStateView {
        EndpointStateView {
            vlan_endpoint: match self.vlan_endpoint {
                Some(ref st) => Some(st@),
                None => None,
            },
        }
    }
}

/// The capability every endpoint variant satisfies: a guest-visible name,
/// a hardware address, attach and detach against the collaborators, and a
/// state snapshot. The spec functions fix, per variant, what the methods
/// must return.
pub trait Endpoint {
    /// The guest-visible interface name.
    spec fn spec_name(&self) -> Seq<char>;

    /// The host tap interface's hardware-address string.
    spec fn spec_hardware_addr(&self) -> Seq<char>;

    /// The device configuration this endpoint attaches with, or `None`
    /// when it cannot be built.
    spec fn spec_config(&self) -> Option<NetworkConfigView>;

    /// The snapshot `save` must produce, or `None` for a variant with no
    /// persistable state.
    spec fn spec_state(&self) -> Option<EndpointStateView>;

    fn name(&self) -> (r: String)
        ensures
            r@ == self.spec_name(),
    ;

    fn hardware_addr(&self) -> (r: String)
        ensures
            r@ == self.spec_hardware_addr(),
    ;

    /// Installs the network model, builds the device configuration and
    /// registers the device with the hypervisor; the first failing step
    /// aborts and is named in the error.
    fn attach<M: NetworkModel, H: Hypervisor>(&self, model: &mut M, hypervisor: &mut H) -> (r:
        Result<(), EndpointError>)
        ensures
            r is Ok ==> self.spec_config() is Some,
            r matches Err(EndpointError::GetNetworkConfig(e)) ==> self.spec_config() is None
                && e.hard_addr@ == self.spec_hardware_addr(),
            r matches Err(EndpointError::AddDevice(_)) ==> self.spec_config() is Some,
            !(r matches Err(EndpointError::DelNetworkModel(_))),
            !(r matches Err(EndpointError::RemoveDevice(_))),
    ;

    /// The mirror of `attach`: removes the network model, rebuilds the
    /// same device configuration and asks the hypervisor to remove the
    /// device; the first failing step aborts and is named in the error.
    fn detach<M: NetworkModel, H: Hypervisor>(&self, model: &mut M, hypervisor: &mut H) -> (r:
        Result<(), EndpointError>)
        ensures
            r is Ok ==> self.spec_config() is Some,
            r matches Err(EndpointError::GetNetworkConfig(e)) ==> self.spec_config() is None
                && e.hard_addr@ == self.spec_hardware_addr(),
            r matches Err(EndpointError::RemoveDevice(_)) ==> self.spec_config() is Some,
            !(r matches Err(EndpointError::AddNetworkModel(_))),
            !(r matches Err(EndpointError::AddDevice(_))),
    ;

    fn save(&self) -> (r: Option<EndpointState>)
        ensures
            match r {
                Some(state) => self.spec_state() == Some(state@),
                None => self.spec_state() is None,
            },
    ;
}

/// The traffic-control variant: an endpoint over a tap/virtual interface
/// pair whose host side carries a filter network model.
#[derive(Debug, Clone, PartialEq, Eq)]
pub struct VlanEndpoint {
    pub net_pair: NetworkPair,
}

impl VlanEndpoint {
    /// Wraps an interface pair that the network-pair collaborator has
    /// already materialized with the filter network-model kind.
    pub fn new(net_pair: NetworkPair) -> (r: Self)
        ensures
            r.net_pair == net_pair,
    {
        VlanEndpoint { net_pair }
    }

    /// Builds the device configuration for this endpoint's pair.
    pub fn get_network_config(&self) -> (r: Result<NetworkConfig, ConfigError>)
        ensures
            match r {
                Ok(config) => build_config_spec(self.net_pair) == Some(config@),
                Err(e) => build_config_spec(self.net_pair) is None && e.hard_addr@
                    == self.net_pair.tap_iface.hard_addr@,
            },
    {
        build_config(&self.net_pair)
    }

    /// The device registration handed to the hypervisor on attach and on
    /// detach: the device is filed under the guest-visible interface name
    /// and carries this endpoint's configuration.
    pub fn network_device(&self) -> (r: Result<NetworkDevice, ConfigError>)
        ensures
            match r {
                Ok(device) => device@.id == self.net_pair.virt_iface.name@ && build_config_spec(
                    self.net_pair,
                ) == Some(device@.config),
                Err(e) => build_config_spec(self.net_pair) is None && e.hard_addr@
                    == self.net_pair.tap_iface.hard_addr@,
            },
    {
        let config = match self.get_network_config() {
            Ok(c) => c,
            Err(e) => {
                return Err(e);
            },
        };
        Ok(NetworkDevice { id: self.net_pair.virt_iface.name.clone(), config })
    }
}

impl Endpoint for VlanEndpoint {
    open spec fn spec_name(&self) -> Seq<char> {
        self.net_pair.virt_iface.name@
    }

    open spec fn spec_hardware_addr(&self) -> Seq<char> {
        self.net_pair.tap_iface.hard_addr@
    }

    open spec fn spec_config(&self) -> Option<NetworkConfigView> {
        build_config_spec(self.net_pair)
    }

    open spec fn spec_state(&self) -> Option<EndpointStateView> {
        Some(
            EndpointStateView {
                vlan_endpoint: Some(
                    VlanEndpointStateView {
                        if_name: self.net_pair.virt_iface.name@,
                        network_qos: self.net_pair.network_qos,
                    },
                ),
            },
        )
    }

    fn name(&self) -> String {
        self.net_pair.virt_iface.name.clone()
    }

    fn hardware_addr(&self) -> String {
        self.net_pair.tap_iface.hard_addr.clone()
    }

    fn attach<M: NetworkModel, H: Hypervisor>(&self, model: &mut M, hypervisor: &mut H) -> Result<
        (),
        EndpointError,
    > {
        match model.add_network_model() {
            Ok(()) => {},
            Err(e) => {
                return Err(EndpointError::AddNetworkModel(e));
            },
        }
        let device = match self.network_device() {
            Ok(d) => d,
            Err(e) => {
                return Err(EndpointError::GetNetworkConfig(e));
            },
        };
        match hypervisor.add_device(DeviceType::Network(device)) {
            Ok(()) => Ok(()),
            Err(e) => Err(EndpointError::AddDevice(e)),
        }
    }

    fn detach<M: NetworkModel, H: Hypervisor>(&self, model: &mut M, hypervisor: &mut H) -> Result<
        (),
        EndpointError,
    > {
        match model.del_network_model() {
            Ok(()) => {},
            Err(e) => {
                return Err(EndpointError::DelNetworkModel(e));
            },
        }
        let device = match self.network_device() {
            Ok(d) => d,
            Err(e) => {
                return Err(EndpointError::GetNetworkConfig(e));
            },
        };
        match hypervisor.remove_device(DeviceType::Network(device)) {
            Ok(()) => Ok(()),
            Err(e) => Err(EndpointError::RemoveDevice(e)),
        }
    }

    fn save(&self) -> Option<EndpointState> {
        Some(
            EndpointState {
                vlan_endpoint: Some(
                    VlanEndpointState {
                        if_name: self.net_pair.virt_iface.name.clone(),
                        network_qos: self.net_pair.network_qos,
                    },
                ),
            },
        )
    }
}

/// Law: the device registration is a function of the endpoint alone, so
/// any two registrations built for the same endpoint — in particular the
/// one used at attach and the one rebuilt at detach — are identical, and
/// the hypervisor can match the removal against the earlier addition.
pub proof fn lemma_device_request_identical(
    endpoint: VlanEndpoint,
    first: NetworkDeviceView,
    second: NetworkDeviceView,
)
    requires
        first.id == endpoint.spec_name(),
        Some(first.config) == endpoint.spec_config(),
        second.id == endpoint.spec_name(),
        Some(second.config) == endpoint.spec_config(),
    ensures
        first == second,
{
    assert(first =~= second);
}

/// Law: a VLAN endpoint always has a snapshot, and the snapshot's
/// interface name is the endpoint's guest-visible name while its
/// quality-of-service setting is the pair's at the time of the call.
pub proof fn lemma_vlan_save_identity(endpoint: VlanEndpoint)
    ensures
        endpoint.spec_state() matches Some(state) && state.vlan_endpoint matches Some(vlan)
            && vlan.if_name == endpoint.spec_name() && vlan.network_qos
            == endpoint.net_pair.network_qos,
{
}

} // verus!
