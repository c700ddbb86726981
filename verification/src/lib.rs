//! Core of a virtual-machine network-endpoint layer: a decoder that turns
//! kernel address records into typed addresses, a builder that derives the
//! hypervisor-facing device configuration from an interface pair, and a
//! polymorphic endpoint capability with one traffic-control ("VLAN") variant.

pub mod address;
pub mod config;
pub mod endpoint;
pub mod mac;
