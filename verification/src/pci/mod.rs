//! PCI Express bus driver: configuration space, capabilities and topology.
use vstd::prelude::*;

pub mod capabilities;
pub mod cfg_space;
pub mod device_class;
pub mod topology;
pub mod tree;
pub mod tree_text;

verus! {

/// Number of device slots on one PCI(e) bus segment.
pub const MAX_DEVICES_PER_BUS: usize = 32;

/// Number of functions a single device slot can implement.
pub const MAX_FUNCTIONS_PER_DEVICE: usize = 8;

/// Errors of the PCI Express bus driver.
#[derive(Debug, Clone, Copy, PartialEq, Eq)]
pub enum Error {
    NotPciExpress,
    PciCapabilitiesNotSupported,
    PciCapabilityNotFound,
    InvalidLocation,
}

} // verus!
