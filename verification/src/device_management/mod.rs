//! The device manager: the control planes through which the rest of the kernel reaches devices,
//! and where devices are found.
use vstd::prelude::*;

pub mod drivers;
pub mod topology;
pub mod uart;
pub mod wired_interrupt_controller;

use std::sync::Arc;

use crate::device_management::uart::Uart;
use crate::pci::topology::{PcieLocation, PcieSegmentGroup};

verus! {

/// The device class control planes: the PCIe root complex, by segment group, and the UARTs.
pub struct DeviceControlPlaneTable {
    pub pcie_root_complex: Vec<PcieSegmentGroup>,
    pub uart: Vec<Arc<dyn Uart>>,
}

/// Where a device is found.
pub enum DeviceLocation {
    Pcie(PcieLocation),
}

} // verus!
