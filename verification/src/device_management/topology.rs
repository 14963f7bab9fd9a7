//! The topology of the peripheral devices of the system, as the device manager sees it.
use vstd::prelude::*;

use crate::pci::topology::{PcieLocation, PcieSegmentGroup, PcieTopology};

verus! {

/// A device function's location in the bus topology, through which its driver reaches it.
pub enum DeviceLocation {
    Pcie(PcieLocation),
}

/// The peripheral devices of the system, by bus.
pub struct DeviceTopology {
    pub pcie: PcieTopology,
}

impl DeviceTopology {
    /// The topology of the PCIe segment groups `segment_groups`.
    pub fn new(segment_groups: Vec<PcieSegmentGroup>) -> (r: Self)
        ensures
            r.pcie.segments@ == segment_groups@,
    {
        DeviceTopology { pcie: PcieTopology::new(segment_groups) }
    }
}

} // verus!
