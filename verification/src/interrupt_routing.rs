//! The interrupt router's vocabulary: interrupt sources and targets.
use vstd::prelude::*;

use crate::pci;
use crate::pci::topology::PcieLocation;

verus! {

/// Number of legacy ISA interrupt lines.
pub const LEGACY_IRQ_COUNT: usize = 16;

/// Logical processor number.
pub type LpId = u32;

/// Identifier of a wired interrupt controller.
pub type WiredIntCtlrId = u8;

/// Input number of a wired interrupt controller.
pub type WiredIntCtlrSrcNum = u32;

/// The vector that tells interrupt sources apart on a processor.
pub type IntSrcDscr = u8;

pub enum Error {
    InterruptVectorsExhausted,
    InterruptRedirectionEntriesExhausted,
    PcieError(pci::Error),
}

/// External interrupt controller input source
#[derive(Clone, Copy, Debug)]
pub struct WiredSource {
    pub wired_ic_id: WiredIntCtlrId,
    pub source_num: WiredIntCtlrSrcNum,
    pub polarity: bool,
    pub latched: bool,
}

/// PCIe MSI source for an interrupt signal
#[derive(Clone, Copy, Debug)]
pub struct PcieMsiSource {
    pub location: PcieLocation,
    pub msi_num: u32,
}

/// PCIe MSI-X source for an interrupt signal
#[derive(Clone, Copy, Debug)]
pub struct PcieMsiXSource {
    pub location: PcieLocation,
    pub table_index: u32,
}

/// The supported interrupt signal routing mechanisms
#[derive(Clone, Copy, Debug)]
pub enum InterruptSource {
    Wired(WiredSource),
    PcieMsi(PcieMsiSource),
    PcieMsiX(PcieMsiXSource),
}

#[derive(Clone, Copy, Debug)]
pub enum InterruptTarget {
    Processor { lp_id: LpId, discriminator: IntSrcDscr },
    Remapper,
}

} // verus!
