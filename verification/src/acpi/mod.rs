//! ACPI static tables: the MADT, MCFG and FADT, and the interrupt routing read from them.
use vstd::prelude::*;

pub mod aml;
pub mod fadt;
pub mod interrupt_flags;
pub mod irq_routing;
pub mod madt;
pub mod mcfg;

verus! {

/// A global system interrupt number.
pub type GlobalSystemInterrupt = u32;

/// The size of the standard header that starts every ACPI system description table.
pub const ACPI_TABLE_HEADER_SIZE: usize = 36;

#[derive(Debug, Clone, Copy, PartialEq, Eq)]
pub enum Error {
    IrqValOutOfRange,
}

} // verus!
