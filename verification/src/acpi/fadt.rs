//! The Fixed ACPI Description Table.
use vstd::prelude::*;

use crate::byte_order::{le32, le64, read_u32_le, read_u64_le};

verus! {

/// Offset of the 32-bit DSDT address in the FADT.
pub const FADT_DSDT_OFFSET: usize = 40;

/// Offset of the 64-bit DSDT address in the FADT, present since ACPI 2.0.
pub const FADT_X_DSDT_OFFSET: usize = 140;

/// The size of the FADT fields read here.
pub const FADT_MIN_SIZE: usize = 148;

/// The FADT fields that locate the DSDT.
#[derive(Debug, Clone, Copy, PartialEq, Eq)]
pub struct Fadt {
    pub dsdt: u32,
    pub x_dsdt: u64,
}

impl Fadt {
    /// Reads the FADT out of the bytes of the table.
    pub fn read(table: &[u8]) -> (r: Self)
        requires
            table@.len() >= FADT_MIN_SIZE,
        ensures
            r.dsdt == le32(table@, FADT_DSDT_OFFSET as int),
            r.x_dsdt == le64(table@, FADT_X_DSDT_OFFSET as int),
    {
        Fadt {
            dsdt: read_u32_le(table, FADT_DSDT_OFFSET),
            x_dsdt: read_u64_le(table, FADT_X_DSDT_OFFSET),
        }
    }

    /// The physical address of the DSDT: the 64-bit field where it is set, else the 32-bit one.
    pub fn get_dsdt_paddr(&self) -> (r: u64)
        requires
            self.x_dsdt != 0 || self.dsdt != 0,
        ensures
            r == (if self.x_dsdt != 0 { self.x_dsdt } else { self.dsdt as u64 }),
            r != 0,
    {
        if self.x_dsdt != 0 {
            self.x_dsdt
        } else {
            self.dsdt as u64
        }
    }
}

} // verus!
