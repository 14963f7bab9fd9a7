//! The Multiple APIC Description Table: its entries, indexed by type, and the entry layouts
//! the kernel reads. Ref: ACPI 6.6 Section 5.2.12
use vstd::prelude::*;

use crate::acpi::interrupt_flags::InterruptFlags;
use crate::acpi::GlobalSystemInterrupt;
use crate::byte_order::{copy_bytes, le16, le32, lemma_slice_len_fits, read_u16_le, read_u32_le, read_u8};

verus! {

/// The size of the MADT before its entries: the table header, the local interrupt controller
/// address and the flags.
pub const MADT_HEADER_SIZE: usize = 44;

/// The size of the type and length bytes that start every entry.
pub const MADT_ENTRY_GENERIC_SIZE: usize = 2;

/// Number of MADT entry types the kernel indexes.
pub const NUM_ENTRY_TYPES: usize = 28;

#[derive(Debug, Clone, Copy, PartialEq, Eq)]
pub enum MadtEntryType {
    _LocalApic,
    IoApic,
    InterruptSourceOverride,
    NmiSource,
    _LocalApicNmi,
    _LocalApicAddressOverride,
    _IoSapic,
    _LocalSapic,
    _PlatformInterruptSource,
    ProcessorLocalX2Apic,
    LocalX2ApicNmi,
    GicCpuInterface,
    GicDistributor,
    GicMsiFrame,
    GicRedistributor,
    GicInterruptTranslationService,
    _MultiprocessorWakeup,
    _CoreProgrammableInterruptController,
    _LegacyIoProgrammableInterruptController,
    _HyperTransportProgrammableInterruptController,
    _ExtendIoProgrammableInterruptController,
    _MsiProgrammableInterruptController,
    _BridgeIoProgrammableInterruptController,
    _LowPinCountProgrammableInterruptController,
    RiscVHartLocalInterruptController,
    RiscVIncomingMsiController,
    RiscVAdvancedPlatformLevelInterruptController,
    RiscVPlatformLevelInterruptController,
}

impl MadtEntryType {
    /// The entry type byte of this entry type.
    pub open spec fn raw_value(self) -> u8 {
        match self {
            MadtEntryType::_LocalApic => 0,
            MadtEntryType::IoApic => 1,
            MadtEntryType::InterruptSourceOverride => 2,
            MadtEntryType::NmiSource => 3,
            MadtEntryType::_LocalApicNmi => 4,
            MadtEntryType::_LocalApicAddressOverride => 5,
            MadtEntryType::_IoSapic => 6,
            MadtEntryType::_LocalSapic => 7,
            MadtEntryType::_PlatformInterruptSource => 8,
            MadtEntryType::ProcessorLocalX2Apic => 9,
            MadtEntryType::LocalX2ApicNmi => 10,
            MadtEntryType::GicCpuInterface => 11,
            MadtEntryType::GicDistributor => 12,
            MadtEntryType::GicMsiFrame => 13,
            MadtEntryType::GicRedistributor => 14,
            MadtEntryType::GicInterruptTranslationService => 15,
            MadtEntryType::_MultiprocessorWakeup => 16,
            MadtEntryType::_CoreProgrammableInterruptController => 17,
            MadtEntryType::_LegacyIoProgrammableInterruptController => 18,
            MadtEntryType::_HyperTransportProgrammableInterruptController => 19,
            MadtEntryType::_ExtendIoProgrammableInterruptController => 20,
            MadtEntryType::_MsiProgrammableInterruptController => 21,
            MadtEntryType::_BridgeIoProgrammableInterruptController => 22,
            MadtEntryType::_LowPinCountProgrammableInterruptController => 23,
            MadtEntryType::RiscVHartLocalInterruptController => 24,
            MadtEntryType::RiscVIncomingMsiController => 25,
            MadtEntryType::RiscVAdvancedPlatformLevelInterruptController => 26,
            MadtEntryType::RiscVPlatformLevelInterruptController => 27,
        }
    }

    pub fn raw(&self) -> (r: u8)
        ensures
            r == self.raw_value(),
            r < NUM_ENTRY_TYPES,
    {
        match self {
            MadtEntryType::_LocalApic => 0,
            MadtEntryType::IoApic => 1,
            MadtEntryType::InterruptSourceOverride => 2,
            MadtEntryType::NmiSource => 3,
            MadtEntryType::_LocalApicNmi => 4,
            MadtEntryType::_LocalApicAddressOverride => 5,
            MadtEntryType::_IoSapic => 6,
            MadtEntryType::_LocalSapic => 7,
            MadtEntryType::_PlatformInterruptSource => 8,
            MadtEntryType::ProcessorLocalX2Apic => 9,
            MadtEntryType::LocalX2ApicNmi => 10,
            MadtEntryType::GicCpuInterface => 11,
            MadtEntryType::GicDistributor => 12,
            MadtEntryType::GicMsiFrame => 13,
            MadtEntryType::GicRedistributor => 14,
            MadtEntryType::GicInterruptTranslationService => 15,
            MadtEntryType::_MultiprocessorWakeup => 16,
            MadtEntryType::_CoreProgrammableInterruptController => 17,
            MadtEntryType::_LegacyIoProgrammableInterruptController => 18,
            MadtEntryType::_HyperTransportProgrammableInterruptController => 19,
            MadtEntryType::_ExtendIoProgrammableInterruptController => 20,
            MadtEntryType::_MsiProgrammableInterruptController => 21,
            MadtEntryType::_BridgeIoProgrammableInterruptController => 22,
            MadtEntryType::_LowPinCountProgrammableInterruptController => 23,
            MadtEntryType::RiscVHartLocalInterruptController => 24,
            MadtEntryType::RiscVIncomingMsiController => 25,
            MadtEntryType::RiscVAdvancedPlatformLevelInterruptController => 26,
            MadtEntryType::RiscVPlatformLevelInterruptController => 27,
        }
    }
}

/// The offsets of the MADT entries, in table order, from the entry at `start` up to the end of
/// the table at `end`. The walk stops at an entry whose type and length bytes or whose stated
/// length does not fit before `end`, or whose length is shorter than those two bytes.
pub open spec fn madt_entries(table: Seq<u8>, start: int, end: int) -> Seq<usize>
    decreases end - start,
{
    if start + MADT_ENTRY_GENERIC_SIZE > end {
        Seq::empty()
    } else {
        let len = table[start + 1] as int;
        if len < MADT_ENTRY_GENERIC_SIZE || start + len > end {
            Seq::empty()
        } else {
            seq![start as usize] + madt_entries(table, start + len, end)
        }
    }
}

/// The entry at `off` has its type and length bytes, and all the bytes its length states,
/// within the table.
pub open spec fn entry_fits(table: Seq<u8>, off: int) -> bool {
    &&& off >= 0
    &&& off + MADT_ENTRY_GENERIC_SIZE <= table.len()
    &&& off + table[off + 1] <= table.len()
}

/// The entries of `offsets` whose type byte is `entry_type`, in order.
pub open spec fn entries_of_type(table: Seq<u8>, offsets: Seq<usize>, entry_type: int) -> Seq<usize>
    decreases offsets.len(),
{
    if offsets.len() == 0 {
        Seq::empty()
    } else {
        let rest = entries_of_type(table, offsets.drop_last(), entry_type);
        if table[offsets.last() as int] as int == entry_type {
            rest.push(offsets.last())
        } else {
            rest
        }
    }
}

/// The MADT, held as the bytes of the table.
pub struct Madt {
    bytes: Vec<u8>,
}

impl View for Madt {
    type V = Seq<u8>;

    closed spec fn view(&self) -> Seq<u8> {
        self.bytes@
    }
}

impl Madt {
    #[verifier::type_invariant]
    spec fn table_present(&self) -> bool {
        &&& self.bytes@.len() >= MADT_HEADER_SIZE
        &&& le32(self.bytes@, 4) <= self.bytes@.len()
    }

    /// The length the table header states.
    pub open spec fn length_spec(table: Seq<u8>) -> int {
        le32(table, 4)
    }

    /// The MADT in `bytes`, which hold the whole table as its header states its length.
    pub fn from_bytes(bytes: Vec<u8>) -> (r: Self)
        requires
            bytes@.len() >= MADT_HEADER_SIZE,
            le32(bytes@, 4) <= bytes@.len(),
        ensures
            r@ == bytes@,
    {
        Madt { bytes }
    }

    /// The offsets of all entries of the table, in table order.
    pub fn entry_offsets(&self) -> (r: Vec<usize>)
        ensures
            r@ == madt_entries(self@, MADT_HEADER_SIZE as int, Self::length_spec(self@)),
            forall|i: int| 0 <= i < r@.len() ==> entry_fits(self@, #[trigger] r@[i] as int),
    {
        proof {
            use_type_invariant(self);
        }
        let table = self.bytes.as_slice();
        let end = read_u32_le(table, 4) as usize;
        let mut offsets: Vec<usize> = Vec::new();
        let mut start: usize = MADT_HEADER_SIZE;
        while start <= end && end - start >= MADT_ENTRY_GENERIC_SIZE
            invariant
                table@ == self@,
                end == Self::length_spec(self@),
                end <= table@.len(),
                start >= MADT_HEADER_SIZE,
                offsets@ + madt_entries(table@, start as int, end as int)
                    == madt_entries(table@, MADT_HEADER_SIZE as int, end as int),
                forall|i: int| 0 <= i < offsets@.len() ==> entry_fits(table@, #[trigger] offsets@[i] as int),
            decreases end - start,
        {
            let len = read_u8(table, start + 1) as usize;
            if len < MADT_ENTRY_GENERIC_SIZE || len > end - start {
                assert(offsets@ =~= offsets@ + madt_entries(table@, start as int, end as int));
                return offsets;
            }
            let ghost before = offsets@;
            offsets.push(start);
            assert(before + madt_entries(table@, start as int, end as int)
                =~= offsets@ + madt_entries(table@, start + len, end as int));
            start = start + len;
        }
        assert(offsets@ =~= offsets@ + madt_entries(table@, start as int, end as int));
        offsets
    }

    /// Indexes the entries of the table by their type. Entries of types the kernel does not
    /// index are left out.
    pub fn parse(&self) -> (r: MadtEntryIndex)
        ensures
            r.table@ == self@,
            r.ptr_matrix@.len() == NUM_ENTRY_TYPES,
            forall|t: int| 0 <= t < NUM_ENTRY_TYPES ==> (#[trigger] r.ptr_matrix@[t])@
                == entries_of_type(self@, madt_entries(self@, MADT_HEADER_SIZE as int, Self::length_spec(self@)), t),
            r.wf(),
    {
        let offsets = self.entry_offsets();
        let table = self.bytes.as_slice();
        let mut ptr_matrix: Vec<Vec<usize>> = Vec::new();
        let mut t: usize = 0;
        while t < NUM_ENTRY_TYPES
            invariant
                table@ == self@,
                t <= NUM_ENTRY_TYPES,
                ptr_matrix@.len() == t,
                forall|i: int| 0 <= i < offsets@.len() ==> entry_fits(table@, #[trigger] offsets@[i] as int),
                forall|u: int| 0 <= u < t ==> (#[trigger] ptr_matrix@[u])@ == entries_of_type(table@, offsets@, u),
                forall|u: int, k: int| 0 <= u < t && 0 <= k < ptr_matrix@[u]@.len()
                    ==> entry_fits(table@, #[trigger] ptr_matrix@[u]@[k] as int),
            decreases NUM_ENTRY_TYPES - t,
        {
            let mut row: Vec<usize> = Vec::new();
            let mut i: usize = 0;
            while i < offsets.len()
                invariant
                    table@ == self@,
                    t < NUM_ENTRY_TYPES,
                    i <= offsets@.len(),
                    forall|k: int| 0 <= k < offsets@.len() ==> entry_fits(table@, #[trigger] offsets@[k] as int),
                    row@ == entries_of_type(table@, offsets@.take(i as int), t as int),
                    forall|k: int| 0 <= k < row@.len() ==> entry_fits(table@, #[trigger] row@[k] as int),
                decreases offsets@.len() - i,
            {
                let off = offsets[i];
                assert(offsets@.take(i + 1).drop_last() =~= offsets@.take(i as int));
                if read_u8(table, off) as usize == t {
                    row.push(off);
                }
                i = i + 1;
            }
            assert(offsets@.take(offsets@.len() as int) =~= offsets@);
            ptr_matrix.push(row);
            t = t + 1;
        }
        let copy = copy_bytes(table);
        MadtEntryIndex { table: copy, ptr_matrix }
    }
}

/// The MADT entries indexed by type: for each type, the offsets of its entries in table order.
pub struct MadtEntryIndex {
    pub table: Vec<u8>,
    pub ptr_matrix: Vec<Vec<usize>>,
}

impl MadtEntryIndex {
    /// There is a row for each indexed type, and each offset holds at least an entry's type and
    /// length bytes.
    pub open spec fn wf(&self) -> bool {
        &&& self.ptr_matrix@.len() == NUM_ENTRY_TYPES
        &&& forall|t: int, i: int| 0 <= t < NUM_ENTRY_TYPES && 0 <= i < self.ptr_matrix@[t]@.len()
            ==> entry_fits(self.table@, #[trigger] self.ptr_matrix@[t]@[i] as int)
    }

    /// The offsets of the entries with type `entry_type`, in table order.
    pub fn get_entries_with_type(&self, entry_type: MadtEntryType) -> (r: &Vec<usize>)
        requires
            self.wf(),
        ensures
            r@ == self.ptr_matrix@[entry_type.raw_value() as int]@,
    {
        &self.ptr_matrix[entry_type.raw() as usize]
    }
}

/// The MADT I/O APIC Structure. Ref: ACPI 6.6 Section 5.2.12.3
#[derive(Debug, Clone, Copy, PartialEq, Eq)]
pub struct IoApicEntry {
    pub entry_type: u8,
    pub length: u8,
    pub ioapic_id: u8,
    pub reserved: u8,
    pub ioapic_address: u32,
    pub global_system_interrupt_base: GlobalSystemInterrupt,
}

pub const IOAPIC_ENTRY_SIZE: usize = 12;

impl IoApicEntry {
    /// The entry laid out at offset `off` of `table`.
    pub open spec fn from_spec(table: Seq<u8>, off: int) -> IoApicEntry {
        IoApicEntry {
            entry_type: table[off],
            length: table[off + 1],
            ioapic_id: table[off + 2],
            reserved: table[off + 3],
            ioapic_address: le32(table, off + 4) as u32,
            global_system_interrupt_base: le32(table, off + 8) as u32,
        }
    }

    /// Reads the I/O APIC entry at offset `off` of the table.
    pub fn read(table: &[u8], off: usize) -> (r: Self)
        requires
            off + IOAPIC_ENTRY_SIZE <= table@.len(),
        ensures
            r == Self::from_spec(table@, off as int),
            r.entry_type == table@[off as int],
            r.length == table@[off + 1],
            r.ioapic_id == table@[off + 2],
            r.reserved == table@[off + 3],
            r.ioapic_address == le32(table@, off + 4),
            r.global_system_interrupt_base == le32(table@, off + 8),
    {
        proof {
            lemma_slice_len_fits(table);
        }
        IoApicEntry {
            entry_type: read_u8(table, off),
            length: read_u8(table, off + 1),
            ioapic_id: read_u8(table, off + 2),
            reserved: read_u8(table, off + 3),
            ioapic_address: read_u32_le(table, off + 4),
            global_system_interrupt_base: read_u32_le(table, off + 8),
        }
    }

    pub fn id(&self) -> (r: u8)
        ensures
            r == self.ioapic_id,
    {
        self.ioapic_id
    }

    /// The physical address of the I/O APIC's registers.
    pub fn address(&self) -> (r: u64)
        ensures
            r == self.ioapic_address,
    {
        self.ioapic_address as u64
    }

    pub fn gsi_base(&self) -> (r: GlobalSystemInterrupt)
        ensures
            r == self.global_system_interrupt_base,
    {
        self.global_system_interrupt_base
    }
}

/// The MADT Interrupt Source Override Structure. Ref: ACPI 6.6 Section 5.2.12.5
#[derive(Debug, Clone, Copy, PartialEq, Eq)]
pub struct InterruptSourceOverrideEntry {
    pub entry_type: u8,
    pub length: u8,
    /// Always 0, meaning the ISA bus
    pub bus: u8,
    pub irq_source: u8,
    pub global_system_interrupt: GlobalSystemInterrupt,
    pub flags: InterruptFlags,
}

pub const INTERRUPT_SOURCE_OVERRIDE_ENTRY_SIZE: usize = 10;

impl InterruptSourceOverrideEntry {
    /// The entry laid out at offset `off` of `table`.
    pub open spec fn from_spec(table: Seq<u8>, off: int) -> InterruptSourceOverrideEntry {
        InterruptSourceOverrideEntry {
            entry_type: table[off],
            length: table[off + 1],
            bus: table[off + 2],
            irq_source: table[off + 3],
            global_system_interrupt: le32(table, off + 4) as u32,
            flags: InterruptFlags(le16(table, off + 8) as u16),
        }
    }

    /// Reads the interrupt source override entry at offset `off` of the table.
    pub fn read(table: &[u8], off: usize) -> (r: Self)
        requires
            off + INTERRUPT_SOURCE_OVERRIDE_ENTRY_SIZE <= table@.len(),
        ensures
            r == Self::from_spec(table@, off as int),
    {
        proof {
            lemma_slice_len_fits(table);
        }
        InterruptSourceOverrideEntry {
            entry_type: read_u8(table, off),
            length: read_u8(table, off + 1),
            bus: read_u8(table, off + 2),
            irq_source: read_u8(table, off + 3),
            global_system_interrupt: read_u32_le(table, off + 4),
            flags: InterruptFlags(read_u16_le(table, off + 8)),
        }
    }
}

/// The MADT NMI Source Structure. Ref: ACPI 6.6 Section 5.2.12.6
#[derive(Debug, Clone, Copy, PartialEq, Eq)]
pub struct NmiSourceEntry {
    pub entry_type: u8,
    pub length: u8,
    pub flags: InterruptFlags,
    pub global_system_interrupt: GlobalSystemInterrupt,
}

pub const NMI_SOURCE_ENTRY_SIZE: usize = 8;

impl NmiSourceEntry {
    /// Reads the NMI source entry at offset `off` of the table.
    pub fn read(table: &[u8], off: usize) -> (r: Self)
        requires
            off + NMI_SOURCE_ENTRY_SIZE <= table@.len(),
        ensures
            r.entry_type == table@[off as int],
            r.length == table@[off + 1],
            r.flags.0 == le16(table@, off + 2),
            r.global_system_interrupt == le32(table@, off + 4),
    {
        proof {
            lemma_slice_len_fits(table);
        }
        NmiSourceEntry {
            entry_type: read_u8(table, off),
            length: read_u8(table, off + 1),
            flags: InterruptFlags(read_u16_le(table, off + 2)),
            global_system_interrupt: read_u32_le(table, off + 4),
        }
    }
}

/// The MADT Local x2APIC NMI Structure. The interrupts it names raise an NMI on the host
/// processor. Ref: ACPI 6.6 Section 5.2.12.13
#[derive(Debug, Clone, Copy, PartialEq, Eq)]
pub struct LocalX2ApicNmiEntry {
    pub entry_type: u8,
    pub entry_length: u8,
    pub flags: InterruptFlags,
    pub acpi_proc_uid: u32,
    pub local_interrupt_entry: u8,
}

pub const LOCAL_X2APIC_NMI_ENTRY_SIZE: usize = 12;

impl LocalX2ApicNmiEntry {
    /// Reads the local x2APIC NMI entry at offset `off` of the table.
    pub fn read(table: &[u8], off: usize) -> (r: Self)
        requires
            off + LOCAL_X2APIC_NMI_ENTRY_SIZE <= table@.len(),
        ensures
            r.entry_type == table@[off as int],
            r.entry_length == table@[off + 1],
            r.flags.0 == le16(table@, off + 2),
            r.acpi_proc_uid == le32(table@, off + 4),
            r.local_interrupt_entry == table@[off + 8],
    {
        proof {
            lemma_slice_len_fits(table);
        }
        LocalX2ApicNmiEntry {
            entry_type: read_u8(table, off),
            entry_length: read_u8(table, off + 1),
            flags: InterruptFlags(read_u16_le(table, off + 2)),
            acpi_proc_uid: read_u32_le(table, off + 4),
            local_interrupt_entry: read_u8(table, off + 8),
        }
    }
}

} // verus!
