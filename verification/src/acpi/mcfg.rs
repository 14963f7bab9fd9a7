//! The PCI Express memory mapped configuration table (MCFG): the ECAM allocations of the PCI
//! segment groups. MCFG discovery is independent of PCI device enumeration, since AML may access
//! PCI configuration while the namespace and device topology are still loading.
use vstd::prelude::*;

use crate::acpi::ACPI_TABLE_HEADER_SIZE;
use crate::byte_order::{le16, le32, le64, lemma_slice_len_fits, read_u16_le, read_u32_le, read_u64_le, read_u8};

verus! {

/// The MCFG header: the standard table header and 8 reserved bytes.
pub const MCFG_HEADER_SIZE: usize = 44;

/// The size of one ECAM allocation entry.
pub const MCFG_ENTRY_SIZE: usize = 16;

/// One ECAM allocation: the base address of a segment group's ECAM and its bus range.
#[derive(Debug, Clone, Copy, PartialEq, Eq)]
pub struct McfgEntry {
    pub ecam_base: u64,
    pub pcie_segment_num: u16,
    pub start_bus_num: u8,
    pub end_bus_num: u8,
    pub reserved: u32,
}

impl McfgEntry {
    /// The entry laid out at offset `off` of `table`.
    pub open spec fn from_spec(table: Seq<u8>, off: int) -> McfgEntry {
        McfgEntry {
            ecam_base: le64(table, off) as u64,
            pcie_segment_num: le16(table, off + 8) as u16,
            start_bus_num: table[off + 10],
            end_bus_num: table[off + 11],
            reserved: le32(table, off + 12) as u32,
        }
    }

    /// Reads the allocation entry at offset `off` of the table.
    pub fn read(table: &[u8], off: usize) -> (r: Self)
        requires
            off + MCFG_ENTRY_SIZE <= table@.len(),
        ensures
            r == Self::from_spec(table@, off as int),
    {
        proof {
            lemma_slice_len_fits(table);
        }
        McfgEntry {
            ecam_base: read_u64_le(table, off),
            pcie_segment_num: read_u16_le(table, off + 8),
            start_bus_num: read_u8(table, off + 10),
            end_bus_num: read_u8(table, off + 11),
            reserved: read_u32_le(table, off + 12),
        }
    }

    /// The last byte address of the ECAM of the allocation. The ECAM is relative to bus zero even
    /// where the first valid bus number is not zero.
    pub open spec fn last_address(self) -> int {
        self.ecam_base + (self.end_bus_num + 1) * 0x10_0000 - 1
    }

    /// The allocation names a bus range, its ECAM is 1 MiB aligned and all of it lies at valid
    /// physical addresses, up to `max_phys_addr`.
    pub open spec fn valid(self, max_phys_addr: u64) -> bool {
        &&& self.start_bus_num <= self.end_bus_num
        &&& self.ecam_base % 0x10_0000 == 0
        &&& self.last_address() <= max_phys_addr
    }

    /// Whether the allocation is valid for physical addresses up to `max_phys_addr`.
    pub fn is_valid(&self, max_phys_addr: u64) -> (r: bool)
        ensures
            r == self.valid(max_phys_addr),
    {
        let span = ((self.end_bus_num as u64) + 1) * 0x10_0000;
        self.start_bus_num <= self.end_bus_num && self.ecam_base % 0x10_0000 == 0
            && self.ecam_base <= u64::MAX - (span - 1) && self.ecam_base + (span - 1) <= max_phys_addr
    }
}

/// The sum of the first `n` bytes of `s`.
pub open spec fn byte_sum(s: Seq<u8>, n: int) -> int
    decreases n,
{
    if n <= 0 {
        0
    } else {
        byte_sum(s, n - 1) + s[n - 1]
    }
}

/// A table is well formed when all its bytes, as many as its header states, sum to zero modulo
/// 256.
pub open spec fn checksum_valid(table: Seq<u8>) -> bool {
    byte_sum(table, le32(table, 4)) % 256 == 0
}

/// Whether the MCFG table in `table` can be read: its length holds the header and a whole number
/// of entries, and its checksum is valid.
pub open spec fn mcfg_table_valid(table: Seq<u8>) -> bool {
    let len = le32(table, 4);
    &&& len >= MCFG_HEADER_SIZE
    &&& (len - MCFG_HEADER_SIZE) % (MCFG_ENTRY_SIZE as int) == 0
    &&& checksum_valid(table)
}

/// The valid allocations among the entries `k..n` of the table.
pub open spec fn mcfg_entries_from(table: Seq<u8>, k: int, n: int, max_phys_addr: u64) -> Seq<McfgEntry>
    decreases n - k,
{
    if k >= n {
        Seq::empty()
    } else {
        let e = McfgEntry::from_spec(table, MCFG_HEADER_SIZE + MCFG_ENTRY_SIZE * k);
        let rest = mcfg_entries_from(table, k + 1, n, max_phys_addr);
        if e.valid(max_phys_addr) {
            seq![e] + rest
        } else {
            rest
        }
    }
}

/// The valid allocations of one MCFG table, in table order; none for an invalid table.
pub open spec fn mcfg_table_regions(table: Seq<u8>, max_phys_addr: u64) -> Seq<McfgEntry> {
    if mcfg_table_valid(table) {
        mcfg_entries_from(
            table,
            0,
            (le32(table, 4) - MCFG_HEADER_SIZE) / (MCFG_ENTRY_SIZE as int),
            max_phys_addr,
        )
    } else {
        Seq::empty()
    }
}

/// The valid allocations of all the MCFG tables, in order.
pub open spec fn mcfg_regions(tables: Seq<Vec<u8>>, max_phys_addr: u64) -> Seq<McfgEntry>
    decreases tables.len(),
{
    if tables.len() == 0 {
        Seq::empty()
    } else {
        mcfg_regions(tables.drop_last(), max_phys_addr) + mcfg_table_regions(tables.last()@, max_phys_addr)
    }
}

/// Each table holds at least its header, and all the bytes its header states.
pub open spec fn tables_present(tables: Seq<Vec<u8>>) -> bool {
    forall|i: int| 0 <= i < tables.len() ==> {
        &&& (#[trigger] tables[i])@.len() >= ACPI_TABLE_HEADER_SIZE
        &&& le32(tables[i]@, 4) <= tables[i]@.len()
    }
}

/// Whether the checksum of the table is valid.
pub fn validate_checksum(table: &[u8]) -> (r: bool)
    requires
        table@.len() >= ACPI_TABLE_HEADER_SIZE,
        le32(table@, 4) <= table@.len(),
    ensures
        r == checksum_valid(table@),
{
    let len = read_u32_le(table, 4) as usize;
    let mut sum: u64 = 0;
    let mut i: usize = 0;
    while i < len
        invariant
            len == le32(table@, 4),
            len <= table@.len(),
            i <= len,
            sum == byte_sum(table@, i as int),
            sum <= 255 * i,
        decreases len - i,
    {
        sum = sum + table[i] as u64;
        i = i + 1;
    }
    sum % 256 == 0
}

/// Reads the ECAM allocations of all the MCFG tables, leaving out invalid tables and invalid
/// allocations.
pub fn read_mcfg_regions(tables: &Vec<Vec<u8>>, max_phys_addr: u64) -> (r: Vec<McfgEntry>)
    requires
        tables_present(tables@),
    ensures
        r@ == mcfg_regions(tables@, max_phys_addr),
        forall|i: int| 0 <= i < r@.len() ==> (#[trigger] r@[i]).valid(max_phys_addr),
{
    let mut regions: Vec<McfgEntry> = Vec::new();
    let mut ti: usize = 0;
    while ti < tables.len()
        invariant
            tables_present(tables@),
            ti <= tables@.len(),
            regions@ == mcfg_regions(tables@.take(ti as int), max_phys_addr),
            forall|i: int| 0 <= i < regions@.len() ==> (#[trigger] regions@[i]).valid(max_phys_addr),
        decreases tables@.len() - ti,
    {
        assert(tables@.take(ti + 1).drop_last() =~= tables@.take(ti as int));
        assert(tables@.take(ti + 1).last() == tables@[ti as int]);
        let table = tables[ti].as_slice();
        assert(table@ == tables@[ti as int]@);
        let ghost before = regions@;
        let len = read_u32_le(table, 4) as usize;
        if len >= MCFG_HEADER_SIZE && (len - MCFG_HEADER_SIZE) % MCFG_ENTRY_SIZE == 0
            && validate_checksum(table) {
            let n = (len - MCFG_HEADER_SIZE) / MCFG_ENTRY_SIZE;
            let mut k: usize = 0;
            while k < n
                invariant
                    table@ == tables@[ti as int]@,
                    len == le32(table@, 4),
                    len <= table@.len(),
                    len >= MCFG_HEADER_SIZE,
                    n == (len - MCFG_HEADER_SIZE) / (MCFG_ENTRY_SIZE as int),
                    k <= n,
                    regions@ + mcfg_entries_from(table@, k as int, n as int, max_phys_addr)
                        == before + mcfg_table_regions(table@, max_phys_addr),
                    forall|i: int| 0 <= i < regions@.len() ==> (#[trigger] regions@[i]).valid(max_phys_addr),
                decreases n - k,
            {
                let off = MCFG_HEADER_SIZE + MCFG_ENTRY_SIZE * k;
                let entry = McfgEntry::read(table, off);
                let ghost prev = regions@;
                if entry.is_valid(max_phys_addr) {
                    regions.push(entry);
                    assert(prev + mcfg_entries_from(table@, k as int, n as int, max_phys_addr)
                        =~= regions@ + mcfg_entries_from(table@, k + 1, n as int, max_phys_addr));
                }
                k = k + 1;
            }
            assert(regions@ =~= regions@ + mcfg_entries_from(table@, k as int, n as int, max_phys_addr));
        } else {
            assert(before =~= before + mcfg_table_regions(table@, max_phys_addr));
        }
        ti = ti + 1;
    }
    assert(tables@.take(tables@.len() as int) =~= tables@);
    regions
}

/// The index of the first allocation in `regions` for the segment whose bus range holds `bus`.
pub open spec fn first_region_index(regions: Seq<McfgEntry>, segment: u16, bus: u8) -> Option<int>
    decreases regions.len(),
{
    if regions.len() == 0 {
        None
    } else if regions[0].pcie_segment_num == segment && regions[0].start_bus_num <= bus
        && bus <= regions[0].end_bus_num {
        Some(0)
    } else {
        match first_region_index(regions.drop_first(), segment, bus) {
            Some(i) => Some(i + 1),
            None => None,
        }
    }
}

/// The physical ECAM address of the configuration space of a function, from the first allocation
/// that covers its segment and bus. Device numbers from 32 and function numbers from 8 have none.
pub fn configuration_address(regions: &Vec<McfgEntry>, max_phys_addr: u64, segment: u16, bus: u8, device: u8, function: u8) -> (r: Option<u64>)
    requires
        forall|i: int| 0 <= i < regions@.len() ==> (#[trigger] regions@[i]).valid(max_phys_addr),
    ensures
        device >= 32 || function >= 8 ==> r is None,
        device < 32 && function < 8 ==> r == match first_region_index(regions@, segment, bus) {
            Some(i) => Some(
                (regions@[i].ecam_base + bus * 0x10_0000 + device * 0x8000 + function * 0x1000) as u64,
            ),
            None => None::<u64>,
        },
{
    if device >= 32 || function >= 8 {
        return None;
    }
    assert(regions@.skip(0) =~= regions@);
    let mut i: usize = 0;
    while i < regions.len()
        invariant
            forall|j: int| 0 <= j < regions@.len() ==> (#[trigger] regions@[j]).valid(max_phys_addr),
            i <= regions@.len(),
            device < 32,
            function < 8,
            first_region_index(regions@, segment, bus) == match first_region_index(regions@.skip(i as int), segment, bus) {
                Some(k) => Some(k + i),
                None => None::<int>,
            },
        decreases regions@.len() - i,
    {
        let entry = regions[i];
        assert(regions@.skip(i as int)[0] == entry);
        assert(regions@.skip(i as int).drop_first() =~= regions@.skip(i + 1));
        if entry.pcie_segment_num == segment && entry.start_bus_num <= bus && bus <= entry.end_bus_num {
            assert(regions@[i as int].valid(max_phys_addr));
            return Some(entry.ecam_base + (bus as u64) * 0x10_0000 + (device as u64) * 0x8000 + (function as u64) * 0x1000);
        }
        i = i + 1;
    }
    assert(regions@.skip(i as int) =~= Seq::<McfgEntry>::empty());
    None
}

} // verus!
