//! The I/O APIC: redirection table entries, register decoding, and the sharing of MMIO pages
//! between I/O APICs found in the MADT.
use vstd::prelude::*;

use crate::acpi::madt::{
    entry_fits, IoApicEntry, MadtEntryIndex, MadtEntryType, IOAPIC_ENTRY_SIZE,
};
use crate::addr_map::{address_map_contents, AddressMap};
use crate::byte_order::lemma_slice_len_fits;

verus! {

/// Identifier of an I/O APIC.
pub type IoapicId = u8;

/// `target` with the field under `mask` replaced by `value` shifted into place.
pub open spec fn spliced(target: u64, value: u64, mask: u64, shift: u64) -> u64 {
    (target & !mask) | (value << shift)
}

/// Writes `value` into the field of `target` selected by `mask`, where it fits in the field.
pub fn splice_into(target: &mut u64, value: u64, mask: u64, shift: u64) -> (r: Result<(), ()>)
    requires
        shift < 64,
    ensures
        r is Ok == ((value << shift) & !mask == 0 && (value << shift) >> shift == value),
        r is Ok ==> *final(target) == spliced(*old(target), value, mask, shift),
        r is Err ==> *final(target) == *old(target),
{
    let shifted = value << shift;
    if shifted & !mask != 0 || shifted >> shift != value {
        return Err(());
    }
    *target = (*target & !mask) | shifted;
    Ok(())
}

/// An I/O APIC redirection table entry.
#[derive(Debug, Clone, Copy, PartialEq, Eq)]
pub struct Irte(pub u64);

/// The interrupt delivery modes of a redirection entry.
pub enum DeliveryMode {
    Fixed,
    LowestPriority,
    SMI,
    NMI,
    INIT,
    ExtINT,
}

impl DeliveryMode {
    /// The 3-bit encoding of the mode.
    pub open spec fn raw_value(self) -> u64 {
        match self {
            DeliveryMode::Fixed => 0b000,
            DeliveryMode::LowestPriority => 0b001,
            DeliveryMode::SMI => 0b010,
            DeliveryMode::NMI => 0b100,
            DeliveryMode::INIT => 0b101,
            DeliveryMode::ExtINT => 0b111,
        }
    }

    pub fn raw(&self) -> (r: u64)
        ensures
            r == self.raw_value(),
            r < 8,
    {
        match self {
            DeliveryMode::Fixed => 0b000,
            DeliveryMode::LowestPriority => 0b001,
            DeliveryMode::SMI => 0b010,
            DeliveryMode::NMI => 0b100,
            DeliveryMode::INIT => 0b101,
            DeliveryMode::ExtINT => 0b111,
        }
    }
}

/// The destination of a redirection entry: a local APIC ID below 16.
pub struct IoapicDest(u8);

impl View for IoapicDest {
    type V = u8;

    closed spec fn view(&self) -> u8 {
        self.0
    }
}

impl IoapicDest {
    #[verifier::type_invariant]
    spec fn in_range(&self) -> bool {
        self.0 < 16
    }

    pub fn try_new(apic_id: u8) -> (r: Option<Self>)
        ensures
            apic_id < 16 ==> r is Some && r->0@ == apic_id,
            apic_id >= 16 ==> r is None,
    {
        if apic_id < 16 {
            Some(IoapicDest(apic_id))
        } else {
            None
        }
    }

    pub fn get(&self) -> (r: u8)
        ensures
            r == self@,
            r < 16,
    {
        proof {
            use_type_invariant(self);
        }
        self.0
    }
}

pub const VECTOR_SHIFT: u64 = 0;
pub const VECTOR_MASK: u64 = 0xff;
pub const DELIVERY_MODE_SHIFT: u64 = 8;
pub const DELIVERY_MODE_MASK: u64 = 0b111 << 8;
pub const PIN_POLARITY_SHIFT: u64 = 13;
pub const PIN_POLARITY_MASK: u64 = 0b1 << 13;
pub const TRIGGER_MODE_SHIFT: u64 = 15;
pub const TRIGGER_MODE_MASK: u64 = 0b1 << 15;
pub const MASK_BIT_SHIFT: u64 = 16;
pub const MASK_BIT_MASK: u64 = 0b1 << 16;
pub const DEST_APIC_ID_SHIFT: u64 = 56;
pub const DEST_APIC_ID_MASK: u64 = 0x0f << 56;

/// The value of the field under `mask`, shifted down.
pub open spec fn field(entry: u64, mask: u64, shift: u64) -> u64 {
    (entry & mask) >> shift
}

impl Irte {
    /// Sets the interrupt vector (bits 0-7), leaving every other bit as it was.
    pub fn set_vector(&mut self, vector: u8)
        ensures
            final(self).0 == spliced(old(self).0, vector as u64, VECTOR_MASK, VECTOR_SHIFT),
            field(final(self).0, VECTOR_MASK, VECTOR_SHIFT) == vector,
            final(self).0 & !VECTOR_MASK == old(self).0 & !VECTOR_MASK,
    {
        let v = vector as u64;
        let old_value = self.0;
        assert((v << 0u64) & !0xffu64 == 0 && (v << 0u64) >> 0u64 == v) by (bit_vector)
            requires
                v < 256,
        ;
        splice_into(&mut self.0, v, VECTOR_MASK, VECTOR_SHIFT).unwrap();
        let new_value = self.0;
        assert(((new_value & 0xffu64) >> 0u64) == v && (new_value & !0xffu64) == (old_value & !0xffu64)) by (bit_vector)
            requires
                new_value == (old_value & !0xffu64) | (v << 0u64),
                v < 256,
        ;
    }

    /// Sets the delivery mode (bits 8-10), leaving every other bit as it was.
    pub fn set_delivery_mode(&mut self, delivery_mode: DeliveryMode)
        ensures
            final(self).0 == spliced(old(self).0, delivery_mode.raw_value(), DELIVERY_MODE_MASK, DELIVERY_MODE_SHIFT),
            field(final(self).0, DELIVERY_MODE_MASK, DELIVERY_MODE_SHIFT) == delivery_mode.raw_value(),
            final(self).0 & !DELIVERY_MODE_MASK == old(self).0 & !DELIVERY_MODE_MASK,
    {
        let v = delivery_mode.raw();
        let old_value = self.0;
        assert((v << 8u64) & !(7u64 << 8u64) == 0 && (v << 8u64) >> 8u64 == v) by (bit_vector)
            requires
                v < 8,
        ;
        splice_into(&mut self.0, v, DELIVERY_MODE_MASK, DELIVERY_MODE_SHIFT).unwrap();
        let new_value = self.0;
        assert(((new_value & (7u64 << 8u64)) >> 8u64) == v && (new_value & !(7u64 << 8u64)) == (old_value & !(7u64 << 8u64))) by (bit_vector)
            requires
                new_value == (old_value & !(7u64 << 8u64)) | (v << 8u64),
                v < 8,
        ;
    }

    /// Sets the pin polarity bit (bit 13: set for active low), leaving every other bit as it was.
    pub fn set_pin_polarity(&mut self, active_low: bool)
        ensures
            final(self).0 == spliced(old(self).0, if active_low { 1 } else { 0 }, PIN_POLARITY_MASK, PIN_POLARITY_SHIFT),
            field(final(self).0, PIN_POLARITY_MASK, PIN_POLARITY_SHIFT) == (if active_low { 1u64 } else { 0u64 }),
            final(self).0 & !PIN_POLARITY_MASK == old(self).0 & !PIN_POLARITY_MASK,
    {
        self.set_bit(active_low, PIN_POLARITY_SHIFT);
    }

    /// Sets the trigger mode bit (bit 15: set for level triggered), leaving every other bit as it
    /// was.
    pub fn set_trigger_mode(&mut self, latched: bool)
        ensures
            final(self).0 == spliced(old(self).0, if latched { 1 } else { 0 }, TRIGGER_MODE_MASK, TRIGGER_MODE_SHIFT),
            field(final(self).0, TRIGGER_MODE_MASK, TRIGGER_MODE_SHIFT) == (if latched { 1u64 } else { 0u64 }),
            final(self).0 & !TRIGGER_MODE_MASK == old(self).0 & !TRIGGER_MODE_MASK,
    {
        self.set_bit(latched, TRIGGER_MODE_SHIFT);
    }

    /// Sets the mask bit (bit 16: set to mask the interrupt), leaving every other bit as it was.
    pub fn set_mask_bit(&mut self, mask_bit: bool)
        ensures
            final(self).0 == spliced(old(self).0, if mask_bit { 1 } else { 0 }, MASK_BIT_MASK, MASK_BIT_SHIFT),
            field(final(self).0, MASK_BIT_MASK, MASK_BIT_SHIFT) == (if mask_bit { 1u64 } else { 0u64 }),
            final(self).0 & !MASK_BIT_MASK == old(self).0 & !MASK_BIT_MASK,
    {
        self.set_bit(mask_bit, MASK_BIT_SHIFT);
    }

    fn set_bit(&mut self, bit: bool, shift: u64)
        requires
            shift < 64,
        ensures
            final(self).0 == spliced(old(self).0, if bit { 1 } else { 0 }, 1u64 << shift, shift),
            field(final(self).0, 1u64 << shift, shift) == (if bit { 1u64 } else { 0u64 }),
            final(self).0 & !(1u64 << shift) == old(self).0 & !(1u64 << shift),
    {
        let v: u64 = if bit { 1 } else { 0 };
        let old_value = self.0;
        assert((v << shift) & !(1u64 << shift) == 0 && (v << shift) >> shift == v) by (bit_vector)
            requires
                v < 2,
                shift < 64,
        ;
        splice_into(&mut self.0, v, 1u64 << shift, shift).unwrap();
        let new_value = self.0;
        assert(((new_value & (1u64 << shift)) >> shift) == v && (new_value & !(1u64 << shift)) == (old_value & !(1u64 << shift))) by (bit_vector)
            requires
                new_value == (old_value & !(1u64 << shift)) | (v << shift),
                v < 2,
                shift < 64,
        ;
    }

    /// Sets the destination local APIC ID (bits 56-59), leaving every other bit as it was.
    pub fn set_dest_apic_id(&mut self, dest: IoapicDest)
        ensures
            final(self).0 == spliced(old(self).0, dest@ as u64, DEST_APIC_ID_MASK, DEST_APIC_ID_SHIFT),
            field(final(self).0, DEST_APIC_ID_MASK, DEST_APIC_ID_SHIFT) == dest@,
            final(self).0 & !DEST_APIC_ID_MASK == old(self).0 & !DEST_APIC_ID_MASK,
    {
        let v = dest.get() as u64;
        let old_value = self.0;
        assert((v << 56u64) & !(15u64 << 56u64) == 0 && (v << 56u64) >> 56u64 == v) by (bit_vector)
            requires
                v < 16,
        ;
        splice_into(&mut self.0, v, DEST_APIC_ID_MASK, DEST_APIC_ID_SHIFT).unwrap();
        let new_value = self.0;
        assert(((new_value & (15u64 << 56u64)) >> 56u64) == v && (new_value & !(15u64 << 56u64)) == (old_value & !(15u64 << 56u64))) by (bit_vector)
            requires
                new_value == (old_value & !(15u64 << 56u64)) | (v << 56u64),
                v < 16,
        ;
    }
}

/// Offset of the register window from the register select register.
pub const IOREGWIN_OFFSET: u64 = 0x10;

/// Offset of the EOI register of I/O(x)APICs from version 0x20 on.
pub const IOAPIC_EOI_OFFSET: u64 = 0x40;

/// The first version with a directed EOI register.
pub const IOXAPIC_THRESHOLD_VERSION: u8 = 0x20;

/// An I/O APIC: where its registers are mapped, its version and its number of redirection entries.
pub struct IoapicDescriptor {
    pub base: u64,
    pub version: u8,
    pub num_redirection_entries: u8,
}

impl IoapicDescriptor {
    /// The registers of the I/O APIC lie within the address space.
    pub open spec fn wf(&self) -> bool {
        self.base + IOAPIC_EOI_OFFSET + 4 <= u64::MAX
    }

    /// The descriptor of the I/O APIC mapped at `base`, from the value of its version register:
    /// the version in bits 0-7 and the highest redirection entry index in bits 16-23.
    pub fn from_version_register(base: u64, version_reg: u32) -> (r: Self)
        requires
            base + IOAPIC_EOI_OFFSET + 4 <= u64::MAX,
        ensures
            r.wf(),
            r.base == base,
            r.version == version_reg % 256,
            r.num_redirection_entries == ((version_reg / 0x1_0000) % 256 + 1) % 256,
    {
        let version = version_reg & 0xff;
        let max_entry = crate::bitwise::mask_shift_read_u32(version_reg, 0xff << 16, 16);
        assert(version == version_reg % 256 && max_entry == (version_reg / 0x1_0000) % 256) by (bit_vector)
            requires
                version == version_reg & 0xffu32,
                max_entry == (version_reg & (0xffu32 << 16u32)) >> 16u32,
        ;
        IoapicDescriptor {
            base,
            version: version as u8,
            num_redirection_entries: ((max_entry + 1) % 256) as u8,
        }
    }

    /// The addresses of the register select and register window registers.
    pub fn get_mmio(&self) -> (r: (u64, u64))
        requires
            self.wf(),
        ensures
            r == (self.base, (self.base + IOREGWIN_OFFSET) as u64),
    {
        (self.base, self.base + IOREGWIN_OFFSET)
    }

    /// The address of the EOI register, which I/O(x)APICs from version 0x20 on implement.
    pub fn eoi_register(&self) -> (r: u64)
        requires
            self.wf(),
            self.version >= IOXAPIC_THRESHOLD_VERSION,
        ensures
            r == self.base + IOAPIC_EOI_OFFSET,
    {
        self.base + IOAPIC_EOI_OFFSET
    }
}

/// The offset of an MMIO address in its standard page.
pub const PAGE_OFFSET_MASK: u64 = 0xfff;

/// The MMIO pages mapped so far: the virtual address of each mapped physical page. I/O APICs that
/// share a page share its mapping.
pub type PageMappings = AddressMap;

/// Every recorded mapping leaves room for a register anywhere in its page.
pub open spec fn page_mappings_wf(pages: PageMappings) -> bool {
    forall|p: u64| address_map_contents(pages).contains_key(p) ==> #[trigger] address_map_contents(pages)[p] + PAGE_OFFSET_MASK <= u64::MAX
}

/// No page mapped yet.
pub fn new_page_mappings() -> (r: PageMappings)
    ensures
        page_mappings_wf(r),
        address_map_contents(r).dom() == Set::<u64>::empty(),
{
    AddressMap::new()
}

/// What to do to reach the registers of an I/O APIC.
#[derive(Debug, Clone, Copy, PartialEq, Eq, Structural)]
pub enum IoapicMmioStep {
    /// The page is already mapped; the registers are at this virtual address.
    Mapped(u64),
    /// This physical page has to be mapped first.
    MapPage(u64),
}

/// Finds the registers of the I/O APIC at physical address `ioapic_address` among the mapped
/// pages, or asks for its page to be mapped.
pub fn ioapic_mmio_step(pages: &PageMappings, ioapic_address: u32) -> (r: IoapicMmioStep)
    requires
        page_mappings_wf(*pages),
    ensures
        ({
            let page = (ioapic_address - ioapic_address % 4096) as u64;
            if address_map_contents(*pages).contains_key(page) {
                r == IoapicMmioStep::Mapped((address_map_contents(*pages)[page] + ioapic_address % 4096) as u64)
            } else {
                r == IoapicMmioStep::MapPage(page)
            }
        }),
{
    let address = ioapic_address as u64;
    let offset = address & PAGE_OFFSET_MASK;
    let page = address & !PAGE_OFFSET_MASK;
    assert(offset == address % 4096 && page == address - address % 4096) by (bit_vector)
        requires
            offset == address & 0xfffu64,
            page == address & !0xfffu64,
    ;
    match pages.get(page) {
        Some(vaddr) => IoapicMmioStep::Mapped(vaddr + offset),
        None => IoapicMmioStep::MapPage(page),
    }
}

/// Records that the page of the I/O APIC at `ioapic_address` has been mapped at `vaddr` and returns
/// the virtual address of its registers.
pub fn record_ioapic_page(pages: &mut PageMappings, ioapic_address: u32, vaddr: u64) -> (r: u64)
    requires
        page_mappings_wf(*old(pages)),
        vaddr + PAGE_OFFSET_MASK <= u64::MAX,
    ensures
        page_mappings_wf(*final(pages)),
        address_map_contents(*final(pages)) == address_map_contents(*old(pages)).insert((ioapic_address - ioapic_address % 4096) as u64, vaddr),
        r == vaddr + ioapic_address % 4096,
{
    let address = ioapic_address as u64;
    let offset = address & PAGE_OFFSET_MASK;
    let page = address & !PAGE_OFFSET_MASK;
    assert(offset == address % 4096 && page == address - address % 4096) by (bit_vector)
        requires
            offset == address & 0xfffu64,
            page == address & !0xfffu64,
    ;
    pages.insert(page, vaddr);
    vaddr + offset
}

/// I/O APICs that share a page share its mapping: once the page of one is recorded, the next step
/// for any address in that page finds its registers at the same offset from the recorded page.
pub proof fn lemma_shared_page_mapping(pages: PageMappings, after: PageMappings, first: u32, second: u32, vaddr: u64)
    requires
        page_mappings_wf(pages),
        vaddr + PAGE_OFFSET_MASK <= u64::MAX,
        address_map_contents(after) == address_map_contents(pages).insert((first - first % 4096) as u64, vaddr),
        first - first % 4096 == second - second % 4096,
    ensures
        page_mappings_wf(after),
        address_map_contents(after).contains_key((second - second % 4096) as u64),
        address_map_contents(after)[(second - second % 4096) as u64] + second % 4096 == vaddr + second % 4096,
{
}

/// The page of the I/O APIC registers at physical address `address`.
pub open spec fn ioapic_page(address: u32) -> u64 {
    (address - address % 4096) as u64
}

/// The pages an enumeration asks to map, in order, for the I/O APICs at `addresses` taken one
/// after the other, the pages in `mapped` being mapped already: `ioapic_mmio_step` asks for a page
/// exactly when it is not yet recorded, and `record_ioapic_page` records it.
pub open spec fn pages_requested(mapped: Set<u64>, addresses: Seq<u32>) -> Seq<u64>
    decreases addresses.len(),
{
    if addresses.len() == 0 {
        Seq::empty()
    } else {
        let page = ioapic_page(addresses[0]);
        if mapped.contains(page) {
            pages_requested(mapped, addresses.drop_first())
        } else {
            seq![page] + pages_requested(mapped.insert(page), addresses.drop_first())
        }
    }
}

/// Over a whole table, each page is mapped once: the pages requested are distinct, none was
/// mapped before, each is the page of some I/O APIC, and every I/O APIC's page ends up mapped.
pub proof fn lemma_each_page_mapped_once(mapped: Set<u64>, addresses: Seq<u32>)
    ensures
        pages_requested(mapped, addresses).no_duplicates(),
        forall|k: int| 0 <= k < pages_requested(mapped, addresses).len()
            ==> !mapped.contains(#[trigger] pages_requested(mapped, addresses)[k]),
        forall|k: int| #![trigger pages_requested(mapped, addresses)[k]] 0 <= k < pages_requested(mapped, addresses).len()
            ==> exists|j: int| 0 <= j < addresses.len() && ioapic_page(#[trigger] addresses[j]) == pages_requested(mapped, addresses)[k],
        forall|j: int| 0 <= j < addresses.len()
            ==> mapped.contains(ioapic_page(#[trigger] addresses[j])) || pages_requested(mapped, addresses).contains(ioapic_page(addresses[j])),
    decreases addresses.len(),
{
    if addresses.len() > 0 {
        let page = ioapic_page(addresses[0]);
        let rest = addresses.drop_first();
        let m2 = if mapped.contains(page) { mapped } else { mapped.insert(page) };
        lemma_each_page_mapped_once(m2, rest);
        let r = pages_requested(mapped, addresses);
        let rr = pages_requested(m2, rest);
        assert forall|j: int| 1 <= j < addresses.len() implies #[trigger] addresses[j] == rest[j - 1] by {}
        if mapped.contains(page) {
            assert(r == rr);
            assert forall|k: int| #![trigger r[k]] 0 <= k < r.len() implies exists|j: int| 0 <= j < addresses.len() && ioapic_page(#[trigger] addresses[j]) == r[k] by {
                let j = choose|j: int| 0 <= j < rest.len() && ioapic_page(#[trigger] rest[j]) == rr[k];
                assert(addresses[j + 1] == rest[j]);
            }
            assert forall|j: int| 0 <= j < addresses.len() implies mapped.contains(ioapic_page(#[trigger] addresses[j])) || r.contains(ioapic_page(addresses[j])) by {
                if j > 0 {
                    assert(addresses[j] == rest[j - 1]);
                }
            }
        } else {
            assert(r == seq![page] + rr);
            assert forall|k: int| 0 <= k < r.len() implies !mapped.contains(#[trigger] r[k]) by {
                if k > 0 {
                    assert(r[k] == rr[k - 1]);
                }
            }
            assert forall|a: int, b: int| 0 <= a < r.len() && 0 <= b < r.len() && a != b implies r[a] != r[b] by {
                if a > 0 {
                    assert(r[a] == rr[a - 1]);
                }
                if b > 0 {
                    assert(r[b] == rr[b - 1]);
                }
            }
            assert forall|k: int| #![trigger r[k]] 0 <= k < r.len() implies exists|j: int| 0 <= j < addresses.len() && ioapic_page(#[trigger] addresses[j]) == r[k] by {
                if k == 0 {
                    assert(ioapic_page(addresses[0]) == r[0]);
                } else {
                    assert(r[k] == rr[k - 1]);
                    let j = choose|j: int| 0 <= j < rest.len() && ioapic_page(#[trigger] rest[j]) == rr[k - 1];
                    assert(addresses[j + 1] == rest[j]);
                }
            }
            assert forall|j: int| 0 <= j < addresses.len() implies mapped.contains(ioapic_page(#[trigger] addresses[j])) || r.contains(ioapic_page(addresses[j])) by {
                if j == 0 {
                    assert(r[0] == page);
                } else {
                    assert(addresses[j] == rest[j - 1]);
                    if rr.contains(ioapic_page(rest[j - 1])) {
                        let k = choose|k: int| 0 <= k < rr.len() && rr[k] == ioapic_page(rest[j - 1]);
                        assert(r[k + 1] == rr[k]);
                    } else if !mapped.contains(ioapic_page(rest[j - 1])) {
                        assert(ioapic_page(rest[j - 1]) == page);
                        assert(r[0] == page);
                    }
                }
            }
        }
    }
}

/// The I/O APIC entries at `offsets`, in order; an offset whose entry would not fit in the table is
/// left out.
pub open spec fn ioapic_entries_from(table: Seq<u8>, offsets: Seq<usize>) -> Seq<IoApicEntry>
    decreases offsets.len(),
{
    if offsets.len() == 0 {
        Seq::empty()
    } else {
        let rest = ioapic_entries_from(table, offsets.drop_last());
        let off = offsets.last() as int;
        if off + IOAPIC_ENTRY_SIZE <= table.len() {
            rest.push(IoApicEntry::from_spec(table, off))
        } else {
            rest
        }
    }
}

/// The I/O APIC entries of the MADT, in table order, that lie whole within the table.
pub fn ioapic_entries(madt: &MadtEntryIndex) -> (r: Vec<IoApicEntry>)
    requires
        madt.wf(),
    ensures
        r@ == ioapic_entries_from(madt.table@, madt.ptr_matrix@[MadtEntryType::IoApic.raw_value() as int]@),
{
    let offsets = madt.get_entries_with_type(MadtEntryType::IoApic);
    let table = madt.table.as_slice();
    proof {
        lemma_slice_len_fits(table);
    }
    let mut entries: Vec<IoApicEntry> = Vec::new();
    let mut i: usize = 0;
    while i < offsets.len()
        invariant
            table@ == madt.table@,
            offsets@ == madt.ptr_matrix@[MadtEntryType::IoApic.raw_value() as int]@,
            i <= offsets@.len(),
            entries@ == ioapic_entries_from(table@, offsets@.take(i as int)),
        decreases offsets@.len() - i,
    {
        let off = offsets[i];
        assert(offsets@.take(i + 1).drop_last() =~= offsets@.take(i as int));
        assert(offsets@.take(i + 1).last() == off);
        if off <= table.len() && table.len() - off >= IOAPIC_ENTRY_SIZE {
            entries.push(IoApicEntry::read(table, off));
        }
        i = i + 1;
    }
    assert(offsets@.take(offsets@.len() as int) =~= offsets@);
    entries
}

} // verus!
