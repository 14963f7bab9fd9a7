//! The PCI capability list in the first 256 bytes of the configuration space and the PCI Express
//! extended capability list above it. Both are linked lists read out of device-provided bytes, so
//! both walks stop at the first offset they have already visited.
use vstd::prelude::*;
use vstd::set_lib::{lemma_int_range, lemma_len_subset, set_int_range};

use crate::bitwise::mask_shift_read_u16;
use crate::byte_order::{le16, read_u16_le, read_u8};
use crate::pci::cfg_space::PcieCfgSpace;
use crate::pci::Error;

verus! {

/// PCI local bus capability IDs which are also used with PCI Express.
#[derive(Debug, Clone, Copy, PartialEq, Eq)]
pub enum PciCapabilityId {
    Null,
    PowerManagement,
    MessageSignaledInterrupts,
    /// Subsystem Vendor ID and Subsystem Device ID
    SubsystemVidDid,
    PciExpress,
    /// MSI-X
    MessageSignaledInterruptsExtended,
}

impl PciCapabilityId {
    /// The capability ID byte that names this capability.
    pub open spec fn raw_value(self) -> u8 {
        match self {
            PciCapabilityId::Null => 0x00,
            PciCapabilityId::PowerManagement => 0x01,
            PciCapabilityId::MessageSignaledInterrupts => 0x05,
            PciCapabilityId::SubsystemVidDid => 0x0d,
            PciCapabilityId::PciExpress => 0x10,
            PciCapabilityId::MessageSignaledInterruptsExtended => 0x11,
        }
    }

    pub fn raw(&self) -> (r: u8)
        ensures
            r == self.raw_value(),
    {
        match self {
            PciCapabilityId::Null => 0x00,
            PciCapabilityId::PowerManagement => 0x01,
            PciCapabilityId::MessageSignaledInterrupts => 0x05,
            PciCapabilityId::SubsystemVidDid => 0x0d,
            PciCapabilityId::PciExpress => 0x10,
            PciCapabilityId::MessageSignaledInterruptsExtended => 0x11,
        }
    }
}

/// Offset of a capability structure in the configuration space.
pub type PciCapabilityOffset = u8;

/// Offset of the capabilities pointer in both the endpoint and the bridge header layout.
pub const CAPABILITIES_POINTER_OFFSET: usize = 0x34;

/// The header of a PCI capability: its ID and the offset of the next capability.
#[derive(Debug, Clone, Copy, PartialEq, Eq)]
pub struct PciCapabilityHeader {
    pub id: u8,
    pub next: PciCapabilityOffset,
}

impl PciCapabilityHeader {
    /// Reads the capability header at `offset` of the configuration space.
    pub fn read(cfg_space: &PcieCfgSpace, offset: PciCapabilityOffset) -> (r: Self)
        ensures
            r.id == cfg_space@[offset as int],
            r.next == cfg_space@[offset + 1],
    {
        let bytes = cfg_space.as_bytes();
        PciCapabilityHeader { id: read_u8(bytes, offset as usize), next: read_u8(bytes, offset as usize + 1) }
    }
}

/// Whether the status register of the header announces a capability list.
pub open spec fn capabilities_supported(cfg: Seq<u8>) -> bool {
    (le16(cfg, 6) / 16) % 2 == 1
}

/// Follows the capability list from `offset`, `visited` holding the offsets already passed, for
/// at most `fuel` steps. The list ends at an offset of 0. The result is the first offset whose ID
/// byte is `id`, or `None` when the list ends or the walk returns to a visited offset first.
pub open spec fn cap_search(cfg: Seq<u8>, offset: int, visited: Set<int>, id: u8, fuel: nat) -> Option<int>
    decreases fuel,
{
    if fuel == 0 || offset == 0 || visited.contains(offset) {
        None
    } else if cfg[offset] == id {
        Some(offset)
    } else {
        cap_search(cfg, cfg[offset + 1] as int, visited.insert(offset), id, (fuel - 1) as nat)
    }
}

/// Number of steps after which a walk over the 256 possible capability offsets has necessarily
/// returned to a visited one.
pub const CAP_WALK_STEPS: u16 = 257;

/// The offset of the first capability with ID `id` in the list that starts at the capabilities
/// pointer of the header.
pub open spec fn capability_offset(cfg: Seq<u8>, id: u8) -> Option<int> {
    cap_search(cfg, cfg[CAPABILITIES_POINTER_OFFSET as int] as int, Set::empty(), id, CAP_WALK_STEPS as nat)
}

/// A set of integers in `[0, n)` has at most `n` elements, and exactly `n` only when it is the
/// whole range.
proof fn lemma_bounded_set_len(s: Set<int>, n: int)
    requires
        n >= 0,
        forall|x: int| s.contains(x) ==> 0 <= x < n,
    ensures
        s.finite(),
        s.len() <= n,
        s.len() == n ==> s =~= set_int_range(0, n),
{
    lemma_int_range(0, n);
    assert(s.subset_of(set_int_range(0, n)));
    vstd::set_lib::lemma_set_subset_finite(set_int_range(0, n), s);
    lemma_len_subset(s, set_int_range(0, n));
    if s.len() == n {
        vstd::set_lib::lemma_subset_equality(s, set_int_range(0, n));
    }
}

/// The capability walk always ends within its step bound: started from any byte offset with a
/// set of visited byte offsets, any two step counts that cover the offsets not yet visited give
/// the same result.
pub proof fn lemma_capability_walk_bound(cfg: Seq<u8>, offset: int, visited: Set<int>, id: u8, f1: nat, f2: nat)
    requires
        cfg.len() == 4096,
        0 <= offset < 256,
        forall|x: int| visited.contains(x) ==> 0 <= x < 256,
        visited.finite(),
        f1 + visited.len() >= 257,
        f2 + visited.len() >= 257,
    ensures
        cap_search(cfg, offset, visited, id, f1) == cap_search(cfg, offset, visited, id, f2),
    decreases f1,
{
    lemma_bounded_set_len(visited, 256);
    if visited.len() == 256 {
        assert(set_int_range(0, 256).contains(offset));
    }
    if offset != 0 && !visited.contains(offset) && cfg[offset] != id {
        let next = cfg[offset + 1] as int;
        lemma_capability_walk_bound(cfg, next, visited.insert(offset), id, (f1 - 1) as nat, (f2 - 1) as nat);
    }
}

/// Finds the capability with ID `id` in the capability list of a function's configuration space
/// and returns its offset.
pub fn find_capability(cfg_space: &PcieCfgSpace, id: PciCapabilityId) -> (r: Result<PciCapabilityOffset, Error>)
    ensures
        !capabilities_supported(cfg_space@) ==> r == Err::<PciCapabilityOffset, Error>(Error::PciCapabilitiesNotSupported),
        capabilities_supported(cfg_space@) ==> match capability_offset(cfg_space@, id.raw_value()) {
            Some(o) => r == Ok::<PciCapabilityOffset, Error>(o as u8),
            None => r == Err::<PciCapabilityOffset, Error>(Error::PciCapabilityNotFound),
        },
{
    let common = cfg_space.common_header();
    if !common.are_capabilities_supported() {
        return Err(Error::PciCapabilitiesNotSupported);
    }
    let mut offset: u8 = 0;
    if common.is_bridge() {
        if let Some(start) = cfg_space.bridge_header().get_capabilities_offset() {
            offset = start;
        }
    } else {
        if let Some(start) = cfg_space.endpoint_header().get_capabilities_offset() {
            offset = start;
        }
    }
    let bytes = cfg_space.as_bytes();
    let idv = id.raw();
    let mut seen: Vec<bool> = Vec::new();
    let mut i: usize = 0;
    while i < 256
        invariant
            i <= 256,
            seen@.len() == i,
            forall|j: int| 0 <= j < i ==> !seen@[j],
        decreases 256 - i,
    {
        seen.push(false);
        i = i + 1;
    }
    let ghost start = offset as int;
    let ghost mut visited: Set<int> = Set::empty();
    let mut fuel: u16 = CAP_WALK_STEPS;
    while fuel > 0
        invariant
            bytes@ == cfg_space@,
            bytes@.len() == 4096,
            idv == id.raw_value(),
            capabilities_supported(cfg_space@),
            start == cfg_space@[CAPABILITIES_POINTER_OFFSET as int],
            seen@.len() == 256,
            forall|j: int| 0 <= j < 256 ==> (seen@[j] <==> visited.contains(j)),
            cap_search(bytes@, offset as int, visited, idv, fuel as nat) == capability_offset(bytes@, idv),
        decreases fuel,
    {
        if offset == 0 || seen[offset as usize] {
            return Err(Error::PciCapabilityNotFound);
        }
        let header = PciCapabilityHeader::read(cfg_space, offset);
        if header.id == idv {
            return Ok(offset);
        }
        seen.set(offset as usize, true);
        proof {
            visited = visited.insert(offset as int);
        }
        offset = header.next;
        fuel = fuel - 1;
    }
    Err(Error::PciCapabilityNotFound)
}

/// This is the offset where the extended capability range starts in the PCI Express extended
/// configuration space.
pub const PCIE_EXT_CAP_RANGE_BASE: u16 = 256;

/// PCI Express Extended Capability IDs
#[derive(Debug, Clone, Copy, PartialEq, Eq)]
pub enum PcieExtCapId {
    Null,
    AdvancedErrorReporting,
    AccessControlServices,
    /// SR-IOV
    SingleRootIoVirtualization,
    ResizeableBaseAddressRegisters,
}

impl PcieExtCapId {
    /// The extended capability ID that names this capability.
    pub open spec fn raw_value(self) -> u16 {
        match self {
            PcieExtCapId::Null => 0x0000,
            PcieExtCapId::AdvancedErrorReporting => 0x0001,
            PcieExtCapId::AccessControlServices => 0x000d,
            PcieExtCapId::SingleRootIoVirtualization => 0x0010,
            PcieExtCapId::ResizeableBaseAddressRegisters => 0x0011,
        }
    }

    pub fn raw(&self) -> (r: u16)
        ensures
            r == self.raw_value(),
    {
        match self {
            PcieExtCapId::Null => 0x0000,
            PcieExtCapId::AdvancedErrorReporting => 0x0001,
            PcieExtCapId::AccessControlServices => 0x000d,
            PcieExtCapId::SingleRootIoVirtualization => 0x0010,
            PcieExtCapId::ResizeableBaseAddressRegisters => 0x0011,
        }
    }
}

/// The version and next offset half of a PCI Express extended capability header: the lower 4
/// bits hold the version and the upper 12 bits the offset of the next capability.
#[derive(Debug, Clone, Copy, PartialEq, Eq)]
pub struct PcieExtCapVerOffset(pub u16);

impl PcieExtCapVerOffset {
    pub fn new(offset: u16) -> (r: Self)
        ensures
            r.0 == offset,
    {
        PcieExtCapVerOffset(offset)
    }

    pub fn raw(&self) -> (r: u16)
        ensures
            r == self.0,
    {
        self.0
    }

    pub fn get_version(&self) -> (r: u8)
        ensures
            r == self.0 % 16,
    {
        let v = self.0;
        let low = v & 0b1111;
        assert(low == v % 16) by (bit_vector)
            requires
                low == v & 15u16,
        ;
        low as u8
    }

    pub fn get_offset(&self) -> (r: u16)
        ensures
            r == self.0 / 16,
    {
        let v = self.0;
        let r = mask_shift_read_u16(v, 0xfff0, 4);
        assert(r == v / 16) by (bit_vector)
            requires
                r == (v & 0xfff0u16) >> 4u32,
        ;
        r
    }
}

/// The header of a PCI Express extended capability.
#[derive(Debug, Clone, Copy, PartialEq, Eq)]
pub struct PcieExtCapabilityHeader {
    pub id: u16,
    pub next_ver: PcieExtCapVerOffset,
}

impl PcieExtCapabilityHeader {
    /// Reads the extended capability header at `offset` of the configuration space.
    pub fn read(cfg_space: &PcieCfgSpace, offset: u16) -> (r: Self)
        requires
            offset + 4 <= 4096,
        ensures
            r.id == le16(cfg_space@, offset as int),
            r.next_ver.0 == le16(cfg_space@, offset + 2),
    {
        let bytes = cfg_space.as_bytes();
        PcieExtCapabilityHeader {
            id: read_u16_le(bytes, offset as usize),
            next_ver: PcieExtCapVerOffset::new(read_u16_le(bytes, offset as usize + 2)),
        }
    }
}

/// Follows the extended capability list from `offset` for at most `fuel` steps and lists, in
/// order, the offsets of the capabilities with ID `id`. The walk stops at offset 0, at an offset
/// whose header would not fit in the configuration space, or at an offset already visited.
pub open spec fn ext_cap_search(cfg: Seq<u8>, offset: int, visited: Set<int>, id: u16, fuel: nat) -> Seq<u16>
    decreases fuel,
{
    if fuel == 0 || offset == 0 || offset + 4 > 4096 || visited.contains(offset) {
        Seq::empty()
    } else {
        let rest = ext_cap_search(cfg, le16(cfg, offset + 2) / 16, visited.insert(offset), id, (fuel - 1) as nat);
        if le16(cfg, offset) == id {
            seq![offset as u16] + rest
        } else {
            rest
        }
    }
}

/// Number of steps after which a walk over the 4096 possible extended capability offsets has
/// necessarily stopped.
pub const EXT_CAP_WALK_STEPS: u16 = 4097;

/// The offsets, in list order, of the extended capabilities with ID `id`.
pub open spec fn ext_capability_offsets(cfg: Seq<u8>, id: u16) -> Seq<u16> {
    ext_cap_search(cfg, PCIE_EXT_CAP_RANGE_BASE as int, Set::empty(), id, EXT_CAP_WALK_STEPS as nat)
}

/// The extended capability walk always ends within its step bound.
pub proof fn lemma_ext_capability_walk_bound(cfg: Seq<u8>, offset: int, visited: Set<int>, id: u16, f1: nat, f2: nat)
    requires
        0 <= offset < 4096,
        forall|x: int| visited.contains(x) ==> 0 <= x < 4096,
        f1 + visited.len() >= 4097,
        f2 + visited.len() >= 4097,
    ensures
        ext_cap_search(cfg, offset, visited, id, f1) == ext_cap_search(cfg, offset, visited, id, f2),
    decreases f1,
{
    lemma_bounded_set_len(visited, 4096);
    if visited.len() == 4096 {
        assert(set_int_range(0, 4096).contains(offset));
    }
    if !(offset == 0 || offset + 4 > 4096 || visited.contains(offset)) {
        let next = le16(cfg, offset + 2) / 16;
        lemma_ext_capability_walk_bound(cfg, next, visited.insert(offset), id, (f1 - 1) as nat, (f2 - 1) as nat);
    }
}

/// Lists the offsets of all PCI Express extended capabilities with ID `req_id`, in list order.
/// A function without the PCI Express capability has no extended capability space.
pub fn find_extended_capabilities(cfg_space: &PcieCfgSpace, req_id: PcieExtCapId) -> (r: Vec<u16>)
    ensures
        r@ == (if capabilities_supported(cfg_space@)
            && capability_offset(cfg_space@, PciCapabilityId::PciExpress.raw_value()) is Some {
            ext_capability_offsets(cfg_space@, req_id.raw_value())
        } else {
            Seq::empty()
        }),
{
    let mut matches: Vec<u16> = Vec::new();
    if find_capability(cfg_space, PciCapabilityId::PciExpress).is_err() {
        return matches;
    }
    let bytes = cfg_space.as_bytes();
    let idv = req_id.raw();
    let mut seen: Vec<bool> = Vec::new();
    let mut i: usize = 0;
    while i < 4096
        invariant
            i <= 4096,
            seen@.len() == i,
            forall|j: int| 0 <= j < i ==> !seen@[j],
        decreases 4096 - i,
    {
        seen.push(false);
        i = i + 1;
    }
    let ghost mut visited: Set<int> = Set::empty();
    let mut offset: u16 = PCIE_EXT_CAP_RANGE_BASE;
    let mut fuel: u16 = EXT_CAP_WALK_STEPS;
    while fuel > 0
        invariant
            bytes@ == cfg_space@,
            bytes@.len() == 4096,
            idv == req_id.raw_value(),
            capabilities_supported(cfg_space@),
            capability_offset(cfg_space@, PciCapabilityId::PciExpress.raw_value()) is Some,
            seen@.len() == 4096,
            forall|j: int| 0 <= j < 4096 ==> (seen@[j] <==> visited.contains(j)),
            matches@ + ext_cap_search(bytes@, offset as int, visited, idv, fuel as nat)
                == ext_capability_offsets(bytes@, idv),
        decreases fuel,
    {
        if offset == 0 || offset as usize + 4 > 4096 || seen[offset as usize] {
            assert(matches@ =~= matches@ + ext_cap_search(bytes@, offset as int, visited, idv, fuel as nat));
            return matches;
        }
        let header = PcieExtCapabilityHeader::read(cfg_space, offset);
        let ghost before = matches@;
        if header.id == idv {
            matches.push(offset);
            assert(before + ext_cap_search(bytes@, offset as int, visited, idv, fuel as nat)
                =~= matches@ + ext_cap_search(bytes@, (header.next_ver.0 / 16) as int, visited.insert(offset as int), idv, (fuel - 1) as nat));
        }
        seen.set(offset as usize, true);
        proof {
            visited = visited.insert(offset as int);
        }
        offset = header.next_ver.get_offset();
        fuel = fuel - 1;
    }
    assert(matches@ =~= matches@ + Seq::<u16>::empty());
    matches
}

} // verus!
