//! The PCIe topology: locations of functions in the ECAM and the tree of bus segments, devices
//! and functions found by enumeration.
use vstd::prelude::*;

use crate::pci::cfg_space::PcieCfgSpace;
use crate::pci::device_class::PciIdentifier;
use crate::pci::{Error, MAX_DEVICES_PER_BUS, MAX_FUNCTIONS_PER_DEVICE};

verus! {

pub type PcieSegmentGroupNum = u16;

pub type PcieBusSegmentNum = u8;

/// A device slot number on a bus segment, below `MAX_DEVICES_PER_BUS`.
#[derive(Debug, Clone, Copy, PartialEq, Eq, Hash)]
pub struct PcieDeviceNum(u8);

impl View for PcieDeviceNum {
    type V = u8;

    closed spec fn view(&self) -> u8 {
        self.0
    }
}

impl PcieDeviceNum {
    #[verifier::type_invariant]
    spec fn in_range(&self) -> bool {
        self.0 < MAX_DEVICES_PER_BUS
    }

    /// The device number `num`, where it names one of the slots of a bus.
    pub fn try_new(num: u8) -> (r: Option<Self>)
        ensures
            num < MAX_DEVICES_PER_BUS ==> r is Some && r->0@ == num,
            num >= MAX_DEVICES_PER_BUS ==> r is None,
    {
        if (num as usize) < MAX_DEVICES_PER_BUS {
            Some(PcieDeviceNum(num))
        } else {
            None
        }
    }

    pub fn get_inner(self) -> (r: u8)
        ensures
            r == self@,
            r < MAX_DEVICES_PER_BUS,
    {
        proof {
            use_type_invariant(&self);
        }
        self.0
    }
}

/// A function number within a device slot, below `MAX_FUNCTIONS_PER_DEVICE`.
#[derive(Debug, Clone, Copy, PartialEq, Eq, Hash)]
pub struct PcieFunctionNum(u8);

impl View for PcieFunctionNum {
    type V = u8;

    closed spec fn view(&self) -> u8 {
        self.0
    }
}

impl PcieFunctionNum {
    #[verifier::type_invariant]
    spec fn in_range(&self) -> bool {
        self.0 < MAX_FUNCTIONS_PER_DEVICE
    }

    /// The function number `num`, where it names one of the functions of a device.
    pub fn try_new(num: u8) -> (r: Option<Self>)
        ensures
            num < MAX_FUNCTIONS_PER_DEVICE ==> r is Some && r->0@ == num,
            num >= MAX_FUNCTIONS_PER_DEVICE ==> r is None,
    {
        if (num as usize) < MAX_FUNCTIONS_PER_DEVICE {
            Some(PcieFunctionNum(num))
        } else {
            None
        }
    }

    pub fn get_inner(self) -> (r: u8)
        ensures
            r == self@,
            r < MAX_FUNCTIONS_PER_DEVICE,
    {
        proof {
            use_type_invariant(&self);
        }
        self.0
    }
}

/// Each bus occupies 1 MiB of ECAM address space.
pub const BUS_SEGMENT_SHIFT: usize = 20;

/// Each device occupies 32 KiB of ECAM address space.
pub const DEVICE_SHIFT: usize = 15;

/// Each function occupies 4 KiB of ECAM address space.
pub const FUNCTION_SHIFT: usize = 12;

/// The size of the ECAM region of one segment group with all 256 buses.
pub const ECAM_SEGMENT_SIZE: u64 = 0x1000_0000;

/// The location of a function in the PCIe topology.
#[derive(Debug, Clone, Copy, PartialEq, Eq, Hash)]
pub struct PcieLocation {
    pub segment_group: PcieSegmentGroupNum,
    pub bus_segment: PcieBusSegmentNum,
    pub device: PcieDeviceNum,
    pub function: PcieFunctionNum,
}

/// The offset of the configuration space of a function from the start of its segment's ECAM.
pub open spec fn ecam_offset(bus: int, device: int, function: int) -> int {
    bus * 0x10_0000 + device * 0x8000 + function * 0x1000
}

impl PcieLocation {
    pub fn new(
        segment_group: PcieSegmentGroupNum,
        bus_segment: PcieBusSegmentNum,
        device: PcieDeviceNum,
        function: PcieFunctionNum,
    ) -> (r: Self)
        ensures
            r == (PcieLocation { segment_group, bus_segment, device, function }),
    {
        PcieLocation { segment_group, bus_segment, device, function }
    }

    /// The offset of this function's configuration space in the ECAM of its segment group.
    pub fn get_ecam_offset(&self) -> (r: usize)
        ensures
            r == ecam_offset(self.bus_segment as int, self.device@ as int, self.function@ as int),
            r + 0x1000 <= ECAM_SEGMENT_SIZE,
    {
        let device = self.device.get_inner() as usize;
        let function = self.function.get_inner() as usize;
        let bus = self.bus_segment as usize;
        let bus_offset = bus << BUS_SEGMENT_SHIFT;
        let device_offset = device << DEVICE_SHIFT;
        let function_offset = function << FUNCTION_SHIFT;
        assert(bus_offset == bus * 0x10_0000) by (bit_vector)
            requires
                bus_offset == bus << 20usize,
                bus < 256,
        ;
        assert(device_offset == device * 0x8000) by (bit_vector)
            requires
                device_offset == device << 15usize,
                device < 32,
        ;
        assert(function_offset == function * 0x1000) by (bit_vector)
            requires
                function_offset == function << 12usize,
                function < 8,
        ;
        bus_offset + device_offset + function_offset
    }
}

/// Two functions of one segment group at different bus, device or function numbers have
/// configuration spaces at different 4 KiB-aligned offsets of the ECAM that do not overlap.
pub proof fn lemma_ecam_offsets_disjoint(b1: int, d1: int, f1: int, b2: int, d2: int, f2: int)
    requires
        0 <= b1 < 256,
        0 <= b2 < 256,
        0 <= d1 < 32,
        0 <= d2 < 32,
        0 <= f1 < 8,
        0 <= f2 < 8,
        (b1, d1, f1) != (b2, d2, f2),
    ensures
        ecam_offset(b1, d1, f1) % 0x1000 == 0,
        ecam_offset(b1, d1, f1) + 0x1000 <= ecam_offset(b2, d2, f2)
            || ecam_offset(b2, d2, f2) + 0x1000 <= ecam_offset(b1, d1, f1),
{
    let n1 = (b1 * 32 + d1) * 8 + f1;
    let n2 = (b2 * 32 + d2) * 8 + f2;
    assert(ecam_offset(b1, d1, f1) == n1 * 0x1000);
    assert(ecam_offset(b2, d2, f2) == n2 * 0x1000);
    assert(n1 != n2);
}

/// A PCIe segment group: the bus range its ECAM covers, the virtual address where that ECAM is
/// mapped, and the root bus of its topology.
#[derive(Debug)]
pub struct PcieSegmentGroup {
    pub pcie_segment_group_num: PcieSegmentGroupNum,
    pub ecam_vaddr: u64,
    pub start_bus_num: PcieBusSegmentNum,
    pub end_bus_num: PcieBusSegmentNum,
    pub root_bus: Box<PcieBusSegment>,
}

impl PcieSegmentGroup {
    /// The mapped ECAM of the group lies within the address space.
    pub open spec fn wf(&self) -> bool {
        self.ecam_vaddr + ECAM_SEGMENT_SIZE <= u64::MAX
    }

    /// A segment group whose ECAM is mapped at `ecam_vaddr` and whose root bus, numbered
    /// `start_bus_num`, has been enumerated.
    pub fn new(
        pcie_segment_group_num: PcieSegmentGroupNum,
        ecam_vaddr: u64,
        start_bus_num: PcieBusSegmentNum,
        end_bus_num: PcieBusSegmentNum,
        root_bus: PcieBusSegment,
    ) -> (r: Self)
        requires
            ecam_vaddr + ECAM_SEGMENT_SIZE <= u64::MAX,
            root_bus.number == start_bus_num,
        ensures
            r.wf(),
            r.pcie_segment_group_num == pcie_segment_group_num,
            r.ecam_vaddr == ecam_vaddr,
            r.start_bus_num == start_bus_num,
            r.end_bus_num == end_bus_num,
            *r.root_bus == root_bus,
    {
        PcieSegmentGroup {
            pcie_segment_group_num,
            ecam_vaddr,
            start_bus_num,
            end_bus_num,
            root_bus: Box::new(root_bus),
        }
    }
}

/// The index of the first segment group in `segments` numbered `num`.
pub open spec fn first_segment_index(segments: Seq<PcieSegmentGroup>, num: PcieSegmentGroupNum) -> Option<int>
    decreases segments.len(),
{
    if segments.len() == 0 {
        None
    } else if segments[0].pcie_segment_group_num == num {
        Some(0)
    } else {
        match first_segment_index(segments.drop_first(), num) {
            Some(i) => Some(i + 1),
            None => None,
        }
    }
}

proof fn lemma_first_segment_index(segments: Seq<PcieSegmentGroup>, num: PcieSegmentGroupNum)
    ensures
        match first_segment_index(segments, num) {
            Some(i) => 0 <= i < segments.len() && segments[i].pcie_segment_group_num == num
                && forall|j: int| 0 <= j < i ==> segments[j].pcie_segment_group_num != num,
            None => forall|j: int| 0 <= j < segments.len() ==> segments[j].pcie_segment_group_num != num,
        },
    decreases segments.len(),
{
    if segments.len() > 0 {
        lemma_first_segment_index(segments.drop_first(), num);
        match first_segment_index(segments.drop_first(), num) {
            Some(i) => {
                assert forall|j: int| #![trigger segments[j]] 0 <= j < i + 1 && segments[0].pcie_segment_group_num != num
                    implies segments[j].pcie_segment_group_num != num by {
                    if j > 0 {
                        assert(segments[j] == segments.drop_first()[j - 1]);
                    }
                }
            },
            None => {
                assert forall|j: int| #![trigger segments[j]] 0 <= j < segments.len() && segments[0].pcie_segment_group_num != num
                    implies segments[j].pcie_segment_group_num != num by {
                    if j > 0 {
                        assert(segments[j] == segments.drop_first()[j - 1]);
                    }
                }
            },
        }
    }
}

/// The PCIe topology of the system: all of its segment groups.
#[derive(Debug)]
pub struct PcieTopology {
    pub segments: Vec<PcieSegmentGroup>,
}

impl PcieTopology {
    /// Every segment group's mapped ECAM lies within the address space.
    pub open spec fn wf(&self) -> bool {
        forall|i: int| 0 <= i < self.segments@.len() ==> #[trigger] self.segments@[i].wf()
    }

    pub fn new(segments: Vec<PcieSegmentGroup>) -> (r: Self)
        ensures
            r.segments@ == segments@,
    {
        PcieTopology { segments }
    }

    /// The virtual address of the configuration space of a function, found through the first
    /// segment group with the given number, where that group's bus range holds the bus.
    pub fn get_cfg_space_vaddr(
        &self,
        segment_group: PcieSegmentGroupNum,
        bus_segment: PcieBusSegmentNum,
        device_num: PcieDeviceNum,
        function_num: PcieFunctionNum,
    ) -> (r: Result<u64, Error>)
        requires
            self.wf(),
        ensures
            match first_segment_index(self.segments@, segment_group) {
                None => r == Err::<u64, Error>(Error::InvalidLocation),
                Some(i) => {
                    let sg = self.segments@[i];
                    if bus_segment < sg.start_bus_num || bus_segment > sg.end_bus_num {
                        r == Err::<u64, Error>(Error::InvalidLocation)
                    } else {
                        r == Ok::<u64, Error>(
                            (sg.ecam_vaddr + ecam_offset(bus_segment as int, device_num@ as int, function_num@ as int)) as u64,
                        )
                    }
                },
            },
    {
        proof {
            lemma_first_segment_index(self.segments@, segment_group);
        }
        let mut i: usize = 0;
        while i < self.segments.len()
            invariant
                i <= self.segments@.len(),
                self.wf(),
                forall|j: int| 0 <= j < i ==> self.segments@[j].pcie_segment_group_num != segment_group,
            decreases self.segments@.len() - i,
        {
            let sg = &self.segments[i];
            if sg.pcie_segment_group_num == segment_group {
                assert(first_segment_index(self.segments@, segment_group) == Some(i as int)) by {
                    lemma_first_segment_index(self.segments@, segment_group);
                    if let Some(k) = first_segment_index(self.segments@, segment_group) {
                        assert(k == i);
                    }
                }
                if bus_segment < sg.start_bus_num || bus_segment > sg.end_bus_num {
                    return Err(Error::InvalidLocation);
                }
                let location = PcieLocation::new(sg.pcie_segment_group_num, bus_segment, device_num, function_num);
                let offset = location.get_ecam_offset();
                assert(self.segments@[i as int].wf());
                return Ok(sg.ecam_vaddr + offset as u64);
            }
            i = i + 1;
        }
        Err(Error::InvalidLocation)
    }
}

/// A bus segment and the devices in its 32 slots.
#[derive(Debug)]
pub struct PcieBusSegment {
    pub number: PcieBusSegmentNum,
    pub devices: Vec<PcieDevice>,
}

impl PcieBusSegment {
    /// A bus segment with the devices enumerated in each of its slots.
    pub fn new(number: PcieBusSegmentNum, devices: Vec<PcieDevice>) -> (r: Self)
        requires
            devices@.len() == MAX_DEVICES_PER_BUS,
        ensures
            r.number == number,
            r.devices@ == devices@,
    {
        PcieBusSegment { number, devices }
    }
}

/// What the configuration space of function 0 of a device slot shows.
#[derive(Debug, Clone, Copy, PartialEq, Eq)]
pub enum DeviceSlotKind {
    Empty,
    SingleFunc,
    MultiFunc,
}

/// What the configuration space of a function shows.
#[derive(Debug, Clone, Copy, PartialEq, Eq)]
pub enum FunctionKind {
    Empty,
    Endpoint,
    /// A bridge with the number of the bus segment behind it.
    Bridge(PcieBusSegmentNum),
}

/// The contents of a device slot.
#[derive(Debug)]
pub enum PcieDevice {
    Empty,
    SingleFunc(PcieSingleFuncDevice),
    MultiFunc(PcieMultiFuncDevice),
}

impl PcieDevice {
    /// Decides what a device slot holds from the configuration space of its function 0.
    pub fn classify(cfg_function0: &PcieCfgSpace) -> (r: DeviceSlotKind)
        ensures
            crate::byte_order::le16(cfg_function0@, 0) == 0xffff ==> r == DeviceSlotKind::Empty,
            crate::byte_order::le16(cfg_function0@, 0) != 0xffff && cfg_function0@[14] >= 0x80
                ==> r == DeviceSlotKind::MultiFunc,
            crate::byte_order::le16(cfg_function0@, 0) != 0xffff && cfg_function0@[14] < 0x80
                ==> r == DeviceSlotKind::SingleFunc,
    {
        if !cfg_function0.has_device_present() {
            DeviceSlotKind::Empty
        } else if cfg_function0.device_is_multifunction() {
            DeviceSlotKind::MultiFunc
        } else {
            DeviceSlotKind::SingleFunc
        }
    }
}

/// A device that implements only function 0.
#[derive(Debug)]
pub struct PcieSingleFuncDevice {
    pub number: PcieDeviceNum,
    pub function: PcieFunction,
}

impl PcieSingleFuncDevice {
    pub fn new(number: PcieDeviceNum, function: PcieFunction) -> (r: Self)
        ensures
            r.number == number,
            r.function == function,
    {
        PcieSingleFuncDevice { number, function }
    }
}

/// A device with one entry for each of its 8 functions.
#[derive(Debug)]
pub struct PcieMultiFuncDevice {
    pub number: PcieDeviceNum,
    pub functions: Vec<PcieFunction>,
}

impl PcieMultiFuncDevice {
    pub fn new(number: PcieDeviceNum, functions: Vec<PcieFunction>) -> (r: Self)
        requires
            functions@.len() == MAX_FUNCTIONS_PER_DEVICE,
        ensures
            r.number == number,
            r.functions@ == functions@,
    {
        PcieMultiFuncDevice { number, functions }
    }
}

/// A function slot: empty, an endpoint, or a bridge with the bus segment behind it.
#[derive(Debug)]
pub enum PcieFunction {
    Empty,
    Endpoint(Box<PcieEndpoint>),
    Bridge(Box<PcieBusSegment>),
}

impl PcieFunction {
    /// Decides what a function is from its configuration space.
    pub fn classify(cfg_space: &PcieCfgSpace) -> (r: FunctionKind)
        ensures
            crate::byte_order::le16(cfg_space@, 0) == 0xffff ==> r == FunctionKind::Empty,
            crate::byte_order::le16(cfg_space@, 0) != 0xffff && cfg_space@[14] % 2 == 1
                ==> r == FunctionKind::Bridge(cfg_space@[25]),
            crate::byte_order::le16(cfg_space@, 0) != 0xffff && cfg_space@[14] % 2 == 0
                ==> r == FunctionKind::Endpoint,
    {
        if !cfg_space.has_device_present() {
            FunctionKind::Empty
        } else if cfg_space.device_is_bridge() {
            FunctionKind::Bridge(cfg_space.bridge_header().get_secondary_bus_num())
        } else {
            FunctionKind::Endpoint
        }
    }
}

/// A function that is a normal endpoint: its identifier and where its configuration space is
/// mapped.
#[derive(Debug)]
pub struct PcieEndpoint {
    pub number: PcieFunctionNum,
    pub identifier: PciIdentifier,
    pub cfg_vaddr: u64,
}

impl PcieEndpoint {
    /// The endpoint at function `number` whose configuration space, mapped at `cfg_vaddr`, is
    /// `cfg_space`.
    pub fn new(number: PcieFunctionNum, cfg_space: &PcieCfgSpace, cfg_vaddr: u64) -> (r: Self)
        requires
            cfg_vaddr != 0,
        ensures
            r.number == number,
            r.identifier == PciIdentifier::from_cfg(cfg_space@),
            r.cfg_vaddr == cfg_vaddr,
    {
        PcieEndpoint { number, identifier: cfg_space.common_header().get_identifier(), cfg_vaddr }
    }
}

} // verus!
