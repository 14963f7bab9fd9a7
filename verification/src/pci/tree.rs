//! The PCIe topology rendered as an indented tree for logging: which rows appear, in which order
//! and at which indentation. Turning a row into text is left to the caller.
use vstd::prelude::*;

use crate::pci::device_class::PciIdentifier;
use crate::pci::topology::{
    PcieBusSegment, PcieBusSegmentNum, PcieDevice, PcieFunction, PcieSegmentGroup,
    PcieSegmentGroupNum, PcieTopology,
};

verus! {

/// Number of spaces each level of the topology tree is indented by.
pub const TREE_INDENT_STEP: usize = 2;

/// One line of the rendered topology tree.
#[derive(Debug, Clone, Copy, PartialEq, Eq)]
pub enum TreeRow {
    /// The whole tree when the system has no PCIe segment group.
    NoSegmentGroups,
    SegmentGroup {
        indent: usize,
        segment_group: PcieSegmentGroupNum,
        ecam_vaddr: u64,
        start_bus: PcieBusSegmentNum,
        end_bus: PcieBusSegmentNum,
    },
    Bus { indent: usize, number: PcieBusSegmentNum },
    /// The labels of the columns of the function rows below it.
    ColumnHeader { indent: usize },
    Endpoint {
        indent: usize,
        bus: PcieBusSegmentNum,
        device: u8,
        function: u8,
        identifier: PciIdentifier,
    },
    Bridge {
        indent: usize,
        bus: PcieBusSegmentNum,
        device: u8,
        function: u8,
        secondary_bus: PcieBusSegmentNum,
    },
}

/// The indentation of the next level of the tree; it stops growing at the largest `usize`.
pub open spec fn deeper(indent: usize) -> usize {
    if indent <= usize::MAX - TREE_INDENT_STEP {
        (indent + TREE_INDENT_STEP) as usize
    } else {
        usize::MAX
    }
}

fn deeper_exec(indent: usize) -> (r: usize)
    ensures
        r == deeper(indent),
{
    if indent <= usize::MAX - TREE_INDENT_STEP {
        indent + TREE_INDENT_STEP
    } else {
        usize::MAX
    }
}

/// Some slot of the bus holds a device.
pub open spec fn has_occupied_slot(devices: Seq<PcieDevice>) -> bool {
    exists|i: int| 0 <= i < devices.len() && !(#[trigger] devices[i] is Empty)
}

/// The rows of a bus at `indent`: its own row, the column labels where some slot is occupied,
/// then the rows of its devices one level deeper.
pub open spec fn bus_rows(bus: PcieBusSegment, indent: usize) -> Seq<TreeRow>
    decreases bus,
{
    let child = deeper(indent);
    let header = if has_occupied_slot(bus.devices@) {
        seq![TreeRow::ColumnHeader { indent: child }]
    } else {
        Seq::empty()
    };
    seq![TreeRow::Bus { indent, number: bus.number }] + header + devices_rows(
        bus.devices@,
        bus.number,
        child,
    )
}

/// The rows of the devices `devices` of bus `bus`, slot by slot.
pub open spec fn devices_rows(devices: Seq<PcieDevice>, bus: PcieBusSegmentNum, indent: usize) -> Seq<TreeRow>
    decreases devices,
{
    if devices.len() == 0 {
        Seq::empty()
    } else {
        let last = devices.len() - 1;
        devices_rows(devices.subrange(0, last), bus, indent) + device_rows(devices[last], bus, indent)
    }
}

/// The rows of the functions of a device: none for an empty slot, function 0 of a single
/// function device, and each function of a multi-function device by its number.
pub open spec fn device_rows(device: PcieDevice, bus: PcieBusSegmentNum, indent: usize) -> Seq<TreeRow>
    decreases device,
{
    match device {
        PcieDevice::Empty => Seq::empty(),
        PcieDevice::SingleFunc(d) => function_rows(d.function, bus, d.number@, 0, indent),
        PcieDevice::MultiFunc(d) => functions_rows(d.functions@, bus, d.number@, indent),
    }
}

/// The rows of the functions `functions` of a device, function `i` numbered `i`.
pub open spec fn functions_rows(
    functions: Seq<PcieFunction>,
    bus: PcieBusSegmentNum,
    device: u8,
    indent: usize,
) -> Seq<TreeRow>
    decreases functions,
{
    if functions.len() == 0 {
        Seq::empty()
    } else {
        let last = functions.len() - 1;
        functions_rows(functions.subrange(0, last), bus, device, indent) + function_rows(
            functions[last],
            bus,
            device,
            last as u8,
            indent,
        )
    }
}

/// The rows of one function: none when empty, one for an endpoint, and for a bridge its own row
/// followed by the bus behind it one level deeper.
pub open spec fn function_rows(
    function: PcieFunction,
    bus: PcieBusSegmentNum,
    device: u8,
    number: u8,
    indent: usize,
) -> Seq<TreeRow>
    decreases function,
{
    match function {
        PcieFunction::Empty => Seq::empty(),
        PcieFunction::Endpoint(e) => seq![
            TreeRow::Endpoint { indent, bus, device, function: number, identifier: e.identifier },
        ],
        PcieFunction::Bridge(b) => seq![
            TreeRow::Bridge { indent, bus, device, function: number, secondary_bus: b.number },
        ] + bus_rows(*b, deeper(indent)),
    }
}

/// The rows of a segment group at `indent`: its own row, then its root bus one level deeper.
pub open spec fn segment_rows(segment: PcieSegmentGroup, indent: usize) -> Seq<TreeRow> {
    seq![
        TreeRow::SegmentGroup {
            indent,
            segment_group: segment.pcie_segment_group_num,
            ecam_vaddr: segment.ecam_vaddr,
            start_bus: segment.start_bus_num,
            end_bus: segment.end_bus_num,
        },
    ] + bus_rows(*segment.root_bus, deeper(indent))
}

/// The rows of the segment groups `segments`, in order.
pub open spec fn segments_rows(segments: Seq<PcieSegmentGroup>, indent: usize) -> Seq<TreeRow>
    decreases segments.len(),
{
    if segments.len() == 0 {
        Seq::empty()
    } else {
        let last = segments.len() - 1;
        segments_rows(segments.subrange(0, last), indent) + segment_rows(segments[last], indent)
    }
}

/// The rendered tree of a topology with segment groups `segments`: a single row saying there is
/// none, or each group one level in from the margin.
pub open spec fn topology_rows(segments: Seq<PcieSegmentGroup>) -> Seq<TreeRow> {
    if segments.len() == 0 {
        seq![TreeRow::NoSegmentGroups]
    } else {
        segments_rows(segments, TREE_INDENT_STEP)
    }
}

fn has_occupied_slot_exec(devices: &Vec<PcieDevice>) -> (r: bool)
    ensures
        r == has_occupied_slot(devices@),
{
    let mut i: usize = 0;
    while i < devices.len()
        invariant
            i <= devices@.len(),
            forall|j: int| 0 <= j < i ==> devices@[j] is Empty,
        decreases devices@.len() - i,
    {
        if !matches!(devices[i], PcieDevice::Empty) {
            return true;
        }
        i = i + 1;
    }
    false
}

impl PcieFunction {
    /// Appends the rows of this function, numbered `number` in device `device` of bus `bus`, at
    /// `indent`.
    pub fn fmt_tree(&self, out: &mut Vec<TreeRow>, indent: usize, bus: PcieBusSegmentNum, device: u8, number: u8)
        ensures
            final(out)@ == old(out)@ + function_rows(*self, bus, device, number, indent),
        decreases *self, 0int,
    {
        match self {
            PcieFunction::Empty => {
                assert(function_rows(*self, bus, device, number, indent) =~= Seq::empty());
                assert(out@ =~= old(out)@ + Seq::empty());
            },
            PcieFunction::Endpoint(e) => {
                out.push(TreeRow::Endpoint { indent, bus, device, function: number, identifier: e.identifier });
            },
            PcieFunction::Bridge(b) => {
                out.push(TreeRow::Bridge { indent, bus, device, function: number, secondary_bus: b.number });
                let ghost mid = out@;
                b.fmt_tree(out, deeper_exec(indent));
                assert(out@ =~= old(out)@ + function_rows(*self, bus, device, number, indent));
            },
        }
    }
}

impl PcieBusSegment {
    /// Appends the rows of this bus and of everything behind it at `indent`.
    pub fn fmt_tree(&self, out: &mut Vec<TreeRow>, indent: usize)
        ensures
            final(out)@ == old(out)@ + bus_rows(*self, indent),
        decreases *self, 1int,
    {
        let child = deeper_exec(indent);
        out.push(TreeRow::Bus { indent, number: self.number });
        if has_occupied_slot_exec(&self.devices) {
            out.push(TreeRow::ColumnHeader { indent: child });
        }
        let ghost start = out@;
        let mut i: usize = 0;
        while i < self.devices.len()
            invariant
                i <= self.devices@.len(),
                out@ == start + devices_rows(self.devices@.subrange(0, i as int), self.number, child),
            decreases self.devices@.len() - i,
        {
            let ghost before = out@;
            let ghost done = self.devices@.subrange(0, i as int);
            assert(self.devices@.subrange(0, i as int + 1).subrange(0, i as int) =~= done);
            match &self.devices[i] {
                PcieDevice::Empty => {},
                PcieDevice::SingleFunc(d) => {
                    d.function.fmt_tree(out, child, self.number, d.number.get_inner(), 0);
                },
                PcieDevice::MultiFunc(d) => {
                    let ghost dev_start = out@;
                    let device = d.number.get_inner();
                    let mut j: usize = 0;
                    while j < d.functions.len()
                        invariant
                            j <= d.functions@.len(),
                            self.devices@[i as int] == PcieDevice::MultiFunc(*d),
                            i < self.devices@.len(),
                            device == d.number@,
                            out@ == dev_start + functions_rows(d.functions@.subrange(0, j as int), self.number, device, child),
                        decreases d.functions@.len() - j,
                    {
                        assert(d.functions@.subrange(0, j as int + 1).subrange(0, j as int)
                            =~= d.functions@.subrange(0, j as int));
                        proof {
                            let dev = self.devices@[i as int];
                            assert(decreases_to!(self.devices@ => dev));
                            assert(decreases_to!(dev => dev->MultiFunc_0));
                            assert(dev->MultiFunc_0 == *d);
                            assert(decreases_to!(d.functions@ => d.functions@[j as int]));
                            assert(decreases_to!(*self => d.functions@[j as int]));
                        }
                        d.functions[j].fmt_tree(out, child, self.number, device, #[verifier::truncate] (j as u8));
                        assert(out@ =~= dev_start + functions_rows(d.functions@.subrange(0, j as int + 1), self.number, device, child));
                        j = j + 1;
                    }
                    assert(d.functions@.subrange(0, j as int) =~= d.functions@);
                },
            }
            assert(self.devices@.subrange(0, i as int + 1)[i as int] == self.devices@[i as int]);
            assert(out@ =~= before + device_rows(self.devices@[i as int], self.number, child));
            assert(out@ =~= start + devices_rows(self.devices@.subrange(0, i as int + 1), self.number, child));
            i = i + 1;
        }
        assert(self.devices@.subrange(0, i as int) =~= self.devices@);
        assert(out@ =~= old(out)@ + bus_rows(*self, indent));
    }
}

impl PcieSegmentGroup {
    /// Appends the rows of this segment group and its buses at `indent`.
    pub fn fmt_tree(&self, out: &mut Vec<TreeRow>, indent: usize)
        ensures
            final(out)@ == old(out)@ + segment_rows(*self, indent),
    {
        out.push(TreeRow::SegmentGroup {
            indent,
            segment_group: self.pcie_segment_group_num,
            ecam_vaddr: self.ecam_vaddr,
            start_bus: self.start_bus_num,
            end_bus: self.end_bus_num,
        });
        self.root_bus.fmt_tree(out, deeper_exec(indent));
        assert(out@ =~= old(out)@ + segment_rows(*self, indent));
    }
}

impl PcieTopology {
    /// The rows of the tree that renders this topology, top to bottom.
    pub fn tree_rows(&self) -> (r: Vec<TreeRow>)
        ensures
            r@ == topology_rows(self.segments@),
    {
        let mut out: Vec<TreeRow> = Vec::new();
        if self.segments.len() == 0 {
            out.push(TreeRow::NoSegmentGroups);
            assert(out@ =~= topology_rows(self.segments@));
            return out;
        }
        let mut i: usize = 0;
        while i < self.segments.len()
            invariant
                i <= self.segments@.len(),
                out@ == segments_rows(self.segments@.subrange(0, i as int), TREE_INDENT_STEP),
            decreases self.segments@.len() - i,
        {
            assert(self.segments@.subrange(0, i as int + 1).subrange(0, i as int)
                =~= self.segments@.subrange(0, i as int));
            assert(self.segments@.subrange(0, i as int + 1)[i as int] == self.segments@[i as int]);
            self.segments[i].fmt_tree(&mut out, TREE_INDENT_STEP);
            i = i + 1;
        }
        assert(self.segments@.subrange(0, i as int) =~= self.segments@);
        out
    }
}

} // verus!
