//! The text of the rendered PCIe topology tree: each row as the line the kernel log shows, with
//! hexadecimal and decimal numbers written out digit by digit.
use vstd::prelude::*;
use vstd::string::StringSliceAdditionalSpecFns;

use crate::hw_interface::{hw_interface_of, HwDeviceIfce};
use crate::pci::device_class::{PciIdentifier, VendorNames};
use crate::pci::topology::{PcieBusSegment, PcieTopology};
use crate::pci::tree::{bus_rows, topology_rows, TreeRow};

verus! {

/// `n` spaces.
pub open spec fn spaces(n: nat) -> Seq<u8> {
    Seq::new(n, |i: int| 0x20u8)
}

/// The lower-case ASCII hexadecimal digit of `d`, below 16.
pub open spec fn hex_digit(d: nat) -> u8 {
    if d < 10 {
        (0x30 + d) as u8
    } else {
        (0x57 + d) as u8
    }
}

/// The last `width` hexadecimal digits of `v`, most significant first, padded with zeros.
pub open spec fn hex_fixed(v: nat, width: nat) -> Seq<u8>
    decreases width,
{
    if width == 0 {
        Seq::empty()
    } else {
        hex_fixed(v / 16, (width - 1) as nat).push(hex_digit(v % 16))
    }
}

/// The hexadecimal digits of `v` without leading zeros (one digit for zero).
pub open spec fn hex_min(v: nat) -> Seq<u8>
    decreases v,
{
    if v < 16 {
        seq![hex_digit(v)]
    } else {
        hex_min(v / 16).push(hex_digit(v % 16))
    }
}

/// The decimal digits of `v` without leading zeros (one digit for zero).
pub open spec fn decimal(v: nat) -> Seq<u8>
    decreases v,
{
    if v < 10 {
        seq![(0x30 + v) as u8]
    } else {
        decimal(v / 10).push((0x30 + v % 10) as u8)
    }
}

/// The text of a function's identifier: the vendor's name by `names`, vendor and device IDs, the
/// device interface's name and the class triple.
pub open spec fn identifier_text(id: PciIdentifier, names: VendorNames) -> Seq<u8> {
    "| ".spec_bytes() + names.name_of(id.vendor_id) + "[0x".spec_bytes() + hex_fixed(id.vendor_id as nat, 4) + "]:0x".spec_bytes()
        + hex_fixed(id.device_id as nat, 4) + " | ".spec_bytes()
        + hw_interface_of(id).name_spec().spec_bytes() + "[class 0x".spec_bytes()
        + hex_fixed(id.class_code as nat, 2) + ", subclass 0x".spec_bytes()
        + hex_fixed(id.subclass as nat, 2) + ", prog IF 0x".spec_bytes()
        + hex_fixed(id.prog_if as nat, 2) + "] |".spec_bytes()
}

/// The `bus:device.function` address that starts a function's line.
pub open spec fn bdf_text(bus: u8, device: u8, function: u8) -> Seq<u8> {
    hex_fixed(bus as nat, 2) + ":".spec_bytes() + hex_fixed(device as nat, 2) + ".".spec_bytes()
        + hex_min(function as nat)
}

/// The line of one row, ending in a line feed (the single row of an empty topology has none).
pub open spec fn row_text(row: TreeRow, names: VendorNames) -> Seq<u8> {
    match row {
        TreeRow::NoSegmentGroups => "  (no PCIe segment groups)".spec_bytes(),
        TreeRow::SegmentGroup { indent, segment_group, ecam_vaddr, start_bus, end_bus } => spaces(
            indent as nat,
        ) + "Segment Group ".spec_bytes() + decimal(segment_group as nat) + " (ECAM @ 0x".spec_bytes()
            + hex_fixed(ecam_vaddr as nat, 16) + ", buses 0x".spec_bytes() + hex_fixed(start_bus as nat, 2)
            + "-0x".spec_bytes() + hex_fixed(end_bus as nat, 2) + ")\n".spec_bytes(),
        TreeRow::Bus { indent, number } => spaces(indent as nat) + "Bus 0x".spec_bytes() + hex_fixed(
            number as nat,
            2,
        ) + "\n".spec_bytes(),
        TreeRow::ColumnHeader { indent } => spaces(indent as nat)
            + "B:D.F    VID:DID    Class (cc:sc:pi)\n".spec_bytes(),
        TreeRow::Endpoint { indent, bus, device, function, identifier } => spaces(indent as nat)
            + bdf_text(bus, device, function) + "  ".spec_bytes() + identifier_text(identifier, names)
            + "\n".spec_bytes(),
        TreeRow::Bridge { indent, bus, device, function, secondary_bus } => spaces(indent as nat)
            + bdf_text(bus, device, function) + "  PCI-to-PCI bridge -> bus 0x".spec_bytes()
            + hex_fixed(secondary_bus as nat, 2) + "\n".spec_bytes(),
    }
}

/// The text of the rows `rows`, one after the other.
pub open spec fn rows_text(rows: Seq<TreeRow>, names: VendorNames) -> Seq<u8>
    decreases rows.len(),
{
    if rows.len() == 0 {
        Seq::empty()
    } else {
        rows_text(rows.drop_last(), names) + row_text(rows.last(), names)
    }
}

fn push_str(out: &mut Vec<u8>, s: &str)
    ensures
        final(out)@ == old(out)@ + s.spec_bytes(),
{
    let bytes = s.as_bytes();
    let mut i: usize = 0;
    while i < bytes.len()
        invariant
            i <= bytes@.len(),
            bytes@ == s.spec_bytes(),
            out@ == old(out)@ + bytes@.take(i as int),
        decreases bytes@.len() - i,
    {
        out.push(bytes[i]);
        assert(bytes@.take(i + 1) =~= bytes@.take(i as int).push(bytes@[i as int]));
        i = i + 1;
    }
    assert(bytes@.take(i as int) =~= bytes@);
}

fn push_spaces(out: &mut Vec<u8>, n: usize)
    ensures
        final(out)@ == old(out)@ + spaces(n as nat),
{
    let mut i: usize = 0;
    while i < n
        invariant
            i <= n,
            out@ == old(out)@ + spaces(i as nat),
        decreases n - i,
    {
        out.push(0x20);
        assert(spaces((i + 1) as nat) =~= spaces(i as nat).push(0x20u8));
        i = i + 1;
    }
}

fn hex_digit_exec(d: u64) -> (r: u8)
    requires
        d < 16,
    ensures
        r == hex_digit(d as nat),
{
    if d < 10 {
        (0x30 + d) as u8
    } else {
        (0x57 + d) as u8
    }
}

fn push_hex_fixed(out: &mut Vec<u8>, v: u64, width: usize)
    ensures
        final(out)@ == old(out)@ + hex_fixed(v as nat, width as nat),
    decreases width,
{
    if width > 0 {
        push_hex_fixed(out, v / 16, width - 1);
        out.push(hex_digit_exec(v % 16));
        assert(out@ =~= old(out)@ + hex_fixed(v as nat, width as nat));
    } else {
        assert(out@ =~= old(out)@ + hex_fixed(v as nat, width as nat));
    }
}

fn push_hex_min(out: &mut Vec<u8>, v: u64)
    ensures
        final(out)@ == old(out)@ + hex_min(v as nat),
    decreases v,
{
    if v < 16 {
        out.push(hex_digit_exec(v));
        assert(out@ =~= old(out)@ + hex_min(v as nat));
    } else {
        push_hex_min(out, v / 16);
        out.push(hex_digit_exec(v % 16));
        assert(out@ =~= old(out)@ + hex_min(v as nat));
    }
}

fn push_decimal(out: &mut Vec<u8>, v: u64)
    ensures
        final(out)@ == old(out)@ + decimal(v as nat),
    decreases v,
{
    if v < 10 {
        out.push((0x30 + v) as u8);
        assert(out@ =~= old(out)@ + decimal(v as nat));
    } else {
        push_decimal(out, v / 10);
        out.push((0x30 + v % 10) as u8);
        assert(out@ =~= old(out)@ + decimal(v as nat));
    }
}

fn push_bdf(out: &mut Vec<u8>, bus: u8, device: u8, function: u8)
    ensures
        final(out)@ == old(out)@ + bdf_text(bus, device, function),
{
    push_hex_fixed(out, bus as u64, 2);
    push_str(out, ":");
    push_hex_fixed(out, device as u64, 2);
    push_str(out, ".");
    push_hex_min(out, function as u64);
    assert(out@ =~= old(out)@ + bdf_text(bus, device, function));
}

impl PciIdentifier {
    /// Appends the identifier's text as the topology tree shows it, the vendor named by `names`.
    pub fn write_text(&self, names: &VendorNames, out: &mut Vec<u8>)
        ensures
            final(out)@ == old(out)@ + identifier_text(*self, *names),
    {
        let name = HwDeviceIfce::of_pci_function(*self).name();
        push_str(out, "| ");
        push_str(out, names.name(self.vendor_id));
        push_str(out, "[0x");
        push_hex_fixed(out, self.vendor_id as u64, 4);
        push_str(out, "]:0x");
        push_hex_fixed(out, self.device_id as u64, 4);
        push_str(out, " | ");
        push_str(out, name);
        push_str(out, "[class 0x");
        push_hex_fixed(out, self.class_code as u64, 2);
        push_str(out, ", subclass 0x");
        push_hex_fixed(out, self.subclass as u64, 2);
        push_str(out, ", prog IF 0x");
        push_hex_fixed(out, self.prog_if as u64, 2);
        push_str(out, "] |");
        assert(out@ =~= old(out)@ + identifier_text(*self, *names));
    }
}

impl TreeRow {
    /// Appends the line of this row, vendors named by `names`.
    pub fn render(&self, names: &VendorNames, out: &mut Vec<u8>)
        ensures
            final(out)@ == old(out)@ + row_text(*self, *names),
    {
        match *self {
            TreeRow::NoSegmentGroups => {
                push_str(out, "  (no PCIe segment groups)");
            },
            TreeRow::SegmentGroup { indent, segment_group, ecam_vaddr, start_bus, end_bus } => {
                push_spaces(out, indent);
                push_str(out, "Segment Group ");
                push_decimal(out, segment_group as u64);
                push_str(out, " (ECAM @ 0x");
                push_hex_fixed(out, ecam_vaddr, 16);
                push_str(out, ", buses 0x");
                push_hex_fixed(out, start_bus as u64, 2);
                push_str(out, "-0x");
                push_hex_fixed(out, end_bus as u64, 2);
                push_str(out, ")\n");
            },
            TreeRow::Bus { indent, number } => {
                push_spaces(out, indent);
                push_str(out, "Bus 0x");
                push_hex_fixed(out, number as u64, 2);
                push_str(out, "\n");
            },
            TreeRow::ColumnHeader { indent } => {
                push_spaces(out, indent);
                push_str(out, "B:D.F    VID:DID    Class (cc:sc:pi)\n");
            },
            TreeRow::Endpoint { indent, bus, device, function, identifier } => {
                push_spaces(out, indent);
                push_bdf(out, bus, device, function);
                push_str(out, "  ");
                identifier.write_text(names, out);
                push_str(out, "\n");
            },
            TreeRow::Bridge { indent, bus, device, function, secondary_bus } => {
                push_spaces(out, indent);
                push_bdf(out, bus, device, function);
                push_str(out, "  PCI-to-PCI bridge -> bus 0x");
                push_hex_fixed(out, secondary_bus as u64, 2);
                push_str(out, "\n");
            },
        }
        assert(out@ =~= old(out)@ + row_text(*self, *names));
    }
}

/// The text of the rows `rows`, one line after the other, vendors named by `names`.
pub fn render_rows(rows: &Vec<TreeRow>, names: &VendorNames) -> (r: Vec<u8>)
    ensures
        r@ == rows_text(rows@, *names),
{
    let mut out: Vec<u8> = Vec::new();
    let mut i: usize = 0;
    while i < rows.len()
        invariant
            i <= rows@.len(),
            out@ == rows_text(rows@.take(i as int), *names),
        decreases rows@.len() - i,
    {
        assert(rows@.take(i + 1).drop_last() =~= rows@.take(i as int));
        rows[i].render(names, &mut out);
        i = i + 1;
    }
    assert(rows@.take(i as int) =~= rows@);
    out
}

impl PcieTopology {
    /// The text of the tree that renders this topology, as the kernel log shows it, vendors
    /// named by `names`.
    pub fn render(&self, names: &VendorNames) -> (r: Vec<u8>)
        ensures
            r@ == rows_text(topology_rows(self.segments@), *names),
    {
        let rows = self.tree_rows();
        render_rows(&rows, names)
    }
}

impl PcieBusSegment {
    /// The text of this bus and everything behind it, rendered at `indent`, vendors named by
    /// `names`.
    pub fn render_tree(&self, indent: usize, names: &VendorNames) -> (r: Vec<u8>)
        ensures
            r@ == rows_text(bus_rows(*self, indent), *names),
    {
        let mut rows: Vec<TreeRow> = Vec::new();
        self.fmt_tree(&mut rows, indent);
        assert(rows@ =~= bus_rows(*self, indent));
        render_rows(&rows, names)
    }
}

} // verus!
