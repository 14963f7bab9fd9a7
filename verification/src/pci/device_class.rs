//! PCI device identification: vendor IDs and the class, subclass and programming interface
//! triples that select a device interface. The IDs and codes follow `https://pci-ids.ucw.cz/`.
use vstd::prelude::*;
use vstd::string::StringSliceAdditionalSpecFns;

use crate::byte_order::le16;

verus! {

/// The fields of the configuration space header that identify a PCI function and select the
/// driver that operates it.
#[derive(Debug, Clone, Copy, PartialEq, Eq, Hash)]
pub struct PciIdentifier {
    pub vendor_id: u16,
    pub device_id: u16,
    pub class_code: u8,
    pub subclass: u8,
    pub prog_if: u8,
}

impl PciIdentifier {
    /// The identifier held in the header at the start of the configuration space `s`.
    pub open spec fn from_cfg(s: Seq<u8>) -> PciIdentifier {
        PciIdentifier {
            vendor_id: le16(s, 0) as u16,
            device_id: le16(s, 2) as u16,
            class_code: s[11],
            subclass: s[10],
            prog_if: s[9],
        }
    }

    /// The (class code, subclass, programming interface) triple of the function.
    pub open spec fn class_triple(self) -> (u8, u8, u8) {
        (self.class_code, self.subclass, self.prog_if)
    }
}

pub const VENDOR_AMD: u16 = 0x1002;
pub const VENDOR_INTEL: u16 = 0x8086;
pub const VENDOR_NVIDIA: u16 = 0x10de;
pub const VENDOR_ARM: u16 = 0x13b5;
pub const VENDOR_REDHAT_VIRTIO: u16 = 0x1af4;
pub const VENDOR_REDHAT: u16 = 0x1b36;

/// Device class triples: (class code, subclass, programming interface).
pub open spec fn vga_compatible() -> (u8, u8, u8) { (0x03, 0x00, 0x00) }
pub open spec fn other_display_controller() -> (u8, u8, u8) { (0x03, 0x80, 0x00) }
pub open spec fn iommu() -> (u8, u8, u8) { (0x08, 0x06, 0x00) }
pub open spec fn ahci_sata_controller() -> (u8, u8, u8) { (0x01, 0x06, 0x01) }
pub open spec fn scsi_sas_controller() -> (u8, u8, u8) { (0x01, 0x07, 0x00) }
pub open spec fn nvme_controller() -> (u8, u8, u8) { (0x01, 0x08, 0x02) }
pub open spec fn host_bridge() -> (u8, u8, u8) { (0x06, 0x00, 0x00) }
pub open spec fn pci_to_pci_bridge() -> (u8, u8, u8) { (0x06, 0x04, 0x00) }
pub open spec fn pci_to_pci_bridge_sub_dec() -> (u8, u8, u8) { (0x06, 0x04, 0x01) }
pub open spec fn pci_to_isa_bridge() -> (u8, u8, u8) { (0x06, 0x01, 0x00) }
pub open spec fn ioapic() -> (u8, u8, u8) { (0x08, 0x00, 0x10) }
pub open spec fn ioxapic() -> (u8, u8, u8) { (0x08, 0x00, 0x20) }
pub open spec fn hpet() -> (u8, u8, u8) { (0x08, 0x02, 0x03) }
pub open spec fn sd_host_controller() -> (u8, u8, u8) { (0x08, 0x05, 0x00) }
pub open spec fn usb_ehci() -> (u8, u8, u8) { (0x0c, 0x03, 0x20) }
pub open spec fn usb_xhci() -> (u8, u8, u8) { (0x0c, 0x03, 0x30) }
pub open spec fn usb4_router() -> (u8, u8, u8) { (0x0c, 0x03, 0x40) }
pub open spec fn smbus_controller() -> (u8, u8, u8) { (0x0c, 0x05, 0x00) }
pub open spec fn ipmi_kcs() -> (u8, u8, u8) { (0x0c, 0x07, 0x01) }

/// Serial controller subclasses: 16x50 compatible single and multi-port UARTs.
pub const SUBCLASS_SERIAL: u8 = 0x00;
pub const SUBCLASS_MULTIPORT_SERIAL: u8 = 0x01;

/// Programming interfaces of the 16550, 16650, 16750, 16850 and 16950 compatible UARTs.
pub const PROG_IF_NS16550: u8 = 0x02;
pub const PROG_IF_NS16650: u8 = 0x03;
pub const PROG_IF_NS16750: u8 = 0x04;
pub const PROG_IF_NS16850: u8 = 0x05;
pub const PROG_IF_NS16950: u8 = 0x06;

pub const CLASS_SERIAL_CONTROLLER: u8 = 0x07;


/// The name of vendor `id` by the table `known` of known vendors, the first entry for an ID
/// winning, and `unknown` for any other vendor.
pub open spec fn vendor_name_from(known: Seq<(u16, &'static str)>, unknown: &'static str, id: u16) -> Seq<u8>
    decreases known.len(),
{
    if known.len() == 0 {
        unknown.spec_bytes()
    } else if known[0].0 == id {
        known[0].1.spec_bytes()
    } else {
        vendor_name_from(known.drop_first(), unknown, id)
    }
}

/// The human readable names of PCI vendors: the name of each known vendor ID, and the name shown
/// for any other vendor.
pub struct VendorNames {
    pub known: Vec<(u16, &'static str)>,
    pub unknown: &'static str,
}

impl VendorNames {
    /// The name shown for vendor `id`.
    pub open spec fn name_of(&self, id: u16) -> Seq<u8> {
        vendor_name_from(self.known@, self.unknown, id)
    }

    pub fn new(known: Vec<(u16, &'static str)>, unknown: &'static str) -> (r: Self)
        ensures
            r.known@ == known@,
            r.unknown == unknown,
    {
        VendorNames { known, unknown }
    }

    /// The name shown for vendor `id`.
    pub fn name(&self, id: u16) -> (r: &'static str)
        ensures
            r.spec_bytes() == self.name_of(id),
    {
        let mut i: usize = 0;
        assert(self.known@.skip(0) =~= self.known@);
        while i < self.known.len()
            invariant
                i <= self.known@.len(),
                self.name_of(id) == vendor_name_from(self.known@.skip(i as int), self.unknown, id),
            decreases self.known@.len() - i,
        {
            let ghost rest = self.known@.skip(i as int);
            assert(rest[0] == self.known@[i as int]);
            assert(rest.drop_first() =~= self.known@.skip(i + 1));
            let (vendor, name) = self.known[i];
            if vendor == id {
                return name;
            }
            i = i + 1;
        }
        assert(self.known@.skip(i as int) =~= Seq::<(u16, &'static str)>::empty());
        self.unknown
    }
}

} // verus!
