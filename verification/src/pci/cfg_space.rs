//! The 4 KiB configuration space of a PCIe function, held as bytes read from the ECAM, and the
//! header overlays at its start.
use vstd::prelude::*;

use crate::byte_order::{le16, le32, read_u16_le, read_u32_le, read_u8};
use crate::pci::capabilities::{
    capabilities_supported, capability_offset, find_capability, PciCapabilityId,
};
use crate::pci::device_class::PciIdentifier;

verus! {

/// The size of the configuration space for legacy PCI and PCI-X local bus devices.
pub const PCI_LOCAL_CFG_SPACE_SIZE: usize = 256;

/// The size of the full PCI Express configuration space.
pub const PCIE_CFG_SPACE_SIZE: usize = 4096;

/// The entire 4 KiB configuration space of a PCIe function.
pub struct PcieCfgSpace {
    bytes: Vec<u8>,
}

impl View for PcieCfgSpace {
    type V = Seq<u8>;

    closed spec fn view(&self) -> Seq<u8> {
        self.bytes@
    }
}

impl PcieCfgSpace {
    #[verifier::type_invariant]
    spec fn full_size(&self) -> bool {
        self.bytes@.len() == PCIE_CFG_SPACE_SIZE
    }

    /// Takes ownership of a snapshot of a function's configuration space.
    pub fn from_bytes(bytes: Vec<u8>) -> (r: Self)
        requires
            bytes@.len() == PCIE_CFG_SPACE_SIZE,
        ensures
            r@ == bytes@,
    {
        PcieCfgSpace { bytes }
    }

    /// The configuration space as bytes.
    pub fn as_bytes(&self) -> (r: &[u8])
        ensures
            r@ == self@,
            r@.len() == PCIE_CFG_SPACE_SIZE,
    {
        proof {
            use_type_invariant(self);
        }
        self.bytes.as_slice()
    }

    /// The common part of the header at the start of the configuration space.
    pub fn common_header(&self) -> (r: CfgCommonHeader)
        ensures
            r == CfgCommonHeader::from_spec(self@),
    {
        CfgCommonHeader::read(self.as_bytes())
    }

    /// The header read as the header of a PCI-to-PCI bridge.
    pub fn bridge_header(&self) -> (r: CfgBridgeHeader)
        ensures
            r == CfgBridgeHeader::from_spec(self@),
    {
        CfgBridgeHeader::read(self.as_bytes())
    }

    /// The header read as the header of an endpoint.
    pub fn endpoint_header(&self) -> (r: CfgEndpointHeader)
        ensures
            r == CfgEndpointHeader::from_spec(self@),
    {
        CfgEndpointHeader::read(self.as_bytes())
    }

    /// Whether a device is present at the slot of this configuration space.
    pub fn has_device_present(&self) -> (r: bool)
        ensures
            r == (le16(self@, 0) != 0xffff),
    {
        self.common_header().is_device_present()
    }

    /// Whether the function is a PCI(e)-to-PCI(e) bridge.
    pub fn device_is_bridge(&self) -> (r: bool)
        ensures
            r == (self@[14] % 2 == 1),
    {
        self.common_header().is_bridge()
    }

    /// Whether the device implements several functions, by the multifunction bit of the header
    /// type of function 0.
    pub fn device_is_multifunction(&self) -> (r: bool)
        ensures
            r == (self@[14] >= 0x80),
    {
        self.common_header().is_multi_function()
    }
}

/// The part of the configuration space header shared by endpoints and bridges.
#[derive(Debug, Clone, Copy, PartialEq, Eq)]
pub struct CfgCommonHeader {
    pub vendor_id: u16,
    pub device_id: u16,
    pub command: u16,
    pub status: u16,
    pub revision_id: u8,
    pub prog_if: u8,
    pub subclass: u8,
    pub class_code: u8,
    pub cache_line_size: u8,
    pub latency_timer: u8,
    pub header_type: u8,
    pub bist: u8,
}

/// The status register bit that tells whether the capability list is implemented.
pub const CAPABILITIES_SUPPORT_STATUS_BIT: u16 = 0x10;

/// Header type bit that marks a bridge header layout.
pub const HEADER_TYPE_MASK: u8 = 0x01;

/// Header type bit that marks a multifunction device.
pub const HEADER_TYPE_SINGLE_FUNC_MASK: u8 = 0x80;

/// Vendor ID read from a slot with no device.
pub const VENDOR_ID_NOT_PRESENT: u16 = 0xffff;

impl CfgCommonHeader {
    /// The common header laid out in the first 16 bytes of `s`.
    pub open spec fn from_spec(s: Seq<u8>) -> CfgCommonHeader {
        CfgCommonHeader {
            vendor_id: le16(s, 0) as u16,
            device_id: le16(s, 2) as u16,
            command: le16(s, 4) as u16,
            status: le16(s, 6) as u16,
            revision_id: s[8],
            prog_if: s[9],
            subclass: s[10],
            class_code: s[11],
            cache_line_size: s[12],
            latency_timer: s[13],
            header_type: s[14],
            bist: s[15],
        }
    }

    /// Reads the common header from the first 16 bytes of `s`.
    pub fn read(s: &[u8]) -> (r: Self)
        requires
            s@.len() >= 16,
        ensures
            r == Self::from_spec(s@),
    {
        CfgCommonHeader {
            vendor_id: read_u16_le(s, 0),
            device_id: read_u16_le(s, 2),
            command: read_u16_le(s, 4),
            status: read_u16_le(s, 6),
            revision_id: read_u8(s, 8),
            prog_if: read_u8(s, 9),
            subclass: read_u8(s, 10),
            class_code: read_u8(s, 11),
            cache_line_size: read_u8(s, 12),
            latency_timer: read_u8(s, 13),
            header_type: read_u8(s, 14),
            bist: read_u8(s, 15),
        }
    }

    pub fn is_device_present(&self) -> (r: bool)
        ensures
            r == (self.vendor_id != VENDOR_ID_NOT_PRESENT),
    {
        self.vendor_id != VENDOR_ID_NOT_PRESENT
    }

    pub fn is_bridge(&self) -> (r: bool)
        ensures
            r == (self.header_type % 2 == 1),
    {
        let ht = self.header_type;
        let r = ht & HEADER_TYPE_MASK == 1;
        assert(r == (ht % 2 == 1)) by (bit_vector)
            requires
                r == (ht & 1u8 == 1u8),
        ;
        r
    }

    pub fn is_multi_function(&self) -> (r: bool)
        ensures
            r == (self.header_type >= 0x80),
    {
        let ht = self.header_type;
        let r = ht & HEADER_TYPE_SINGLE_FUNC_MASK != 0;
        assert(r == (ht >= 0x80)) by (bit_vector)
            requires
                r == (ht & 0x80u8 != 0u8),
        ;
        r
    }

    pub fn get_identifier(&self) -> (r: PciIdentifier)
        ensures
            r == (PciIdentifier {
                vendor_id: self.vendor_id,
                device_id: self.device_id,
                class_code: self.class_code,
                subclass: self.subclass,
                prog_if: self.prog_if,
            }),
    {
        PciIdentifier {
            vendor_id: self.vendor_id,
            device_id: self.device_id,
            class_code: self.class_code,
            subclass: self.subclass,
            prog_if: self.prog_if,
        }
    }

    /// Whether the function implements a capability list (bit 4 of the status register).
    pub fn are_capabilities_supported(&self) -> (r: bool)
        ensures
            r == ((self.status / 16) % 2 == 1),
    {
        let status = self.status;
        let r = status & CAPABILITIES_SUPPORT_STATUS_BIT != 0;
        assert(r == ((status / 16) % 2 == 1)) by (bit_vector)
            requires
                r == (status & 0x10u16 != 0u16),
        ;
        r
    }
}

/// The configuration space header of a PCI-to-PCI bridge (header type 1).
#[derive(Debug, Clone, Copy, PartialEq, Eq)]
pub struct CfgBridgeHeader {
    pub common: CfgCommonHeader,
    pub bars: [u32; 2],
    pub primary_bus_num: u8,
    pub secondary_bus_num: u8,
    pub subordinate_bus_num: u8,
    pub secondary_latency_timer: u8,
    pub io_base: u8,
    pub io_limit: u8,
    pub secondary_status: u16,
    pub memory_base: u16,
    pub memory_limit: u16,
    pub prefetchable_memory_base: u16,
    pub prefetchable_memory_limit: u16,
    pub prefetchable_base_upper32: u32,
    pub prefetchable_limit_upper32: u32,
    pub io_base_upper16: u16,
    pub io_limit_upper16: u16,
    pub capabilities_offset: u8,
    pub interrupt_line: u8,
    pub interrupt_pin: u8,
    pub bridge_control: u16,
}

impl CfgBridgeHeader {
    /// The bridge header laid out in the first 64 bytes of `s`.
    pub open spec fn from_spec(s: Seq<u8>) -> CfgBridgeHeader {
        CfgBridgeHeader {
            common: CfgCommonHeader::from_spec(s),
            bars: [le32(s, 16) as u32, le32(s, 20) as u32],
            primary_bus_num: s[24],
            secondary_bus_num: s[25],
            subordinate_bus_num: s[26],
            secondary_latency_timer: s[27],
            io_base: s[28],
            io_limit: s[29],
            secondary_status: le16(s, 30) as u16,
            memory_base: le16(s, 32) as u16,
            memory_limit: le16(s, 34) as u16,
            prefetchable_memory_base: le16(s, 36) as u16,
            prefetchable_memory_limit: le16(s, 38) as u16,
            prefetchable_base_upper32: le32(s, 40) as u32,
            prefetchable_limit_upper32: le32(s, 44) as u32,
            io_base_upper16: le16(s, 48) as u16,
            io_limit_upper16: le16(s, 50) as u16,
            capabilities_offset: s[52],
            interrupt_line: s[60],
            interrupt_pin: s[61],
            bridge_control: le16(s, 62) as u16,
        }
    }

    /// Reads a bridge header from the first 64 bytes of `s`.
    pub fn read(s: &[u8]) -> (r: Self)
        requires
            s@.len() >= 64,
        ensures
            r == Self::from_spec(s@),
    {
        let r = CfgBridgeHeader {
            common: CfgCommonHeader::read(s),
            bars: [read_u32_le(s, 16), read_u32_le(s, 20)],
            primary_bus_num: read_u8(s, 24),
            secondary_bus_num: read_u8(s, 25),
            subordinate_bus_num: read_u8(s, 26),
            secondary_latency_timer: read_u8(s, 27),
            io_base: read_u8(s, 28),
            io_limit: read_u8(s, 29),
            secondary_status: read_u16_le(s, 30),
            memory_base: read_u16_le(s, 32),
            memory_limit: read_u16_le(s, 34),
            prefetchable_memory_base: read_u16_le(s, 36),
            prefetchable_memory_limit: read_u16_le(s, 38),
            prefetchable_base_upper32: read_u32_le(s, 40),
            prefetchable_limit_upper32: read_u32_le(s, 44),
            io_base_upper16: read_u16_le(s, 48),
            io_limit_upper16: read_u16_le(s, 50),
            capabilities_offset: read_u8(s, 52),
            interrupt_line: read_u8(s, 60),
            interrupt_pin: read_u8(s, 61),
            bridge_control: read_u16_le(s, 62),
        };
        assert(r.bars@ =~= Self::from_spec(s@).bars@);
        r
    }

    /// Whether the bus behind the bridge is PCI Express, by the presence of the PCI Express
    /// capability in the capability list of the bridge's configuration space `cfg_space`.
    pub fn is_secondary_bus_pcie(&self, cfg_space: &PcieCfgSpace) -> (r: bool)
        requires
            *self == CfgBridgeHeader::from_spec(cfg_space@),
        ensures
            r == (capabilities_supported(cfg_space@)
                && capability_offset(cfg_space@, PciCapabilityId::PciExpress.raw_value()) is Some),
    {
        find_capability(cfg_space, PciCapabilityId::PciExpress).is_ok()
    }

    pub fn get_secondary_bus_num(&self) -> (r: u8)
        ensures
            r == self.secondary_bus_num,
    {
        self.secondary_bus_num
    }

    /// The offset of the first capability, where the function implements a capability list.
    pub fn get_capabilities_offset(&self) -> (r: Option<u8>)
        ensures
            r == (if (self.common.status / 16) % 2 == 1 {
                Some(self.capabilities_offset)
            } else {
                None
            }),
    {
        if self.common.are_capabilities_supported() {
            Some(self.capabilities_offset)
        } else {
            None
        }
    }
}

/// The configuration space header of an endpoint (header type 0).
#[derive(Debug, Clone, Copy, PartialEq, Eq)]
pub struct CfgEndpointHeader {
    pub common: CfgCommonHeader,
    pub bars: [u32; 6],
    pub cardbus_cis_ptr: u32,
    pub subsystem_vendor_id: u16,
    pub subsystem_id: u16,
    pub expansion_rom_base_addr: u32,
    pub capabilities_offset: u8,
    pub interrupt_line: u8,
    pub interrupt_pin: u8,
    pub min_grant: u8,
    pub max_latency: u8,
}

impl CfgEndpointHeader {
    /// The endpoint header laid out in the first 64 bytes of `s`.
    pub open spec fn from_spec(s: Seq<u8>) -> CfgEndpointHeader {
        CfgEndpointHeader {
            common: CfgCommonHeader::from_spec(s),
            bars: [
                le32(s, 16) as u32,
                le32(s, 20) as u32,
                le32(s, 24) as u32,
                le32(s, 28) as u32,
                le32(s, 32) as u32,
                le32(s, 36) as u32,
            ],
            cardbus_cis_ptr: le32(s, 40) as u32,
            subsystem_vendor_id: le16(s, 44) as u16,
            subsystem_id: le16(s, 46) as u16,
            expansion_rom_base_addr: le32(s, 48) as u32,
            capabilities_offset: s[52],
            interrupt_line: s[60],
            interrupt_pin: s[61],
            min_grant: s[62],
            max_latency: s[63],
        }
    }

    /// Reads an endpoint header from the first 64 bytes of `s`.
    pub fn read(s: &[u8]) -> (r: Self)
        requires
            s@.len() >= 64,
        ensures
            r == Self::from_spec(s@),
    {
        let r = CfgEndpointHeader {
            common: CfgCommonHeader::read(s),
            bars: [
                read_u32_le(s, 16),
                read_u32_le(s, 20),
                read_u32_le(s, 24),
                read_u32_le(s, 28),
                read_u32_le(s, 32),
                read_u32_le(s, 36),
            ],
            cardbus_cis_ptr: read_u32_le(s, 40),
            subsystem_vendor_id: read_u16_le(s, 44),
            subsystem_id: read_u16_le(s, 46),
            expansion_rom_base_addr: read_u32_le(s, 48),
            capabilities_offset: read_u8(s, 52),
            interrupt_line: read_u8(s, 60),
            interrupt_pin: read_u8(s, 61),
            min_grant: read_u8(s, 62),
            max_latency: read_u8(s, 63),
        };
        assert(r.bars@ =~= Self::from_spec(s@).bars@);
        r
    }

    /// The offset of the first capability, where the function implements a capability list.
    pub fn get_capabilities_offset(&self) -> (r: Option<u8>)
        ensures
            r == (if (self.common.status / 16) % 2 == 1 {
                Some(self.capabilities_offset)
            } else {
                None
            }),
    {
        if self.common.are_capabilities_supported() {
            Some(self.capabilities_offset)
        } else {
            None
        }
    }
}

} // verus!
