use catten::hw_interface::HwDeviceIfce;
use catten::pci::capabilities::{
    find_capability, find_extended_capabilities, PciCapabilityHeader, PciCapabilityId,
    PcieExtCapId, PcieExtCapVerOffset, PcieExtCapabilityHeader,
};
use catten::pci::cfg_space::PcieCfgSpace;
use catten::pci::device_class::{PciIdentifier, VendorNames};
use catten::pci::topology::{
    DeviceSlotKind, FunctionKind, PcieBusSegment, PcieDevice, PcieDeviceNum, PcieEndpoint,
    PcieFunction, PcieFunctionNum, PcieLocation, PcieMultiFuncDevice, PcieSegmentGroup,
    PcieSingleFuncDevice, PcieTopology,
};
use catten::pci::tree::TreeRow;
use catten::pci::Error;

fn blank() -> Vec<u8> {
    vec![0u8; 4096]
}

fn header(bytes: &mut [u8], vendor: u16, device: u16, class: (u8, u8, u8), header_type: u8) {
    bytes[0..2].copy_from_slice(&vendor.to_le_bytes());
    bytes[2..4].copy_from_slice(&device.to_le_bytes());
    bytes[9] = class.2;
    bytes[10] = class.1;
    bytes[11] = class.0;
    bytes[14] = header_type;
}

fn with_capabilities(bytes: &mut [u8], list: &[(u8, u8, u8)]) {
    bytes[6] |= 0x10;
    bytes[0x34] = list[0].0;
    for &(offset, id, next) in list {
        bytes[offset as usize] = id;
        bytes[offset as usize + 1] = next;
    }
}

fn ext_cap(bytes: &mut [u8], offset: usize, id: u16, version: u16, next: u16) {
    bytes[offset..offset + 2].copy_from_slice(&id.to_le_bytes());
    bytes[offset + 2..offset + 4].copy_from_slice(&((next << 4) | version).to_le_bytes());
}

#[test]
fn header_fields_and_presence() {
    let mut bytes = blank();
    header(&mut bytes, 0x8086, 0x29c0, (0x06, 0x00, 0x00), 0x80);
    let cfg = PcieCfgSpace::from_bytes(bytes);
    assert!(cfg.has_device_present());
    assert!(cfg.device_is_multifunction());
    assert!(!cfg.device_is_bridge());
    let common = cfg.common_header();
    assert_eq!(common.vendor_id, 0x8086);
    assert_eq!(common.device_id, 0x29c0);
    assert_eq!(
        common.get_identifier(),
        PciIdentifier { vendor_id: 0x8086, device_id: 0x29c0, class_code: 0x06, subclass: 0x00, prog_if: 0x00 }
    );
    assert!(!common.are_capabilities_supported());
    let empty = PcieCfgSpace::from_bytes(vec![0xffu8; 4096]);
    assert!(!empty.has_device_present());
}

#[test]
fn capability_walk_finds_by_id() {
    let mut bytes = blank();
    header(&mut bytes, 0x1b36, 0x000c, (0x06, 0x04, 0x00), 0x01);
    with_capabilities(&mut bytes, &[(0x40, 0x05, 0x50), (0x50, 0x10, 0x60), (0x60, 0x11, 0x00)]);
    let cfg = PcieCfgSpace::from_bytes(bytes);
    assert_eq!(find_capability(&cfg, PciCapabilityId::PciExpress), Ok(0x50));
    assert_eq!(find_capability(&cfg, PciCapabilityId::MessageSignaledInterruptsExtended), Ok(0x60));
    assert_eq!(find_capability(&cfg, PciCapabilityId::PowerManagement), Err(Error::PciCapabilityNotFound));
    assert_eq!(PciCapabilityHeader::read(&cfg, 0x40), PciCapabilityHeader { id: 0x05, next: 0x50 });
    assert!(cfg.bridge_header().is_secondary_bus_pcie(&cfg));
}

#[test]
fn capability_walk_stops_on_a_cycle() {
    let mut bytes = blank();
    header(&mut bytes, 0x8086, 0x1234, (0x02, 0x00, 0x00), 0x00);
    with_capabilities(&mut bytes, &[(0x40, 0x05, 0x50), (0x50, 0x01, 0x40)]);
    let cfg = PcieCfgSpace::from_bytes(bytes);
    assert_eq!(find_capability(&cfg, PciCapabilityId::PciExpress), Err(Error::PciCapabilityNotFound));
    assert!(find_extended_capabilities(&cfg, PcieExtCapId::AdvancedErrorReporting).is_empty());
}

#[test]
fn capabilities_not_supported() {
    let mut bytes = blank();
    header(&mut bytes, 0x8086, 0x1234, (0x02, 0x00, 0x00), 0x00);
    bytes[0x34] = 0x40;
    let cfg = PcieCfgSpace::from_bytes(bytes);
    assert_eq!(find_capability(&cfg, PciCapabilityId::PciExpress), Err(Error::PciCapabilitiesNotSupported));
}

#[test]
fn extended_capabilities_in_list_order() {
    let mut bytes = blank();
    header(&mut bytes, 0x8086, 0x1234, (0x01, 0x08, 0x02), 0x00);
    with_capabilities(&mut bytes, &[(0x40, 0x10, 0x00)]);
    ext_cap(&mut bytes, 0x100, 0x0001, 2, 0x148);
    ext_cap(&mut bytes, 0x148, 0x000d, 1, 0x200);
    ext_cap(&mut bytes, 0x200, 0x0001, 1, 0x000);
    let cfg = PcieCfgSpace::from_bytes(bytes);
    assert_eq!(find_extended_capabilities(&cfg, PcieExtCapId::AdvancedErrorReporting), vec![0x100, 0x200]);
    assert_eq!(find_extended_capabilities(&cfg, PcieExtCapId::AccessControlServices), vec![0x148]);
    assert!(find_extended_capabilities(&cfg, PcieExtCapId::SingleRootIoVirtualization).is_empty());
    let header = PcieExtCapabilityHeader::read(&cfg, 0x100);
    assert_eq!(header.id, 0x0001);
    assert_eq!(header.next_ver.get_offset(), 0x148);
    assert_eq!(header.next_ver.get_version(), 2);
}

#[test]
fn extended_capability_cycle_ends() {
    let mut bytes = blank();
    header(&mut bytes, 0x8086, 0x1234, (0x01, 0x08, 0x02), 0x00);
    with_capabilities(&mut bytes, &[(0x40, 0x10, 0x00)]);
    ext_cap(&mut bytes, 0x100, 0x0001, 1, 0x180);
    ext_cap(&mut bytes, 0x180, 0x0001, 1, 0x100);
    let cfg = PcieCfgSpace::from_bytes(bytes);
    assert_eq!(find_extended_capabilities(&cfg, PcieExtCapId::AdvancedErrorReporting), vec![0x100, 0x180]);
}

#[test]
fn ext_cap_version_and_offset() {
    let v = PcieExtCapVerOffset::new(0x1482);
    assert_eq!(v.raw(), 0x1482);
    assert_eq!(v.get_version(), 2);
    assert_eq!(v.get_offset(), 0x148);
    assert_eq!(PcieExtCapId::ResizeableBaseAddressRegisters.raw(), 0x0011);
    assert_eq!(PciCapabilityId::MessageSignaledInterrupts.raw(), 0x05);
}

#[test]
fn classification() {
    let mut bytes = blank();
    header(&mut bytes, 0x1b36, 0x000c, (0x06, 0x04, 0x00), 0x01);
    bytes[25] = 3;
    let bridge = PcieCfgSpace::from_bytes(bytes);
    assert_eq!(PcieFunction::classify(&bridge), FunctionKind::Bridge(3));
    assert_eq!(bridge.bridge_header().get_secondary_bus_num(), 3);
    let mut bytes = blank();
    header(&mut bytes, 0x8086, 0x10d3, (0x02, 0x00, 0x00), 0x00);
    let endpoint = PcieCfgSpace::from_bytes(bytes);
    assert_eq!(PcieFunction::classify(&endpoint), FunctionKind::Endpoint);
    assert_eq!(PcieDevice::classify(&endpoint), DeviceSlotKind::SingleFunc);
    let empty = PcieCfgSpace::from_bytes(vec![0xffu8; 4096]);
    assert_eq!(PcieFunction::classify(&empty), FunctionKind::Empty);
    assert_eq!(PcieDevice::classify(&empty), DeviceSlotKind::Empty);
}

#[test]
fn device_and_function_numbers() {
    assert!(PcieDeviceNum::try_new(31).is_some());
    assert!(PcieDeviceNum::try_new(32).is_none());
    assert!(PcieFunctionNum::try_new(7).is_some());
    assert!(PcieFunctionNum::try_new(8).is_none());
    assert_eq!(PcieDeviceNum::try_new(5).unwrap().get_inner(), 5);
}

#[test]
fn ecam_offsets() {
    let loc = PcieLocation::new(0, 1, PcieDeviceNum::try_new(2).unwrap(), PcieFunctionNum::try_new(3).unwrap());
    assert_eq!(loc.get_ecam_offset(), 0x10_0000 + 0x1_0000 + 0x3000);
    let last = PcieLocation::new(0, 255, PcieDeviceNum::try_new(31).unwrap(), PcieFunctionNum::try_new(7).unwrap());
    assert_eq!(last.get_ecam_offset(), 0x0fff_f000);
}

#[test]
fn topology_lookup() {
    let mut bytes = blank();
    header(&mut bytes, 0x8086, 0x10d3, (0x02, 0x00, 0x00), 0x00);
    let cfg = PcieCfgSpace::from_bytes(bytes);
    let endpoint = PcieEndpoint::new(PcieFunctionNum::try_new(0).unwrap(), &cfg, 0xffff_8000_0000_8000);
    assert_eq!(endpoint.identifier.device_id, 0x10d3);
    let bus = PcieBusSegment::new(0, empty_slots());
    let group = PcieSegmentGroup::new(0, 0xffff_8000_0000_0000, 0, 0x3f, bus);
    let topology = PcieTopology::new(vec![group]);
    let d = PcieDeviceNum::try_new(1).unwrap();
    let f = PcieFunctionNum::try_new(0).unwrap();
    assert_eq!(topology.get_cfg_space_vaddr(0, 0, d, f), Ok(0xffff_8000_0000_8000));
    assert_eq!(topology.get_cfg_space_vaddr(0, 0x40, d, f), Err(Error::InvalidLocation));
    assert_eq!(topology.get_cfg_space_vaddr(1, 0, d, f), Err(Error::InvalidLocation));
}

#[test]
fn device_interfaces_from_class() {
    let id = |vendor: u16, c: u8, s: u8, p: u8| PciIdentifier { vendor_id: vendor, device_id: 0, class_code: c, subclass: s, prog_if: p };
    assert_eq!(HwDeviceIfce::of_pci_function(id(0x8086, 0x03, 0x00, 0x00)), HwDeviceIfce::IntelGpu);
    assert_eq!(HwDeviceIfce::of_pci_function(id(0x1002, 0x03, 0x00, 0x00)), HwDeviceIfce::AmdGpu);
    assert_eq!(HwDeviceIfce::of_pci_function(id(0x1b36, 0x03, 0x00, 0x00)), HwDeviceIfce::Unknown);
    assert_eq!(HwDeviceIfce::of_pci_function(id(0x1b36, 0x01, 0x08, 0x02)), HwDeviceIfce::NvmExpressController);
    assert_eq!(HwDeviceIfce::of_pci_function(id(0x8086, 0x06, 0x00, 0x00)), HwDeviceIfce::PcieHostBridge);
    assert_eq!(HwDeviceIfce::of_pci_function(id(0x8086, 0x07, 0x00, 0x02)), HwDeviceIfce::Ns16550Uart);
    assert_eq!(HwDeviceIfce::of_pci_function(id(0x8086, 0x07, 0x01, 0x06)), HwDeviceIfce::Ns16950MultiPortUart);
    assert_eq!(HwDeviceIfce::of_pci_function(id(0x8086, 0x0c, 0x03, 0x30)), HwDeviceIfce::XhciUsbHostController);
    assert_eq!(HwDeviceIfce::from(id(0x8086, 0x08, 0x00, 0x20)), HwDeviceIfce::IoApic);
}

#[test]
fn device_interface_names() {
    assert_eq!(HwDeviceIfce::PcieHostBridge.name(), "PCI Express Host Bridge");
    assert_eq!(HwDeviceIfce::Ns16550Uart.name(), "NS16550A compatible UART");
    assert_eq!(HwDeviceIfce::Unknown.name(), "Unrecognized Device Interface");
    assert_eq!(HwDeviceIfce::NvmExpressController.name(), "Non-Volatile Memory Express (NVMe) Controller");
}

fn empty_slots() -> Vec<PcieDevice> {
    (0..32).map(|_| PcieDevice::Empty).collect()
}

fn endpoint(function: u8, vendor: u16, device: u16, class: (u8, u8, u8), vaddr: u64) -> PcieFunction {
    let mut bytes = blank();
    header(&mut bytes, vendor, device, class, 0x00);
    let cfg = PcieCfgSpace::from_bytes(bytes);
    PcieFunction::Endpoint(Box::new(PcieEndpoint::new(PcieFunctionNum::try_new(function).unwrap(), &cfg, vaddr)))
}

#[test]
fn topology_tree_without_segment_groups() {
    let topology = PcieTopology::new(vec![]);
    assert_eq!(topology.tree_rows(), vec![TreeRow::NoSegmentGroups]);
}

#[test]
fn topology_tree_rows() {
    // Bus 1 behind a bridge holds a multi-function device with functions 0 and 2.
    let mut functions: Vec<PcieFunction> = (0..8).map(|_| PcieFunction::Empty).collect();
    functions[0] = endpoint(0, 0x8086, 0x1521, (0x02, 0x00, 0x00), 0x10_0000);
    functions[2] = endpoint(2, 0x8086, 0x1522, (0x02, 0x00, 0x00), 0x10_2000);
    let mut bus1_slots = empty_slots();
    bus1_slots[4] = PcieDevice::MultiFunc(PcieMultiFuncDevice::new(PcieDeviceNum::try_new(4).unwrap(), functions));
    let bus1 = PcieBusSegment::new(1, bus1_slots);
    // Bus 2 behind a second bridge is empty.
    let bus2 = PcieBusSegment::new(2, empty_slots());
    let mut root_slots = empty_slots();
    root_slots[0] = PcieDevice::SingleFunc(PcieSingleFuncDevice::new(
        PcieDeviceNum::try_new(0).unwrap(),
        endpoint(0, 0x8086, 0x29c0, (0x06, 0x00, 0x00), 0x8000),
    ));
    root_slots[1] = PcieDevice::SingleFunc(PcieSingleFuncDevice::new(
        PcieDeviceNum::try_new(1).unwrap(),
        PcieFunction::Bridge(Box::new(bus1)),
    ));
    root_slots[2] = PcieDevice::SingleFunc(PcieSingleFuncDevice::new(
        PcieDeviceNum::try_new(2).unwrap(),
        PcieFunction::Bridge(Box::new(bus2)),
    ));
    let root = PcieBusSegment::new(0, root_slots);
    let group = PcieSegmentGroup::new(0, 0xb000_0000, 0, 0xff, root);
    let rows = PcieTopology::new(vec![group]).tree_rows();
    let id = |device_id: u16, class: u8| PciIdentifier {
        vendor_id: 0x8086,
        device_id,
        class_code: class,
        subclass: 0,
        prog_if: 0,
    };
    let expected = vec![
        TreeRow::SegmentGroup { indent: 2, segment_group: 0, ecam_vaddr: 0xb000_0000, start_bus: 0, end_bus: 0xff },
        TreeRow::Bus { indent: 4, number: 0 },
        TreeRow::ColumnHeader { indent: 6 },
        TreeRow::Endpoint { indent: 6, bus: 0, device: 0, function: 0, identifier: id(0x29c0, 0x06) },
        TreeRow::Bridge { indent: 6, bus: 0, device: 1, function: 0, secondary_bus: 1 },
        TreeRow::Bus { indent: 8, number: 1 },
        TreeRow::ColumnHeader { indent: 10 },
        TreeRow::Endpoint { indent: 10, bus: 1, device: 4, function: 0, identifier: id(0x1521, 0x02) },
        TreeRow::Endpoint { indent: 10, bus: 1, device: 4, function: 2, identifier: id(0x1522, 0x02) },
        TreeRow::Bridge { indent: 6, bus: 0, device: 2, function: 0, secondary_bus: 2 },
        TreeRow::Bus { indent: 8, number: 2 },
    ];
    assert_eq!(rows, expected);
}

#[test]
fn capability_list_ends_at_a_next_pointer_of_zero() {
    let mut bytes = blank();
    header(&mut bytes, 0x1110, 0x1234, (0x06, 0x04, 0x00), 0x01);
    with_capabilities(&mut bytes, &[(0x40, 0x01, 0x00)]);
    let cfg = PcieCfgSpace::from_bytes(bytes);
    assert_eq!(find_capability(&cfg, PciCapabilityId::PciExpress), Err(Error::PciCapabilityNotFound));
    assert_eq!(find_capability(&cfg, PciCapabilityId::PowerManagement), Ok(0x40));
    assert!(!cfg.bridge_header().is_secondary_bus_pcie(&cfg));
}

fn text(bytes: Vec<u8>) -> String {
    String::from_utf8(bytes).unwrap()
}

fn vendors() -> VendorNames {
    VendorNames::new(vec![(0x1002, "AMD"), (0x8086, "Intel Corporation")], "Unknown Vendor")
}

#[test]
fn empty_bus_text() {
    let bus = PcieBusSegment::new(0, empty_slots());
    assert_eq!(text(bus.render_tree(2, &vendors())), "  Bus 0x00\n");
}

#[test]
fn bus_with_a_bridge_text() {
    let mut slots = empty_slots();
    slots[3] = PcieDevice::SingleFunc(PcieSingleFuncDevice::new(
        PcieDeviceNum::try_new(3).unwrap(),
        PcieFunction::Bridge(Box::new(PcieBusSegment::new(1, empty_slots()))),
    ));
    let bus = PcieBusSegment::new(0, slots);
    assert_eq!(
        text(bus.render_tree(0, &vendors())),
        "Bus 0x00\n  B:D.F    VID:DID    Class (cc:sc:pi)\n  00:03.0  PCI-to-PCI bridge -> bus 0x01\n    Bus 0x01\n"
    );
}

#[test]
fn topology_text() {
    assert_eq!(text(PcieTopology::new(vec![]).render(&vendors())), "  (no PCIe segment groups)");
    let mut slots = empty_slots();
    slots[0x1f] = PcieDevice::SingleFunc(PcieSingleFuncDevice::new(
        PcieDeviceNum::try_new(0x1f).unwrap(),
        endpoint(0, 0x8086, 0x2918, (0x06, 0x01, 0x00), 0xb00f_8000),
    ));
    let group = PcieSegmentGroup::new(12, 0xb000_0000, 0, 0xff, PcieBusSegment::new(0, slots));
    let expected = format!(
        "  Segment Group 12 (ECAM @ {:#018x}, buses 0x00-0xff)\n    Bus 0x00\n      B:D.F    VID:DID    Class (cc:sc:pi)\n      00:1f.0  | Intel Corporation[0x8086]:0x2918 | PCI to Legacy ISA Bus Bridge[class 0x06, subclass 0x01, prog IF 0x00] |\n",
        0xb000_0000u64
    );
    assert_eq!(text(PcieTopology::new(vec![group]).render(&vendors())), expected);
}

#[test]
fn device_interface_names_are_distinct_single_lines() {
    let all = [
        HwDeviceIfce::Unknown, HwDeviceIfce::Unsupported, HwDeviceIfce::Ns16550Uart, HwDeviceIfce::Ns16650Uart,
        HwDeviceIfce::Ns16750Uart, HwDeviceIfce::Ns16850Uart, HwDeviceIfce::Ns16950Uart,
        HwDeviceIfce::Ns16550MultiPortUart, HwDeviceIfce::Ns16650MultiPortUart, HwDeviceIfce::Ns16750MultiPortUart,
        HwDeviceIfce::Ns16850MultiPortUart, HwDeviceIfce::Ns16950MultiPortUart, HwDeviceIfce::I2CHostController,
        HwDeviceIfce::SpiHostController, HwDeviceIfce::AhciSataController, HwDeviceIfce::SdHostController,
        HwDeviceIfce::ScsiSasController, HwDeviceIfce::PcieHostBridge, HwDeviceIfce::PciToPciBridgeNormalDecode,
        HwDeviceIfce::PciToPciBridgeSubtractiveDecode, HwDeviceIfce::PciToIsaBridge,
        HwDeviceIfce::NvmExpressController, HwDeviceIfce::Usb4Router, HwDeviceIfce::XhciUsbHostController,
        HwDeviceIfce::EhciUsbHostController, HwDeviceIfce::UsbHidClass, HwDeviceIfce::CdcAcmVirtualSerial,
        HwDeviceIfce::CdcNcmVirtualEthernet, HwDeviceIfce::IpmiKcs, HwDeviceIfce::AmdGpu, HwDeviceIfce::ArmGpu,
        HwDeviceIfce::IntelGpu, HwDeviceIfce::NvidiaGpu, HwDeviceIfce::UefiGopFramebuffer,
        HwDeviceIfce::UsbBulkDisplayClass, HwDeviceIfce::VirtioGpu, HwDeviceIfce::I8042InputController,
        HwDeviceIfce::IoApic, HwDeviceIfce::SmBusController, HwDeviceIfce::IntelVtdIommu, HwDeviceIfce::AmdViIommu,
        HwDeviceIfce::HighPrecisionEventTimer,
    ];
    for (i, a) in all.iter().enumerate() {
        assert!(!a.name().is_empty() && !a.name().contains('\n') && !a.name().contains('\r'));
        for b in &all[i + 1..] {
            assert_ne!(a.name(), b.name());
        }
    }
}

#[test]
fn vendor_names_by_table() {
    let names = vendors();
    assert_eq!(names.name(0x8086), "Intel Corporation");
    assert_eq!(names.name(0x1002), "AMD");
    assert_eq!(names.name(0x10de), "Unknown Vendor");
    let mut out = Vec::new();
    let id = PciIdentifier { vendor_id: 0x1b36, device_id: 0x000d, class_code: 0x0c, subclass: 0x03, prog_if: 0x30 };
    id.write_text(&names, &mut out);
    assert_eq!(
        text(out),
        "| Unknown Vendor[0x1b36]:0x000d | xHCI compatible USB Host Controller[class 0x0c, subclass 0x03, prog IF 0x30] |"
    );
}
