use catten::acpi::aml::{begin_initialization, check, complete_stage, InitStage, UACPI_STATUS_ALREADY_EXISTS};
use catten::acpi::fadt::Fadt;
use catten::acpi::interrupt_flags::{InterruptFlags, InterruptPolarity, InterruptTrigger};
use catten::acpi::irq_routing::{create_irq_gsi_mapping_table, resolve_acpi_interrupt, IrqGsiMapping};
use catten::acpi::madt::{InterruptSourceOverrideEntry, IoApicEntry, Madt, MadtEntryType, NmiSourceEntry};
use catten::acpi::mcfg::{configuration_address, read_mcfg_regions, validate_checksum, McfgEntry};
use catten::ioapic::ioapic_entries;

fn madt_bytes(entries: &[Vec<u8>]) -> Vec<u8> {
    let mut bytes = vec![0u8; 44];
    bytes[0..4].copy_from_slice(b"APIC");
    for e in entries {
        bytes.extend_from_slice(e);
    }
    let len = bytes.len() as u32;
    bytes[4..8].copy_from_slice(&len.to_le_bytes());
    bytes
}

fn ioapic(id: u8, address: u32, gsi_base: u32) -> Vec<u8> {
    let mut e = vec![1u8, 12, id, 0];
    e.extend_from_slice(&address.to_le_bytes());
    e.extend_from_slice(&gsi_base.to_le_bytes());
    e
}

fn iso(source: u8, gsi: u32, flags: u16) -> Vec<u8> {
    let mut e = vec![2u8, 10, 0, source];
    e.extend_from_slice(&gsi.to_le_bytes());
    e.extend_from_slice(&flags.to_le_bytes());
    e
}

fn nmi_source(flags: u16, gsi: u32) -> Vec<u8> {
    let mut e = vec![3u8, 8];
    e.extend_from_slice(&flags.to_le_bytes());
    e.extend_from_slice(&gsi.to_le_bytes());
    e
}

fn qemu_madt() -> Madt {
    Madt::from_bytes(madt_bytes(&[
        vec![0u8, 8, 0, 0, 1, 0, 0, 0],
        ioapic(2, 0xfec0_0000, 0),
        iso(0, 2, 0x0000),
        iso(9, 9, 0x000d),
        nmi_source(0x0005, 23),
        iso(10, 10, 0x000f),
    ]))
}

#[test]
fn madt_entries_in_table_order() {
    let madt = qemu_madt();
    assert_eq!(madt.entry_offsets(), vec![44, 52, 64, 74, 84, 92]);
    let index = madt.parse();
    assert_eq!(index.get_entries_with_type(MadtEntryType::IoApic), &vec![52]);
    assert_eq!(index.get_entries_with_type(MadtEntryType::InterruptSourceOverride), &vec![64, 74, 92]);
    assert_eq!(index.get_entries_with_type(MadtEntryType::NmiSource), &vec![84]);
    assert!(index.get_entries_with_type(MadtEntryType::LocalX2ApicNmi).is_empty());
    let e = IoApicEntry::read(&index.table, 52);
    assert_eq!((e.id(), e.address(), e.gsi_base()), (2, 0xfec0_0000, 0));
    let o = InterruptSourceOverrideEntry::read(&index.table, 74);
    assert_eq!((o.irq_source, o.global_system_interrupt), (9, 9));
    let n = NmiSourceEntry::read(&index.table, 84);
    assert_eq!(n.global_system_interrupt, 23);
}

#[test]
fn madt_walk_stops_at_a_bad_length() {
    let madt = Madt::from_bytes(madt_bytes(&[ioapic(1, 0xfec0_0000, 0), vec![2u8, 1, 0, 0], iso(0, 2, 0)]));
    assert_eq!(madt.entry_offsets(), vec![44]);
    let madt = Madt::from_bytes(madt_bytes(&[ioapic(1, 0xfec0_0000, 0), vec![2u8, 40, 0, 0]]));
    assert_eq!(madt.entry_offsets(), vec![44]);
}

#[test]
fn irq_table_applies_overrides() {
    let index = qemu_madt().parse();
    let table = create_irq_gsi_mapping_table(&index);
    assert_eq!(table.len(), 16);
    assert_eq!(table[0], IrqGsiMapping { irq: 0, gsi: 2, polarity: true, latched: false });
    assert_eq!(table[1], IrqGsiMapping { irq: 1, gsi: 1, polarity: true, latched: false });
    assert_eq!(table[9], IrqGsiMapping { irq: 9, gsi: 9, polarity: true, latched: true });
    assert_eq!(table[10], IrqGsiMapping { irq: 10, gsi: 10, polarity: false, latched: true });
}

#[test]
fn acpi_interrupt_routes() {
    let index = qemu_madt().parse();
    assert_eq!(resolve_acpi_interrupt(&index, 9), Some((9, false, true)));
    assert_eq!(resolve_acpi_interrupt(&index, 0), Some((2, true, true)));
    assert_eq!(resolve_acpi_interrupt(&index, 10), Some((10, true, true)));
    assert_eq!(resolve_acpi_interrupt(&index, 5), Some((5, true, true)));
    assert_eq!(resolve_acpi_interrupt(&index, 20), Some((20, true, true)));
    let reserved = Madt::from_bytes(madt_bytes(&[iso(9, 9, 0x0002)])).parse();
    assert_eq!(resolve_acpi_interrupt(&reserved, 9), None);
}

#[test]
fn ioapics_listed() {
    let index = Madt::from_bytes(madt_bytes(&[ioapic(0, 0xfec0_0000, 0), iso(0, 2, 0), ioapic(1, 0xfec0_1000, 24)])).parse();
    let list = ioapic_entries(&index);
    assert_eq!(list.len(), 2);
    assert_eq!((list[0].id(), list[0].gsi_base()), (0, 0));
    assert_eq!((list[1].id(), list[1].address(), list[1].gsi_base()), (1, 0xfec0_1000, 24));
}

#[test]
fn interrupt_flag_fields() {
    assert_eq!(InterruptFlags(0).polarity(), InterruptPolarity::BusSpec);
    assert_eq!(InterruptFlags(1).polarity(), InterruptPolarity::ActiveHigh);
    assert_eq!(InterruptFlags(2).polarity(), InterruptPolarity::Reserved);
    assert_eq!(InterruptFlags(3).polarity(), InterruptPolarity::ActiveLow);
    assert_eq!(InterruptFlags(0x0).trigger(), InterruptTrigger::BusSpec);
    assert_eq!(InterruptFlags(0x4).trigger(), InterruptTrigger::Edge);
    assert_eq!(InterruptFlags(0x8).trigger(), InterruptTrigger::Reserved);
    assert_eq!(InterruptFlags(0xc).trigger(), InterruptTrigger::Level);
    assert_eq!(InterruptFlags(0xd).polarity(), InterruptPolarity::ActiveHigh);
}

fn mcfg_bytes(entries: &[(u64, u16, u8, u8)]) -> Vec<u8> {
    let mut bytes = vec![0u8; 44];
    bytes[0..4].copy_from_slice(b"MCFG");
    for &(base, segment, start, end) in entries {
        bytes.extend_from_slice(&base.to_le_bytes());
        bytes.extend_from_slice(&segment.to_le_bytes());
        bytes.push(start);
        bytes.push(end);
        bytes.extend_from_slice(&[0u8; 4]);
    }
    let len = bytes.len() as u32;
    bytes[4..8].copy_from_slice(&len.to_le_bytes());
    let sum = bytes.iter().fold(0u8, |a, b| a.wrapping_add(*b));
    bytes[9] = 0u8.wrapping_sub(sum);
    bytes
}

#[test]
fn mcfg_regions_and_addresses() {
    let table = mcfg_bytes(&[(0xb000_0000, 0, 0, 0xff), (0xc000_0001, 1, 0, 0xff), (0xd000_0000, 1, 0x10, 0x1f)]);
    assert!(validate_checksum(&table));
    let regions = read_mcfg_regions(&vec![table], 0xff_ffff_ffff);
    assert_eq!(
        regions,
        vec![
            McfgEntry { ecam_base: 0xb000_0000, pcie_segment_num: 0, start_bus_num: 0, end_bus_num: 0xff, reserved: 0 },
            McfgEntry { ecam_base: 0xd000_0000, pcie_segment_num: 1, start_bus_num: 0x10, end_bus_num: 0x1f, reserved: 0 },
        ]
    );
    assert_eq!(configuration_address(&regions, 0xff_ffff_ffff, 0, 0, 0, 0), Some(0xb000_0000));
    assert_eq!(configuration_address(&regions, 0xff_ffff_ffff, 1, 0x10, 1, 2), Some(0xd000_0000 + 0x100_0000 + 0x8000 + 0x2000));
    assert_eq!(configuration_address(&regions, 0xff_ffff_ffff, 1, 0x20, 0, 0), None);
    assert_eq!(configuration_address(&regions, 0xff_ffff_ffff, 0, 0, 32, 0), None);
    assert_eq!(configuration_address(&regions, 0xff_ffff_ffff, u16::MAX, 0, 0, 0), None);
}

#[test]
fn mcfg_bad_checksum_or_out_of_range() {
    let mut table = mcfg_bytes(&[(0xb000_0000, 0, 0, 0xff)]);
    table[9] = table[9].wrapping_add(1);
    assert!(!validate_checksum(&table));
    assert!(read_mcfg_regions(&vec![table], 0xff_ffff_ffff).is_empty());
    let table = mcfg_bytes(&[(0xb000_0000, 0, 0, 0xff)]);
    assert!(read_mcfg_regions(&vec![table], 0xbfff_fffe).is_empty());
}

#[test]
fn fadt_prefers_extended_dsdt() {
    let mut bytes = vec![0u8; 148];
    bytes[40..44].copy_from_slice(&0x7fe0_0000u32.to_le_bytes());
    let fadt = Fadt::read(&bytes);
    assert_eq!(fadt.get_dsdt_paddr(), 0x7fe0_0000);
    bytes[140..148].copy_from_slice(&0x1_7fe0_0000u64.to_le_bytes());
    let fadt = Fadt::read(&bytes);
    assert_eq!(fadt.get_dsdt_paddr(), 0x1_7fe0_0000);
}

#[test]
fn interpreter_initialization_stages() {
    let mut stage = begin_initialization(false).unwrap();
    let mut names = Vec::new();
    loop {
        names.push(stage.name());
        match complete_stage(stage, 0).unwrap() {
            Some(next) => stage = next,
            None => break,
        }
    }
    assert_eq!(
        names,
        vec![
            "subsystem initialization",
            "namespace load",
            "namespace initialization",
            "interrupt model selection",
            "GPE initialization"
        ]
    );
    let err = complete_stage(InitStage::NamespaceLoad, 6).unwrap_err();
    assert_eq!((err.stage, err.status), ("namespace load", 6));
    let dup = begin_initialization(true).unwrap_err();
    assert_eq!((dup.stage, dup.status), ("duplicate initialization", UACPI_STATUS_ALREADY_EXISTS));
    assert!(check("namespace load", 0).is_ok());
}
