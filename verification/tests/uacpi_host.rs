use catten::acpi::mcfg::McfgEntry;
use catten::uacpi_host::{
    acquire_status, firmware_request_status, host_thread_id, malloc_total_size, next_nanoseconds,
    page_span, pci_device_open_target, pci_valid_access, plan_physical_mapping,
    plan_physical_unmapping, stall_ticks, wait_policy, FirmwareRequest, IoRegion, MapPlan,
    UacpiPciAddress, UacpiStatus, WaitPolicy, MAP_FAILED,
};

#[test]
fn page_span_cases() {
    assert_eq!(page_span(0x1abc, 0xf00), Some((0x1000, 0xabc, 2)));
    assert_eq!(page_span(0x1000, 0x1000), Some((0x1000, 0, 1)));
    assert_eq!(page_span(0x1fff, 2), Some((0x1000, 0xfff, 2)));
    assert_eq!(page_span(0, 0), None);
    assert_eq!(page_span(usize::MAX, 2), None);
    assert_eq!(page_span(0, usize::MAX), None);
}

#[test]
fn physical_mapping_takes_next_window() {
    let plan = plan_physical_mapping(0x1abc, 0xf00, 0xffff_ffff, 0x3000, 0x10_0000).unwrap();
    assert_eq!(
        plan,
        MapPlan { base: 0x1000, offset: 0xabc, pages: 2, region_offset: 0x3000, next_region_offset: 0x5000 }
    );
}

#[test]
fn physical_mapping_refusals() {
    assert_eq!(plan_physical_mapping(u64::MAX, 2, u64::MAX, 0, 0x10_0000), None);
    assert_eq!(plan_physical_mapping(0x1000, 0, 0xffff_ffff, 0, 0x10_0000), None);
    assert_eq!(plan_physical_mapping(0x2000_0000, 1, 0xffff_ffff - 0xf000_0000, 0, 0x10_0000), None);
    assert_eq!(plan_physical_mapping(0x1000, 0x2000, 0xffff_ffff, 0xf000, 0x10000), None);
}

#[test]
fn physical_unmapping() {
    assert_eq!(plan_physical_unmapping(0, 36), None);
    assert_eq!(plan_physical_unmapping(MAP_FAILED, 36), None);
    assert_eq!(plan_physical_unmapping(0xffff_8000_0000_1ff0, 0x20), Some((0xffff_8000_0000_1000, 2)));
}

#[test]
fn io_region_cases() {
    assert!(IoRegion::new(0x1_0000, 1).is_none());
    assert!(IoRegion::new(u64::MAX, 2).is_none());
    assert!(IoRegion::new(0, 0).is_none());
    assert!(IoRegion::new(0xffff, 2).is_none());
    let full = IoRegion::new(0, 0x1_0000).unwrap();
    assert_eq!(full.port(0xffff, 1), Some(0xffff));
    assert_eq!(full.port(0xffff, 2), None);
    assert_eq!(full.port(usize::MAX, 4), None);
    let region = IoRegion::new(0xfffc, 4).unwrap();
    assert_eq!(region.port(0, 4), Some(0xfffc));
    assert_eq!(region.port(1, 4), None);
}

#[test]
fn io_region_same_ports_twice() {
    let first = IoRegion::new(0x80, 4).unwrap();
    let second = IoRegion::new(0x80, 4).unwrap();
    assert_eq!(first, second);
    assert_eq!(first.port(1, 4), None);
    assert_eq!(first.port(0, 4), Some(0x80));
}

#[test]
fn pci_access_windows() {
    assert!(pci_valid_access(4, 4));
    assert!(pci_valid_access(6, 2));
    assert!(pci_valid_access(4092, 4));
    assert!(!pci_valid_access(4095, 2));
    assert!(!pci_valid_access(usize::MAX, 4));
    assert!(!pci_valid_access(4096, 4));
    assert!(!pci_valid_access(1, 4));
    assert!(pci_valid_access(4095, 1));
}

fn q35_regions() -> Vec<McfgEntry> {
    vec![McfgEntry { ecam_base: 0xb000_0000, pcie_segment_num: 0, start_bus_num: 0, end_bus_num: 0xff, reserved: 0 }]
}

#[test]
fn pci_open_host_bridge() {
    let regions = q35_regions();
    let address = UacpiPciAddress { segment: 0, bus: 0, device: 0, function: 0 };
    assert_eq!(pci_device_open_target(&regions, 0xff_ffff_ffff, address), Ok(0xb000_0000));
    let address = UacpiPciAddress { segment: 0, bus: 1, device: 2, function: 3 };
    assert_eq!(pci_device_open_target(&regions, 0xff_ffff_ffff, address), Ok(0xb010_0000 + 0x1_0000 + 0x3000));
}

#[test]
fn pci_open_outside_ecam_not_found() {
    let regions = q35_regions();
    let address = UacpiPciAddress { segment: u16::MAX, bus: 0, device: 0, function: 0 };
    assert_eq!(pci_device_open_target(&regions, 0xff_ffff_ffff, address), Err(UacpiStatus::NotFound));
}

#[test]
fn pci_open_bad_numbers() {
    let regions = q35_regions();
    let address = UacpiPciAddress { segment: 0, bus: 0, device: 32, function: 0 };
    assert_eq!(pci_device_open_target(&regions, 0xff_ffff_ffff, address), Err(UacpiStatus::InvalidArgument));
    let address = UacpiPciAddress { segment: 0, bus: 0, device: 0, function: 8 };
    assert_eq!(pci_device_open_target(&regions, 0xff_ffff_ffff, address), Err(UacpiStatus::InvalidArgument));
}

#[test]
fn malloc_sizes() {
    assert_eq!(malloc_total_size(usize::MAX), None);
    assert_eq!(malloc_total_size(31), Some(47));
    assert_eq!(malloc_total_size(0), Some(17));
    assert_eq!(malloc_total_size(isize::MAX as usize), None);
}

#[test]
fn clock_strictly_increases() {
    assert_eq!(next_nanoseconds(100, 50), 100);
    assert_eq!(next_nanoseconds(50, 50), 51);
    assert_eq!(next_nanoseconds(10, 50), 51);
    assert_eq!(next_nanoseconds(5, u64::MAX), u64::MAX);
    let a = next_nanoseconds(1000, 0);
    let b = next_nanoseconds(1000, a);
    assert!(b > a);
}

#[test]
fn stall_rounds_up() {
    assert_eq!(stall_ticks(50, 1_000_000), 50);
    assert_eq!(stall_ticks(1, 3_000_000), 1);
    assert_eq!(stall_ticks(1, 300_000), 4);
    assert_eq!(stall_ticks(0, 1), 0);
}

#[test]
fn thread_ids() {
    assert_eq!(host_thread_id(Some(7), 3), 7);
    assert_eq!(host_thread_id(None, 3), 0x8000_0000_0000_0003);
    assert_ne!(host_thread_id(None, u32::MAX), u64::MAX);
}

#[test]
fn waits_and_statuses() {
    assert_eq!(wait_policy(0), WaitPolicy::Poll);
    assert_eq!(wait_policy(u16::MAX), WaitPolicy::Forever);
    assert_eq!(wait_policy(2), WaitPolicy::Millis(2));
    assert_eq!(acquire_status(true), UacpiStatus::Success);
    assert_eq!(acquire_status(false), UacpiStatus::Timeout);
    assert_eq!(firmware_request_status(FirmwareRequest::Breakpoint), UacpiStatus::Success);
    assert_eq!(firmware_request_status(FirmwareRequest::Fatal), UacpiStatus::InternalError);
    assert_eq!(firmware_request_status(FirmwareRequest::Other), UacpiStatus::InvalidArgument);
}

#[test]
fn mapping_windows_follow_each_other() {
    let first = plan_physical_mapping(0xfed0_0000, 0x400, 0xff_ffff_ffff, 0, 0x4000).unwrap();
    let second = plan_physical_mapping(0xfee0_0ff0, 0x20, 0xff_ffff_ffff, first.next_region_offset, 0x4000).unwrap();
    assert_eq!((first.region_offset, first.next_region_offset), (0, 0x1000));
    assert_eq!((second.region_offset, second.next_region_offset), (0x1000, 0x3000));
    assert_eq!(plan_physical_mapping(0x1000, 0x2000, 0xff_ffff_ffff, second.next_region_offset, 0x4000), None);
}

use catten::uacpi_host::{log_level_name, log_lines, LogLevel};

#[test]
fn log_messages_split_into_lines() {
    assert_eq!(log_lines(b"Namespace loaded\n"), vec![b"Namespace loaded".to_vec()]);
    assert_eq!(log_lines(b"first\r\nsecond\n\n"), vec![b"first".to_vec(), b"second".to_vec()]);
    assert_eq!(log_lines(b"a\n\nb\r\r"), vec![b"a".to_vec(), b"".to_vec(), b"b".to_vec()]);
    assert_eq!(log_lines(b"\r\n"), vec![b"".to_vec()]);
    assert_eq!(log_lines(b""), vec![b"".to_vec()]);
    assert_eq!(log_level_name(LogLevel::Warn), "WARN");
    assert_eq!(log_level_name(LogLevel::Other), "UNKNOWN");
}
