use catten::bitwise::{mask_shift_read_u16, mask_shift_read_u32};
use catten::byte_order::{copy_bytes, read_u16_le, read_u32_le, read_u64_le, read_u8};
use catten::device_management::topology::DeviceTopology;
use catten::i8042::{command_acknowledged, I8042Action, I8042Init, Ps2Status};
use catten::multiprocessor::{nonlocal_slot, start_secondary_lps, Error, MpError, MP_FLAG_X2APIC};
use catten::pci::topology::{PcieBusSegment, PcieDevice, PcieSegmentGroup};

#[test]
fn bit_fields() {
    assert_eq!(mask_shift_read_u16(0x1482, 0xfff0, 4), 0x148);
    assert_eq!(mask_shift_read_u32(0x0017_0020, 0xff << 16, 16), 0x17);
}

#[test]
fn little_endian_reads() {
    let bytes = [0x78u8, 0x56, 0x34, 0x12, 0xef, 0xcd, 0xab, 0x89, 0x01];
    assert_eq!(read_u8(&bytes, 8), 0x01);
    assert_eq!(read_u16_le(&bytes, 0), 0x5678);
    assert_eq!(read_u32_le(&bytes, 0), 0x1234_5678);
    assert_eq!(read_u64_le(&bytes, 0), 0x89ab_cdef_1234_5678);
    assert_eq!(read_u32_le(&bytes, 4), 0x89ab_cdef);
    assert_eq!(copy_bytes(&bytes[2..5]), vec![0x34, 0x12, 0xef]);
}

#[test]
fn secondary_processors() {
    assert_eq!(start_secondary_lps(Some(MP_FLAG_X2APIC)), Ok(()));
    assert_eq!(start_secondary_lps(None), Err(MpError::SecondaryLpStartupFailed));
    assert_eq!(nonlocal_slot(4, 3), Ok(3));
    assert_eq!(nonlocal_slot(4, 4), Err(Error::InvalidIndex));
}

#[test]
fn device_topology_holds_segment_groups() {
    let group = PcieSegmentGroup::new(0, 0xffff_8000_0000_0000, 0, 0xff, PcieBusSegment::new(0, (0..32).map(|_| PcieDevice::Empty).collect()));
    let topology = DeviceTopology::new(vec![group]);
    assert_eq!(topology.pcie.segments.len(), 1);
    assert_eq!(topology.pcie.segments[0].end_bus_num, 0xff);
}

fn run_i8042(responses: &dyn Fn(u8, u8) -> u8) -> (Result<(), Ps2Status>, Vec<(bool, u8)>) {
    let mut init = I8042Init::start();
    let mut writes = Vec::new();
    let mut last_command = 0u8;
    let mut last_data = 0u8;
    for _ in 0..=27 {
        match init.action() {
            I8042Action::Command(c) => {
                writes.push((false, c));
                last_command = c;
                init.advance(0);
            }
            I8042Action::WriteData(d) => {
                writes.push((true, d));
                last_data = d;
                init.advance(0);
            }
            I8042Action::ReadData => {
                let byte = responses(last_command, last_data);
                init.advance(byte);
            }
            I8042Action::Flush => init.advance(0),
            I8042Action::Done(result) => return (result, writes),
        }
    }
    panic!("initialization did not finish");
}

fn healthy(command: u8, data: u8) -> u8 {
    match command {
        0xaa => 0x55,
        0x20 => 0x47,
        0xab | 0xa9 => 0x00,
        0xae | 0xd4 if data == 0xff || data == 0xf4 => 0xfa,
        _ => 0x00,
    }
}

#[test]
fn i8042_initializes_both_devices() {
    let (result, writes) = run_i8042(&healthy);
    assert_eq!(result, Ok(()));
    assert_eq!(&writes[0..2], &[(false, 0xad), (false, 0xa7)]);
    assert!(writes.contains(&(true, 0x04)));
    assert_eq!(writes.last(), Some(&(true, 0x47 | 0x03)));
    assert!(writes.contains(&(true, 0xff)));
}

#[test]
fn i8042_controller_test_failure_stops() {
    let (result, writes) = run_i8042(&|command, _| if command == 0xaa { 0xfc } else { 0x00 });
    assert_eq!(result, Err(Ps2Status { keyboard_ok: false, mouse_ok: false }));
    assert_eq!(writes.len(), 3);
}

#[test]
fn i8042_keyboard_without_ack() {
    let (result, writes) = run_i8042(&|command, data| {
        if command == 0xae && data == 0xff { 0xfe } else { healthy(command, data) }
    });
    assert_eq!(result, Err(Ps2Status { keyboard_ok: false, mouse_ok: true }));
    assert_eq!(writes.iter().filter(|w| **w == (true, 0xf4)).count(), 1);
    assert_eq!(writes.last(), Some(&(true, 0x47 | 0x02)));
    assert!(command_acknowledged(0xfa));
    assert!(!command_acknowledged(0xfe));
}
