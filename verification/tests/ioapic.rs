use catten::ioapic::{
    ioapic_mmio_step, new_page_mappings, record_ioapic_page, splice_into, DeliveryMode,
    IoapicDescriptor, IoapicDest, IoapicMmioStep, Irte,
};

#[test]
fn redirection_entry_fields() {
    let mut irte = Irte(0);
    irte.set_vector(0x31);
    irte.set_delivery_mode(DeliveryMode::LowestPriority);
    irte.set_pin_polarity(true);
    irte.set_trigger_mode(true);
    irte.set_mask_bit(true);
    irte.set_dest_apic_id(IoapicDest::try_new(3).unwrap());
    assert_eq!(irte.0, 0x31 | (1 << 8) | (1 << 13) | (1 << 15) | (1 << 16) | (3u64 << 56));
    irte.set_mask_bit(false);
    irte.set_vector(0x40);
    irte.set_delivery_mode(DeliveryMode::ExtINT);
    assert_eq!(irte.0, 0x40 | (0b111 << 8) | (1 << 13) | (1 << 15) | (3u64 << 56));
}

#[test]
fn setters_leave_other_fields() {
    let mut irte = Irte(u64::MAX);
    irte.set_pin_polarity(false);
    assert_eq!(irte.0, u64::MAX & !(1 << 13));
    irte.set_vector(0);
    assert_eq!(irte.0, u64::MAX & !(1 << 13) & !0xff);
}

#[test]
fn delivery_mode_encodings() {
    assert_eq!(DeliveryMode::Fixed.raw(), 0);
    assert_eq!(DeliveryMode::SMI.raw(), 0b010);
    assert_eq!(DeliveryMode::NMI.raw(), 0b100);
    assert_eq!(DeliveryMode::INIT.raw(), 0b101);
}

#[test]
fn destination_ids() {
    assert_eq!(IoapicDest::try_new(15).unwrap().get(), 15);
    assert!(IoapicDest::try_new(16).is_none());
}

#[test]
fn splice_refuses_value_wider_than_mask() {
    let mut target = 0xffff_0000u64;
    assert_eq!(splice_into(&mut target, 0x5, 0xf0, 4), Ok(()));
    assert_eq!(target, 0xffff_0050);
    assert_eq!(splice_into(&mut target, 0x1f, 0xf0, 4), Err(()));
    assert_eq!(target, 0xffff_0050);
}

#[test]
fn descriptor_from_version_register() {
    let d = IoapicDescriptor::from_version_register(0xffff_8000_fec0_0000, 0x0017_0020);
    assert_eq!(d.version, 0x20);
    assert_eq!(d.num_redirection_entries, 24);
    assert_eq!(d.get_mmio(), (0xffff_8000_fec0_0000, 0xffff_8000_fec0_0010));
    assert_eq!(d.eoi_register(), 0xffff_8000_fec0_0040);
    let old = IoapicDescriptor::from_version_register(0x1000, 0x00ff_0011);
    assert_eq!(old.version, 0x11);
    assert_eq!(old.num_redirection_entries, 0);
}

#[test]
fn ioapics_sharing_a_page_share_its_mapping() {
    let mut pages = new_page_mappings();
    assert_eq!(ioapic_mmio_step(&pages, 0xfec0_0000), IoapicMmioStep::MapPage(0xfec0_0000));
    assert_eq!(record_ioapic_page(&mut pages, 0xfec0_0000, 0xffff_8000_0000_0000), 0xffff_8000_0000_0000);
    assert_eq!(ioapic_mmio_step(&pages, 0xfec0_0400), IoapicMmioStep::Mapped(0xffff_8000_0000_0400));
    assert_eq!(ioapic_mmio_step(&pages, 0xfec0_1000), IoapicMmioStep::MapPage(0xfec0_1000));
    assert_eq!(record_ioapic_page(&mut pages, 0xfec0_1020, 0xffff_8000_0000_5000), 0xffff_8000_0000_5020);
    assert_eq!(ioapic_mmio_step(&pages, 0xfec0_1000), IoapicMmioStep::Mapped(0xffff_8000_0000_5000));
}

#[test]
fn each_page_of_a_table_is_mapped_once() {
    let addresses = [0xfec0_0000u32, 0xfec0_0400, 0xfec0_1000, 0xfec0_0800, 0xfec0_1020];
    let mut pages = new_page_mappings();
    let mut requested = Vec::new();
    let mut next_vaddr = 0xffff_8000_0000_0000u64;
    for &address in &addresses {
        if let IoapicMmioStep::MapPage(page) = ioapic_mmio_step(&pages, address) {
            requested.push(page);
            record_ioapic_page(&mut pages, address, next_vaddr);
            next_vaddr += 0x1000;
        }
    }
    assert_eq!(requested, vec![0xfec0_0000, 0xfec0_1000]);
}
