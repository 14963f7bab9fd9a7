use catten::acpi::madt::Madt;
use catten::uacpi_host::UacpiStatus;
use catten::uacpi_interrupts::{
    HandlerInstall, InstallAction, InstallEvent, InstallState,
    pin_for_gsi, plan_install, HandlerRegistration, HandlerRegistry, InstallPlan, InstalledHandler,
    IoapicPins,
};

fn madt_with_sci_override() -> Madt {
    let mut bytes = vec![0u8; 44];
    bytes.extend_from_slice(&[2u8, 10, 0, 9]);
    bytes.extend_from_slice(&9u32.to_le_bytes());
    bytes.extend_from_slice(&0x000du16.to_le_bytes());
    let len = bytes.len() as u32;
    bytes[4..8].copy_from_slice(&len.to_le_bytes());
    Madt::from_bytes(bytes)
}

fn ioapics() -> Vec<IoapicPins> {
    vec![IoapicPins { id: 0, gsi_base: 0, pin_count: 24 }, IoapicPins { id: 1, gsi_base: 24, pin_count: 8 }]
}

fn registration(gsi: u32, vector: u8) -> HandlerRegistration {
    HandlerRegistration { handler: 0x1000, context: 0x2000, gsi, ioapic: 0, pin: gsi as u8, vector }
}

#[test]
fn pins_for_global_system_interrupts() {
    let list = ioapics();
    assert_eq!(pin_for_gsi(&list, 9), Some((0, 9)));
    assert_eq!(pin_for_gsi(&list, 23), Some((0, 23)));
    assert_eq!(pin_for_gsi(&list, 24), Some((1, 0)));
    assert_eq!(pin_for_gsi(&list, 31), Some((1, 7)));
    assert_eq!(pin_for_gsi(&list, 32), None);
}

#[test]
fn install_plan_routes_the_sci() {
    let index = madt_with_sci_override().parse();
    let plan = plan_install(&index, &ioapics(), 9, Some(0x1000), true).unwrap();
    assert_eq!(plan, InstallPlan { handler: 0x1000, gsi: 9, active_low: false, level: true, ioapic: 0, pin: 9 });
    let plan = plan_install(&index, &ioapics(), 26, Some(0x1000), true).unwrap();
    assert_eq!((plan.ioapic, plan.pin, plan.active_low, plan.level), (1, 2, true, true));
}

#[test]
fn install_plan_refusals() {
    let index = madt_with_sci_override().parse();
    assert_eq!(plan_install(&index, &ioapics(), 9, None, true), Err(UacpiStatus::InvalidArgument));
    assert_eq!(plan_install(&index, &ioapics(), 9, Some(0x1000), false), Err(UacpiStatus::InvalidArgument));
    assert_eq!(plan_install(&index, &ioapics(), 40, Some(0x1000), true), Err(UacpiStatus::NotFound));
}

#[test]
fn registry_dispatches_by_vector() {
    let mut registry = HandlerRegistry::new(0x30, 16);
    assert!(!registry.is_gsi_registered(9));
    assert_eq!(registry.record(0xaaa0, registration(9, 0x32)), Ok(()));
    assert!(registry.is_gsi_registered(9));
    assert_eq!(
        registry.dispatch_target(0x32),
        Some(InstalledHandler { handle: 0xaaa0, registration: registration(9, 0x32) })
    );
    assert_eq!(registry.dispatch_target(0x33), None);
    assert_eq!(registry.record(0xbbb0, registration(9, 0x33)), Err(UacpiStatus::AlreadyExists));
    assert_eq!(registry.dispatch_target(0x33), None);
}

#[test]
fn registry_uninstall() {
    let mut registry = HandlerRegistry::new(0x30, 16);
    assert_eq!(registry.record(0xaaa0, registration(9, 0x32)), Ok(()));
    assert_eq!(registry.unregister(None, 0xaaa0), Err(UacpiStatus::InvalidArgument));
    assert_eq!(registry.unregister(Some(0x1000), 0xccc0), Err(UacpiStatus::NotFound));
    assert_eq!(registry.unregister(Some(0x9999), 0xaaa0), Err(UacpiStatus::InvalidArgument));
    assert_eq!(registry.unregister(Some(0x1000), 0xaaa0), Ok(registration(9, 0x32)));
    assert_eq!(registry.dispatch_target(0x32), None);
    assert!(!registry.is_gsi_registered(9));
    assert_eq!(registry.unregister(Some(0x1000), 0xaaa0), Err(UacpiStatus::NotFound));
    assert_eq!(registry.record(0xbbb0, registration(9, 0x3f)), Ok(()));
}

#[test]
fn controller_outcomes_give_statuses() {
    let registry = HandlerRegistry::new(0x30, 16);
    assert_eq!(registry.accept_vector(None), Err(UacpiStatus::OutOfMemory));
    assert_eq!(registry.accept_vector(Some(0x2f)), Err(UacpiStatus::InternalError));
    assert_eq!(registry.accept_vector(Some(0x40)), Err(UacpiStatus::InternalError));
    assert_eq!(registry.accept_vector(Some(0x3f)), Ok(0x3f));
    assert!(registry.holds_vector(0x30) && !registry.holds_vector(0x40));
}

fn plan() -> InstallPlan {
    InstallPlan { handler: 0x1000, gsi: 9, active_low: false, level: true, ioapic: 0, pin: 9 }
}

#[test]
fn handler_installation_steps() {
    let mut registry = HandlerRegistry::new(0x30, 16);
    let mut install = HandlerInstall::new(plan(), 0x77);
    assert_eq!(install.action(), InstallAction::Allocate);
    install.advance(&mut registry, InstallEvent::Allocated(Some(0xa000)));
    assert_eq!(install.action(), InstallAction::FindVector);
    install.advance(&mut registry, InstallEvent::VectorOffered(Some(0x31)));
    assert_eq!(
        install.action(),
        InstallAction::Route { ioapic: 0, pin: 9, vector: 0x31, active_low: false, level: true }
    );
    install.advance(&mut registry, InstallEvent::Completed(true));
    assert_eq!(install.action(), InstallAction::SetHandler { vector: 0x31 });
    assert!(registry.dispatch_target(0x31).is_none());
    install.advance(&mut registry, InstallEvent::Completed(true));
    assert_eq!(install.action(), InstallAction::Unmask { ioapic: 0, pin: 9 });
    let installed = registry.dispatch_target(0x31).unwrap();
    assert_eq!(installed.handle, 0xa000);
    assert_eq!(
        installed.registration,
        HandlerRegistration { handler: 0x1000, context: 0x77, gsi: 9, ioapic: 0, pin: 9, vector: 0x31 }
    );
    install.advance(&mut registry, InstallEvent::Completed(true));
    assert_eq!(install.action(), InstallAction::Succeed { handle: 0xa000 });
    assert_eq!(install.state, InstallState::Installed { handle: 0xa000 });

    // A second handler for the same line is refused once its memory is allocated.
    let mut again = HandlerInstall::new(plan(), 0);
    again.advance(&mut registry, InstallEvent::Allocated(Some(0xb000)));
    assert_eq!(again.action(), InstallAction::Fail { status: UacpiStatus::AlreadyExists, allocation: Some(0xb000) });
}

#[test]
fn handler_installation_failures() {
    let fail = |events: &[InstallEvent]| {
        let mut registry = HandlerRegistry::new(0x30, 16);
        let mut install = HandlerInstall::new(plan(), 0);
        for e in events {
            install.advance(&mut registry, *e);
        }
        assert!(registry.dispatch_target(0x31).is_none());
        install.action()
    };
    let fail_with = |status, allocation| InstallAction::Fail { status, allocation };
    assert_eq!(fail(&[InstallEvent::Allocated(None)]), fail_with(UacpiStatus::OutOfMemory, None));
    let a = InstallEvent::Allocated(Some(0xa000));
    assert_eq!(fail(&[a, InstallEvent::VectorOffered(None)]), fail_with(UacpiStatus::OutOfMemory, Some(0xa000)));
    assert_eq!(fail(&[a, InstallEvent::VectorOffered(Some(0x80))]), fail_with(UacpiStatus::InternalError, Some(0xa000)));
    let v = InstallEvent::VectorOffered(Some(0x31));
    assert_eq!(fail(&[a, v, InstallEvent::Completed(false)]), fail_with(UacpiStatus::Unimplemented, Some(0xa000)));
    assert_eq!(
        fail(&[a, v, InstallEvent::Completed(true), InstallEvent::Completed(false)]),
        fail_with(UacpiStatus::InternalError, Some(0xa000))
    );
}
