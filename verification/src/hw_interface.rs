//! The software operating interfaces that devices present to the kernel.
use vstd::prelude::*;

use crate::pci::device_class::{
    ahci_sata_controller, host_bridge, hpet, iommu, ioapic, ioxapic, ipmi_kcs, nvme_controller,
    pci_to_isa_bridge, pci_to_pci_bridge, pci_to_pci_bridge_sub_dec, scsi_sas_controller,
    sd_host_controller, smbus_controller, usb4_router, usb_ehci, usb_xhci, vga_compatible,
    PciIdentifier, CLASS_SERIAL_CONTROLLER, PROG_IF_NS16550, PROG_IF_NS16650, PROG_IF_NS16750,
    PROG_IF_NS16850, PROG_IF_NS16950, SUBCLASS_MULTIPORT_SERIAL, SUBCLASS_SERIAL, VENDOR_AMD,
    VENDOR_INTEL, VENDOR_NVIDIA,
};

verus! {

/// The software operating interface for a device, or more properly a device function. This is
/// what devices present to the kernel and what drivers use to interact with the device.
#[derive(Debug, Clone, Copy, PartialEq, Eq)]
pub enum HwDeviceIfce {
    Unknown,
    Unsupported,
    // Generic
    Ns16550Uart,
    Ns16650Uart,
    Ns16750Uart,
    Ns16850Uart,
    Ns16950Uart,
    Ns16550MultiPortUart,
    Ns16650MultiPortUart,
    Ns16750MultiPortUart,
    Ns16850MultiPortUart,
    Ns16950MultiPortUart,
    I2CHostController,
    SpiHostController,
    AhciSataController,
    SdHostController,
    ScsiSasController,
    // PCI Express
    PcieHostBridge,
    PciToPciBridgeNormalDecode,
    PciToPciBridgeSubtractiveDecode,
    PciToIsaBridge,
    NvmExpressController,
    // USB
    Usb4Router,
    XhciUsbHostController,
    EhciUsbHostController,
    UsbHidClass,
    CdcAcmVirtualSerial,
    CdcNcmVirtualEthernet,
    // IPMI
    IpmiKcs,
    // Graphics and Display
    AmdGpu,
    ArmGpu,
    IntelGpu,
    NvidiaGpu,
    UefiGopFramebuffer,
    UsbBulkDisplayClass,
    VirtioGpu,
    // x86-64 platform components
    I8042InputController,
    IoApic,
    SmBusController,
    IntelVtdIommu,
    AmdViIommu,
    HighPrecisionEventTimer,
}

/// The interface of a generic 16x50 UART class triple, if `t` is one.
pub open spec fn uart_interface(t: (u8, u8, u8)) -> Option<HwDeviceIfce> {
    if t.0 != CLASS_SERIAL_CONTROLLER {
        None
    } else if t.1 == SUBCLASS_SERIAL {
        if t.2 == PROG_IF_NS16550 { Some(HwDeviceIfce::Ns16550Uart) }
        else if t.2 == PROG_IF_NS16650 { Some(HwDeviceIfce::Ns16650Uart) }
        else if t.2 == PROG_IF_NS16750 { Some(HwDeviceIfce::Ns16750Uart) }
        else if t.2 == PROG_IF_NS16850 { Some(HwDeviceIfce::Ns16850Uart) }
        else if t.2 == PROG_IF_NS16950 { Some(HwDeviceIfce::Ns16950Uart) }
        else { None }
    } else if t.1 == SUBCLASS_MULTIPORT_SERIAL {
        if t.2 == PROG_IF_NS16550 { Some(HwDeviceIfce::Ns16550MultiPortUart) }
        else if t.2 == PROG_IF_NS16650 { Some(HwDeviceIfce::Ns16650MultiPortUart) }
        else if t.2 == PROG_IF_NS16750 { Some(HwDeviceIfce::Ns16750MultiPortUart) }
        else if t.2 == PROG_IF_NS16850 { Some(HwDeviceIfce::Ns16850MultiPortUart) }
        else if t.2 == PROG_IF_NS16950 { Some(HwDeviceIfce::Ns16950MultiPortUart) }
        else { None }
    } else {
        None
    }
}

/// The interface a PCI function presents. Vendor specific matches are tried before the generic
/// device class matches, which bind less tightly.
pub open spec fn hw_interface_of(id: PciIdentifier) -> HwDeviceIfce {
    let t = id.class_triple();
    if id.vendor_id == VENDOR_AMD && t == vga_compatible() { HwDeviceIfce::AmdGpu }
    else if id.vendor_id == VENDOR_AMD && t == iommu() { HwDeviceIfce::AmdViIommu }
    else if id.vendor_id == VENDOR_INTEL && t == vga_compatible() { HwDeviceIfce::IntelGpu }
    else if id.vendor_id == VENDOR_INTEL && t == iommu() { HwDeviceIfce::IntelVtdIommu }
    else if id.vendor_id == VENDOR_NVIDIA && t == vga_compatible() { HwDeviceIfce::NvidiaGpu }
    else if t == ahci_sata_controller() { HwDeviceIfce::AhciSataController }
    else if t == scsi_sas_controller() { HwDeviceIfce::ScsiSasController }
    else if t == nvme_controller() { HwDeviceIfce::NvmExpressController }
    else if t == host_bridge() { HwDeviceIfce::PcieHostBridge }
    else if t == pci_to_pci_bridge() { HwDeviceIfce::PciToPciBridgeNormalDecode }
    else if t == pci_to_pci_bridge_sub_dec() { HwDeviceIfce::PciToPciBridgeSubtractiveDecode }
    else if t == pci_to_isa_bridge() { HwDeviceIfce::PciToIsaBridge }
    else if uart_interface(t) is Some { uart_interface(t)->0 }
    else if t == ioapic() || t == ioxapic() { HwDeviceIfce::IoApic }
    else if t == hpet() { HwDeviceIfce::HighPrecisionEventTimer }
    else if t == sd_host_controller() { HwDeviceIfce::SdHostController }
    else if t == usb_ehci() { HwDeviceIfce::EhciUsbHostController }
    else if t == usb_xhci() { HwDeviceIfce::XhciUsbHostController }
    else if t == usb4_router() { HwDeviceIfce::Usb4Router }
    else if t == smbus_controller() { HwDeviceIfce::SmBusController }
    else if t == ipmi_kcs() { HwDeviceIfce::IpmiKcs }
    else { HwDeviceIfce::Unknown }
}

fn uart_interface_exec(c: u8, s: u8, p: u8) -> (r: Option<HwDeviceIfce>)
    ensures
        r == uart_interface((c, s, p)),
{
    if c != CLASS_SERIAL_CONTROLLER {
        None
    } else if s == SUBCLASS_SERIAL {
        if p == PROG_IF_NS16550 { Some(HwDeviceIfce::Ns16550Uart) }
        else if p == PROG_IF_NS16650 { Some(HwDeviceIfce::Ns16650Uart) }
        else if p == PROG_IF_NS16750 { Some(HwDeviceIfce::Ns16750Uart) }
        else if p == PROG_IF_NS16850 { Some(HwDeviceIfce::Ns16850Uart) }
        else if p == PROG_IF_NS16950 { Some(HwDeviceIfce::Ns16950Uart) }
        else { None }
    } else if s == SUBCLASS_MULTIPORT_SERIAL {
        if p == PROG_IF_NS16550 { Some(HwDeviceIfce::Ns16550MultiPortUart) }
        else if p == PROG_IF_NS16650 { Some(HwDeviceIfce::Ns16650MultiPortUart) }
        else if p == PROG_IF_NS16750 { Some(HwDeviceIfce::Ns16750MultiPortUart) }
        else if p == PROG_IF_NS16850 { Some(HwDeviceIfce::Ns16850MultiPortUart) }
        else if p == PROG_IF_NS16950 { Some(HwDeviceIfce::Ns16950MultiPortUart) }
        else { None }
    } else {
        None
    }
}

impl From<PciIdentifier> for HwDeviceIfce {
    fn from(id: PciIdentifier) -> (r: HwDeviceIfce) {
        let v = id.vendor_id;
        let c = id.class_code;
        let s = id.subclass;
        let p = id.prog_if;
        let vga = c == 0x03 && s == 0x00 && p == 0x00;
        let iommu_class = c == 0x08 && s == 0x06 && p == 0x00;
        if v == VENDOR_AMD && vga {
            HwDeviceIfce::AmdGpu
        } else if v == VENDOR_AMD && iommu_class {
            HwDeviceIfce::AmdViIommu
        } else if v == VENDOR_INTEL && vga {
            HwDeviceIfce::IntelGpu
        } else if v == VENDOR_INTEL && iommu_class {
            HwDeviceIfce::IntelVtdIommu
        } else if v == VENDOR_NVIDIA && vga {
            HwDeviceIfce::NvidiaGpu
        } else if c == 0x01 && s == 0x06 && p == 0x01 {
            HwDeviceIfce::AhciSataController
        } else if c == 0x01 && s == 0x07 && p == 0x00 {
            HwDeviceIfce::ScsiSasController
        } else if c == 0x01 && s == 0x08 && p == 0x02 {
            HwDeviceIfce::NvmExpressController
        } else if c == 0x06 && s == 0x00 && p == 0x00 {
            HwDeviceIfce::PcieHostBridge
        } else if c == 0x06 && s == 0x04 && p == 0x00 {
            HwDeviceIfce::PciToPciBridgeNormalDecode
        } else if c == 0x06 && s == 0x04 && p == 0x01 {
            HwDeviceIfce::PciToPciBridgeSubtractiveDecode
        } else if c == 0x06 && s == 0x01 && p == 0x00 {
            HwDeviceIfce::PciToIsaBridge
        } else if let Some(uart) = uart_interface_exec(c, s, p) {
            uart
        } else if c == 0x08 && s == 0x00 && (p == 0x10 || p == 0x20) {
            HwDeviceIfce::IoApic
        } else if c == 0x08 && s == 0x02 && p == 0x03 {
            HwDeviceIfce::HighPrecisionEventTimer
        } else if c == 0x08 && s == 0x05 && p == 0x00 {
            HwDeviceIfce::SdHostController
        } else if c == 0x0c && s == 0x03 && p == 0x20 {
            HwDeviceIfce::EhciUsbHostController
        } else if c == 0x0c && s == 0x03 && p == 0x30 {
            HwDeviceIfce::XhciUsbHostController
        } else if c == 0x0c && s == 0x03 && p == 0x40 {
            HwDeviceIfce::Usb4Router
        } else if c == 0x0c && s == 0x05 && p == 0x00 {
            HwDeviceIfce::SmBusController
        } else if c == 0x0c && s == 0x07 && p == 0x01 {
            HwDeviceIfce::IpmiKcs
        } else {
            HwDeviceIfce::Unknown
        }
    }
}

impl vstd::std_specs::convert::FromSpecImpl<PciIdentifier> for HwDeviceIfce {
    open spec fn obeys_from_spec() -> bool {
        true
    }

    open spec fn from_spec(id: PciIdentifier) -> HwDeviceIfce {
        hw_interface_of(id)
    }
}

impl HwDeviceIfce {
    /// The interface presented by the PCI function with identifier `id`.
    pub fn of_pci_function(id: PciIdentifier) -> (r: HwDeviceIfce)
        ensures
            r == hw_interface_of(id),
    {
        HwDeviceIfce::from(id)
    }
}

impl HwDeviceIfce {
    /// The human readable name of the interface, for user queries and logging.
    pub open spec fn name_spec(self) -> &'static str {
        match self {
            HwDeviceIfce::Unknown => "Unrecognized Device Interface",
            HwDeviceIfce::Unsupported => "Unsupported Device Interface",
            HwDeviceIfce::Ns16550Uart => "NS16550A compatible UART",
            HwDeviceIfce::Ns16650Uart => "NS16650 compatible UART",
            HwDeviceIfce::Ns16750Uart => "NS16750 compatible UART",
            HwDeviceIfce::Ns16850Uart => "NS16850 compatible UART",
            HwDeviceIfce::Ns16950Uart => "NS16950 compatible UART",
            HwDeviceIfce::Ns16550MultiPortUart => "NS16550A compatible Multi-Port UART",
            HwDeviceIfce::Ns16650MultiPortUart => "NS16650 compatible Multi-Port UART",
            HwDeviceIfce::Ns16750MultiPortUart => "NS16750 compatible Multi-Port UART",
            HwDeviceIfce::Ns16850MultiPortUart => "NS16850 compatible Multi-Port UART",
            HwDeviceIfce::Ns16950MultiPortUart => "NS16950 compatible Multi-Port UART",
            HwDeviceIfce::I2CHostController => "Inter-Integrated Circuit (I2C) Host Controller",
            HwDeviceIfce::SpiHostController => "Serial Peripheral Interface (SPI) Host Controller",
            HwDeviceIfce::AhciSataController => "AHCI SATA Controller",
            HwDeviceIfce::SdHostController => "SD Host Controller",
            HwDeviceIfce::ScsiSasController => "Serial Attached SCSI Controller",
            HwDeviceIfce::PcieHostBridge => "PCI Express Host Bridge",
            HwDeviceIfce::PciToPciBridgeNormalDecode => "PCI (Express) to PCI (Express) Bridge (Normal Decode)",
            HwDeviceIfce::PciToPciBridgeSubtractiveDecode => "PCI (Express) to PCI (Express) Bridge (Subtractive Decode)",
            HwDeviceIfce::PciToIsaBridge => "PCI to Legacy ISA Bus Bridge",
            HwDeviceIfce::NvmExpressController => "Non-Volatile Memory Express (NVMe) Controller",
            HwDeviceIfce::Usb4Router => "USB4 Router",
            HwDeviceIfce::XhciUsbHostController => "xHCI compatible USB Host Controller",
            HwDeviceIfce::EhciUsbHostController => "EHCI compatible USB Host Controller",
            HwDeviceIfce::UsbHidClass => "USB Human Interface Device (HID) Class Device",
            HwDeviceIfce::CdcAcmVirtualSerial => "USB Communications Device Class (CDC) Abstract Control Model (ACM) Serial Device",
            HwDeviceIfce::CdcNcmVirtualEthernet => "USB Communications Device Class (CDC) Network Control Model (NCM) Ethernet Device",
            HwDeviceIfce::IpmiKcs => "IPMI KCS Interface",
            HwDeviceIfce::AmdGpu => "AMD VGA Compatible Device, Model Unknown",
            HwDeviceIfce::ArmGpu => "Arm VGA Compatible Device, Model Unknown",
            HwDeviceIfce::IntelGpu => "Intel VGA Compatible Device, Model Unknown",
            HwDeviceIfce::NvidiaGpu => "Nvidia VGA Compatible Device, Model Unknown",
            HwDeviceIfce::UefiGopFramebuffer => "UEFI Graphics Output Protocol (GOP) Framebuffer",
            HwDeviceIfce::UsbBulkDisplayClass => "USB Bulk Display Class Device",
            HwDeviceIfce::VirtioGpu => "VirtIO GPU",
            HwDeviceIfce::I8042InputController => "i8042 (PS/2) Compatible Interface",
            HwDeviceIfce::IoApic => "IOAPIC/IOxAPIC (I/O Advanced Programmable Interrupt Controller)",
            HwDeviceIfce::SmBusController => "System Management Bus (SMBus) Controller",
            HwDeviceIfce::IntelVtdIommu => "Intel VT-d IOMMU (Intel Virtualization Technology for Directed I/O)",
            HwDeviceIfce::AmdViIommu => "AMD-V IOMMU (Virtualization Technology for I/O)",
            HwDeviceIfce::HighPrecisionEventTimer => "High Precision Event Timer (HPET)",
        }
    }

    /// The human readable name of the interface, for user queries and logging.
    pub fn name(&self) -> (r: &'static str)
        ensures
            r@ == self.name_spec()@,
    {
        match self {
            HwDeviceIfce::Unknown => "Unrecognized Device Interface",
            HwDeviceIfce::Unsupported => "Unsupported Device Interface",
            HwDeviceIfce::Ns16550Uart => "NS16550A compatible UART",
            HwDeviceIfce::Ns16650Uart => "NS16650 compatible UART",
            HwDeviceIfce::Ns16750Uart => "NS16750 compatible UART",
            HwDeviceIfce::Ns16850Uart => "NS16850 compatible UART",
            HwDeviceIfce::Ns16950Uart => "NS16950 compatible UART",
            HwDeviceIfce::Ns16550MultiPortUart => "NS16550A compatible Multi-Port UART",
            HwDeviceIfce::Ns16650MultiPortUart => "NS16650 compatible Multi-Port UART",
            HwDeviceIfce::Ns16750MultiPortUart => "NS16750 compatible Multi-Port UART",
            HwDeviceIfce::Ns16850MultiPortUart => "NS16850 compatible Multi-Port UART",
            HwDeviceIfce::Ns16950MultiPortUart => "NS16950 compatible Multi-Port UART",
            HwDeviceIfce::I2CHostController => "Inter-Integrated Circuit (I2C) Host Controller",
            HwDeviceIfce::SpiHostController => "Serial Peripheral Interface (SPI) Host Controller",
            HwDeviceIfce::AhciSataController => "AHCI SATA Controller",
            HwDeviceIfce::SdHostController => "SD Host Controller",
            HwDeviceIfce::ScsiSasController => "Serial Attached SCSI Controller",
            HwDeviceIfce::PcieHostBridge => "PCI Express Host Bridge",
            HwDeviceIfce::PciToPciBridgeNormalDecode => "PCI (Express) to PCI (Express) Bridge (Normal Decode)",
            HwDeviceIfce::PciToPciBridgeSubtractiveDecode => "PCI (Express) to PCI (Express) Bridge (Subtractive Decode)",
            HwDeviceIfce::PciToIsaBridge => "PCI to Legacy ISA Bus Bridge",
            HwDeviceIfce::NvmExpressController => "Non-Volatile Memory Express (NVMe) Controller",
            HwDeviceIfce::Usb4Router => "USB4 Router",
            HwDeviceIfce::XhciUsbHostController => "xHCI compatible USB Host Controller",
            HwDeviceIfce::EhciUsbHostController => "EHCI compatible USB Host Controller",
            HwDeviceIfce::UsbHidClass => "USB Human Interface Device (HID) Class Device",
            HwDeviceIfce::CdcAcmVirtualSerial => "USB Communications Device Class (CDC) Abstract Control Model (ACM) Serial Device",
            HwDeviceIfce::CdcNcmVirtualEthernet => "USB Communications Device Class (CDC) Network Control Model (NCM) Ethernet Device",
            HwDeviceIfce::IpmiKcs => "IPMI KCS Interface",
            HwDeviceIfce::AmdGpu => "AMD VGA Compatible Device, Model Unknown",
            HwDeviceIfce::ArmGpu => "Arm VGA Compatible Device, Model Unknown",
            HwDeviceIfce::IntelGpu => "Intel VGA Compatible Device, Model Unknown",
            HwDeviceIfce::NvidiaGpu => "Nvidia VGA Compatible Device, Model Unknown",
            HwDeviceIfce::UefiGopFramebuffer => "UEFI Graphics Output Protocol (GOP) Framebuffer",
            HwDeviceIfce::UsbBulkDisplayClass => "USB Bulk Display Class Device",
            HwDeviceIfce::VirtioGpu => "VirtIO GPU",
            HwDeviceIfce::I8042InputController => "i8042 (PS/2) Compatible Interface",
            HwDeviceIfce::IoApic => "IOAPIC/IOxAPIC (I/O Advanced Programmable Interrupt Controller)",
            HwDeviceIfce::SmBusController => "System Management Bus (SMBus) Controller",
            HwDeviceIfce::IntelVtdIommu => "Intel VT-d IOMMU (Intel Virtualization Technology for Directed I/O)",
            HwDeviceIfce::AmdViIommu => "AMD-V IOMMU (Virtualization Technology for I/O)",
            HwDeviceIfce::HighPrecisionEventTimer => "High Precision Event Timer (HPET)",
        }
    }
}


/// Different device interfaces have different names.
pub proof fn lemma_names_distinct(a: HwDeviceIfce, b: HwDeviceIfce)
    requires
        a != b,
    ensures
        a.name_spec()@ != b.name_spec()@,
{
        reveal_strlit("Unrecognized Device Interface");
        reveal_strlit("Unsupported Device Interface");
        reveal_strlit("NS16550A compatible UART");
        reveal_strlit("NS16650 compatible UART");
        reveal_strlit("NS16750 compatible UART");
        reveal_strlit("NS16850 compatible UART");
        reveal_strlit("NS16950 compatible UART");
        reveal_strlit("NS16550A compatible Multi-Port UART");
        reveal_strlit("NS16650 compatible Multi-Port UART");
        reveal_strlit("NS16750 compatible Multi-Port UART");
        reveal_strlit("NS16850 compatible Multi-Port UART");
        reveal_strlit("NS16950 compatible Multi-Port UART");
        reveal_strlit("Inter-Integrated Circuit (I2C) Host Controller");
        reveal_strlit("Serial Peripheral Interface (SPI) Host Controller");
        reveal_strlit("AHCI SATA Controller");
        reveal_strlit("SD Host Controller");
        reveal_strlit("Serial Attached SCSI Controller");
        reveal_strlit("PCI Express Host Bridge");
        reveal_strlit("PCI (Express) to PCI (Express) Bridge (Normal Decode)");
        reveal_strlit("PCI (Express) to PCI (Express) Bridge (Subtractive Decode)");
        reveal_strlit("PCI to Legacy ISA Bus Bridge");
        reveal_strlit("Non-Volatile Memory Express (NVMe) Controller");
        reveal_strlit("USB4 Router");
        reveal_strlit("xHCI compatible USB Host Controller");
        reveal_strlit("EHCI compatible USB Host Controller");
        reveal_strlit("USB Human Interface Device (HID) Class Device");
        reveal_strlit("USB Communications Device Class (CDC) Abstract Control Model (ACM) Serial Device");
        reveal_strlit("USB Communications Device Class (CDC) Network Control Model (NCM) Ethernet Device");
        reveal_strlit("IPMI KCS Interface");
        reveal_strlit("AMD VGA Compatible Device, Model Unknown");
        reveal_strlit("Arm VGA Compatible Device, Model Unknown");
        reveal_strlit("Intel VGA Compatible Device, Model Unknown");
        reveal_strlit("Nvidia VGA Compatible Device, Model Unknown");
        reveal_strlit("UEFI Graphics Output Protocol (GOP) Framebuffer");
        reveal_strlit("USB Bulk Display Class Device");
        reveal_strlit("VirtIO GPU");
        reveal_strlit("i8042 (PS/2) Compatible Interface");
        reveal_strlit("IOAPIC/IOxAPIC (I/O Advanced Programmable Interrupt Controller)");
        reveal_strlit("System Management Bus (SMBus) Controller");
        reveal_strlit("Intel VT-d IOMMU (Intel Virtualization Technology for Directed I/O)");
        reveal_strlit("AMD-V IOMMU (Virtualization Technology for I/O)");
        reveal_strlit("High Precision Event Timer (HPET)");
    let na = a.name_spec()@;
    let nb = b.name_spec()@;
    if na == nb {
        assert(na.len() == nb.len() && na[0] == nb[0] && na[1] == nb[1] && na[4] == nb[4]);
    }
}

/// A device interface's name is a single line: it holds neither a line feed nor a carriage
/// return, and it is not empty.
pub proof fn lemma_name_single_line(a: HwDeviceIfce)
    ensures
        a.name_spec()@.len() > 0,
        forall|i: int| 0 <= i < a.name_spec()@.len() ==> a.name_spec()@[i] != '\n' && a.name_spec()@[i] != '\r',
{
        reveal_strlit("Unrecognized Device Interface");
        reveal_strlit("Unsupported Device Interface");
        reveal_strlit("NS16550A compatible UART");
        reveal_strlit("NS16650 compatible UART");
        reveal_strlit("NS16750 compatible UART");
        reveal_strlit("NS16850 compatible UART");
        reveal_strlit("NS16950 compatible UART");
        reveal_strlit("NS16550A compatible Multi-Port UART");
        reveal_strlit("NS16650 compatible Multi-Port UART");
        reveal_strlit("NS16750 compatible Multi-Port UART");
        reveal_strlit("NS16850 compatible Multi-Port UART");
        reveal_strlit("NS16950 compatible Multi-Port UART");
        reveal_strlit("Inter-Integrated Circuit (I2C) Host Controller");
        reveal_strlit("Serial Peripheral Interface (SPI) Host Controller");
        reveal_strlit("AHCI SATA Controller");
        reveal_strlit("SD Host Controller");
        reveal_strlit("Serial Attached SCSI Controller");
        reveal_strlit("PCI Express Host Bridge");
        reveal_strlit("PCI (Express) to PCI (Express) Bridge (Normal Decode)");
        reveal_strlit("PCI (Express) to PCI (Express) Bridge (Subtractive Decode)");
        reveal_strlit("PCI to Legacy ISA Bus Bridge");
        reveal_strlit("Non-Volatile Memory Express (NVMe) Controller");
        reveal_strlit("USB4 Router");
        reveal_strlit("xHCI compatible USB Host Controller");
        reveal_strlit("EHCI compatible USB Host Controller");
        reveal_strlit("USB Human Interface Device (HID) Class Device");
        reveal_strlit("USB Communications Device Class (CDC) Abstract Control Model (ACM) Serial Device");
        reveal_strlit("USB Communications Device Class (CDC) Network Control Model (NCM) Ethernet Device");
        reveal_strlit("IPMI KCS Interface");
        reveal_strlit("AMD VGA Compatible Device, Model Unknown");
        reveal_strlit("Arm VGA Compatible Device, Model Unknown");
        reveal_strlit("Intel VGA Compatible Device, Model Unknown");
        reveal_strlit("Nvidia VGA Compatible Device, Model Unknown");
        reveal_strlit("UEFI Graphics Output Protocol (GOP) Framebuffer");
        reveal_strlit("USB Bulk Display Class Device");
        reveal_strlit("VirtIO GPU");
        reveal_strlit("i8042 (PS/2) Compatible Interface");
        reveal_strlit("IOAPIC/IOxAPIC (I/O Advanced Programmable Interrupt Controller)");
        reveal_strlit("System Management Bus (SMBus) Controller");
        reveal_strlit("Intel VT-d IOMMU (Intel Virtualization Technology for Directed I/O)");
        reveal_strlit("AMD-V IOMMU (Virtualization Technology for I/O)");
        reveal_strlit("High Precision Event Timer (HPET)");
}


/// The function with class code `c`, subclass `s` and programming interface `p`.
pub open spec fn has_class(id: PciIdentifier, c: u8, s: u8, p: u8) -> bool {
    id.class_code == c && id.subclass == s && id.prog_if == p
}

/// The device-class table: each class triple names its interface, whatever the vendor, except
/// that VGA-compatible display controllers and IOMMUs are named by their vendor (AMD 0x1002,
/// Intel 0x8086, Nvidia 0x10de) and are unknown for any other vendor; any other triple is unknown.
pub proof fn lemma_device_class_table(id: PciIdentifier)
    ensures
        has_class(id, 0x01, 0x06, 0x01) ==> hw_interface_of(id) == HwDeviceIfce::AhciSataController,
        has_class(id, 0x01, 0x07, 0x00) ==> hw_interface_of(id) == HwDeviceIfce::ScsiSasController,
        has_class(id, 0x01, 0x08, 0x02) ==> hw_interface_of(id) == HwDeviceIfce::NvmExpressController,
        has_class(id, 0x06, 0x00, 0x00) ==> hw_interface_of(id) == HwDeviceIfce::PcieHostBridge,
        has_class(id, 0x06, 0x04, 0x00) ==> hw_interface_of(id) == HwDeviceIfce::PciToPciBridgeNormalDecode,
        has_class(id, 0x06, 0x04, 0x01) ==> hw_interface_of(id) == HwDeviceIfce::PciToPciBridgeSubtractiveDecode,
        has_class(id, 0x06, 0x01, 0x00) ==> hw_interface_of(id) == HwDeviceIfce::PciToIsaBridge,
        has_class(id, 0x07, 0x00, 0x02) ==> hw_interface_of(id) == HwDeviceIfce::Ns16550Uart,
        has_class(id, 0x07, 0x00, 0x03) ==> hw_interface_of(id) == HwDeviceIfce::Ns16650Uart,
        has_class(id, 0x07, 0x00, 0x04) ==> hw_interface_of(id) == HwDeviceIfce::Ns16750Uart,
        has_class(id, 0x07, 0x00, 0x05) ==> hw_interface_of(id) == HwDeviceIfce::Ns16850Uart,
        has_class(id, 0x07, 0x00, 0x06) ==> hw_interface_of(id) == HwDeviceIfce::Ns16950Uart,
        has_class(id, 0x07, 0x01, 0x02) ==> hw_interface_of(id) == HwDeviceIfce::Ns16550MultiPortUart,
        has_class(id, 0x07, 0x01, 0x03) ==> hw_interface_of(id) == HwDeviceIfce::Ns16650MultiPortUart,
        has_class(id, 0x07, 0x01, 0x04) ==> hw_interface_of(id) == HwDeviceIfce::Ns16750MultiPortUart,
        has_class(id, 0x07, 0x01, 0x05) ==> hw_interface_of(id) == HwDeviceIfce::Ns16850MultiPortUart,
        has_class(id, 0x07, 0x01, 0x06) ==> hw_interface_of(id) == HwDeviceIfce::Ns16950MultiPortUart,
        has_class(id, 0x08, 0x00, 0x10) ==> hw_interface_of(id) == HwDeviceIfce::IoApic,
        has_class(id, 0x08, 0x00, 0x20) ==> hw_interface_of(id) == HwDeviceIfce::IoApic,
        has_class(id, 0x08, 0x02, 0x03) ==> hw_interface_of(id) == HwDeviceIfce::HighPrecisionEventTimer,
        has_class(id, 0x08, 0x05, 0x00) ==> hw_interface_of(id) == HwDeviceIfce::SdHostController,
        has_class(id, 0x0c, 0x03, 0x20) ==> hw_interface_of(id) == HwDeviceIfce::EhciUsbHostController,
        has_class(id, 0x0c, 0x03, 0x30) ==> hw_interface_of(id) == HwDeviceIfce::XhciUsbHostController,
        has_class(id, 0x0c, 0x03, 0x40) ==> hw_interface_of(id) == HwDeviceIfce::Usb4Router,
        has_class(id, 0x0c, 0x05, 0x00) ==> hw_interface_of(id) == HwDeviceIfce::SmBusController,
        has_class(id, 0x0c, 0x07, 0x01) ==> hw_interface_of(id) == HwDeviceIfce::IpmiKcs,
        has_class(id, 0x03, 0x00, 0x00) ==> hw_interface_of(id) == (if id.vendor_id == 0x1002 {
            HwDeviceIfce::AmdGpu
        } else if id.vendor_id == 0x8086 {
            HwDeviceIfce::IntelGpu
        } else if id.vendor_id == 0x10de {
            HwDeviceIfce::NvidiaGpu
        } else {
            HwDeviceIfce::Unknown
        }),
        has_class(id, 0x08, 0x06, 0x00) ==> hw_interface_of(id) == (if id.vendor_id == 0x1002 {
            HwDeviceIfce::AmdViIommu
        } else if id.vendor_id == 0x8086 {
            HwDeviceIfce::IntelVtdIommu
        } else {
            HwDeviceIfce::Unknown
        }),
        !(id.class_code == 0x01 || id.class_code == 0x03 || id.class_code == 0x06 || id.class_code == 0x07
            || id.class_code == 0x08 || id.class_code == 0x0c) ==> hw_interface_of(id) == HwDeviceIfce::Unknown,
{
}

/// Outside the VGA-compatible display and IOMMU classes the vendor plays no part: two functions
/// with the same class triple present the same interface.
pub proof fn lemma_interface_independent_of_vendor(a: PciIdentifier, b: PciIdentifier)
    requires
        a.class_triple() == b.class_triple(),
        !has_class(a, 0x03, 0x00, 0x00),
        !has_class(a, 0x08, 0x06, 0x00),
    ensures
        hw_interface_of(a) == hw_interface_of(b),
{
}

} // verus!
