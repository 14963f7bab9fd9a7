pub mod acpi;
pub mod addr_map;
pub mod bitwise;
pub mod device_management;
pub mod byte_order;
pub mod hw_interface;
pub mod i8042;
pub mod int_state;
pub mod ioapic;
pub mod interrupt_routing;
pub mod multiprocessor;
pub mod mutex;
pub mod pci;
pub mod rwlock;
pub mod scheduler;
pub mod semaphore;
pub mod uacpi_host;
pub mod uacpi_interrupts;
pub mod work_queue;
