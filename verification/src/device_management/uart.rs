//! Universal asynchronous receiver/transmitter drivers.
use vstd::prelude::*;

use crate::device_management::drivers;

verus! {

pub type BaudRate = u32;

/// Errors of UART drivers.
#[derive(Debug, Clone, Copy, PartialEq, Eq, Structural)]
pub enum Error {
    GenericDriverError(drivers::Error),
    BaudNotConfigurable,
}

/// The control plane of a UART, which its driver implements.
pub trait Uart {
    fn get_valid_baud_rates(&self) -> Result<&[BaudRate], Error>;

    fn set_baud_rate(&mut self, baud_rate: BaudRate) -> Result<BaudRate, Error>;

    fn get_baud_rate(&self) -> Result<BaudRate, Error>;

    fn enable_interrupts(&mut self) -> Result<(), Error>;

    fn disable_interrupts(&mut self) -> Result<(), Error>;

    fn are_interrupts_enabled(&self) -> Result<bool, Error>;

    fn is_interrupt_pending(&self) -> Result<bool, Error>;
}

} // verus!
