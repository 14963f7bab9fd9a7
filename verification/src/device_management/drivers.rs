//! What device drivers have in common.
use vstd::prelude::*;

use std::sync::Arc;

use crate::device_management::DeviceLocation;

verus! {

/// Errors of device drivers.
#[derive(Debug, Clone, Copy, PartialEq, Eq, Structural)]
pub enum Error {
    DeviceNotRecognized,
    InitializationFailed,
    DeinitializationFailed,
    DeviceAlreadyBoundToDriver,
}

/// Marker for the control planes of busses.
pub trait BusControlPlane {}

/// The power state a device is asked to enter: fully on, the two intermediate device states,
/// and off with or without its power rail.
#[derive(Debug, Clone, Copy, PartialEq, Eq, Structural)]
pub enum PowerState {
    D0,
    D1,
    D2,
    D3Hot,
    D3Cold,
}

/// The top level trait that all device class specific control planes implement.
pub trait DeviceClassControlPlane {
    type Status;

    fn get_status(&self) -> Box<Self::Status>;

    fn transition_power_state(&mut self, state: PowerState) -> Result<(), Error>;
}

/// The control plane of an endpoint device: a device class control plane found at a location.
pub trait EndpointControlPlane: DeviceClassControlPlane {
    fn get_location(&self) -> &DeviceLocation;
}

/// The control plane of a USB host controller, which is both a bus and an endpoint.
pub trait UsbHciControlPlane: BusControlPlane + EndpointControlPlane {
    fn get_usb_version(self: Arc<Self>) -> u8;

    fn get_maximum_speed(self: Arc<Self>) -> u8;

    fn get_number_of_ports(self: Arc<Self>) -> u8;

    fn get_port_status(self: Arc<Self>, port_number: u8) -> u8;
}

} // verus!
