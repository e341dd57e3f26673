//! Hephaestus: the registry of discovered hardware devices.
use vstd::prelude::*;

verus! {

/// Type of hardware device.
#[derive(Debug, Clone, Copy, PartialEq, Eq, Structural)]
pub enum DeviceType {
    /// Network interface.
    Network,
    /// Storage controller.
    Storage,
    /// Display adapter.
    Display,
    /// Input device (Keyboard/Mouse).
    Input,
    /// Unknown device.
    Unknown,
}

/// Represents a discovered hardware device.
#[derive(Debug)]
pub struct Device {
    /// Name of the device.
    pub name: String,
    /// Category of the device.
    pub device_type: DeviceType,
    /// PCI address (if applicable).
    pub bus_info: Option<String>,
}

/// The registry of devices, in registration order.
pub struct DeviceManager {
    devices: Vec<Device>,
}

impl DeviceManager {
    /// The registered devices, in registration order.
    pub closed spec fn devices(&self) -> Seq<Device> {
        self.devices@
    }

    /// An empty registry, with room reserved for 64 devices.
    pub fn new() -> (m: Self)
        ensures
            m.devices().len() == 0,
    {
        DeviceManager { devices: Vec::with_capacity(64) }
    }

    /// Number of registered devices.
    pub fn len(&self) -> (n: usize)
        ensures
            n == self.devices().len(),
    {
        self.devices.len()
    }

    /// The device registered at position `i`.
    pub fn get(&self, i: usize) -> (d: &Device)
        requires
            i < self.devices().len(),
        ensures
            *d == self.devices()[i as int],
    {
        &self.devices[i]
    }
}

/// Register a new device with the manager: it is appended after the others.
pub fn register(manager: &mut DeviceManager, device: Device)
    ensures
        final(manager).devices() == old(manager).devices().push(device),
{
    manager.devices.push(device);
}

} // verus!
