//! Driver proxies: the kernel-side handle of a driver isolated in userspace.
use vstd::prelude::*;
use vstd::string::StringExecFns;
use crate::drivers::manager::{register, Device, DeviceManager, DeviceType};
use crate::synapse::{Dialect, Message, Prosody};

verus! {

/// Represents a proxy for a driver running in userspace.
#[derive(Debug)]
pub struct DriverProxy {
    /// Name of the device.
    pub device_name: String,
    /// ID of the capability token assigned to this driver.
    pub capability_token_id: u64,
}

/// The message that forwards `command` to a userspace driver.
pub open spec fn command_message(m: Message, command: Seq<char>) -> bool {
    &&& m.sender@ == "KernelProxy"@
    &&& m.target@ == "UserSpaceDriver"@
    &&& m.intent@ == "Command: "@ + command
    &&& m.payload is None
    &&& m.prosody == Prosody::Calm
    &&& m.dialect == Dialect::NaturalLanguage
    &&& m.frame is None
}

impl DriverProxy {
    /// Create a new driver proxy.
    pub fn new(device_name: String, token_id: u64) -> (p: Self)
        ensures
            p.device_name == device_name,
            p.capability_token_id == token_id,
    {
        Self { device_name, capability_token_id: token_id }
    }

    /// The Synapse message that forwards `command` to the userspace driver.
    pub fn dispatch_command(&self, command: &str) -> (m: Message)
        ensures
            command_message(m, command@),
    {
        let mut intent = String::from_str("Command: ");
        intent.append(command);
        Message::new("KernelProxy", "UserSpaceDriver", intent)
    }
}

/// Moves a device behind a userspace proxy: registers "Proxy-<name>" with the
/// manager, "Isolated via Stark" as its bus information, and returns the
/// initialisation command sent to the proxy.
pub fn isolate_device(manager: &mut DeviceManager, name: &str, device_type: DeviceType) -> (m:
    Message)
    ensures
        command_message(m, "INIT_ISOLATED"@),
        final(manager).devices().len() == old(manager).devices().len() + 1,
        final(manager).devices().drop_last() == old(manager).devices(),
        final(manager).devices().last().name@ == "Proxy-"@ + name@,
        final(manager).devices().last().device_type == device_type,
        final(manager).devices().last().bus_info matches Some(b) && b@
            == "Isolated via Stark"@,
{
    let proxy = DriverProxy::new(String::from_str(name), 0);
    let m = proxy.dispatch_command("INIT_ISOLATED");
    let mut proxy_name = String::from_str("Proxy-");
    proxy_name.append(name);
    let device = Device {
        name: proxy_name,
        device_type,
        bus_info: Some(String::from_str("Isolated via Stark")),
    };
    register(manager, device);
    assert(manager.devices().drop_last() =~= old(manager).devices());
    m
}

} // verus!
