//! Aether: PCI configuration-space addressing and device identification.
use vstd::prelude::*;
use vstd::string::StringExecFns;
use crate::drivers::manager::{Device, DeviceType};
use crate::safe_alloc::{digits, push_digits};

verus! {

/// The configuration address selecting `offset` (dword aligned) of function
/// `func` of device `slot` on bus `bus`, with the enable bit set.
pub open spec fn config_address_spec(bus: u8, slot: u8, func: u8, offset: u8) -> u32 {
    ((bus as u32) << 16u32) | ((slot as u32) << 11u32) | ((func as u32) << 8u32) | ((offset as u32)
        & 0xFCu32) | 0x8000_0000u32
}

/// The value written to the configuration address port before reading a
/// configuration dword.
pub fn pci_config_address(bus: u8, slot: u8, func: u8, offset: u8) -> (a: u32)
    ensures
        a == config_address_spec(bus, slot, func, offset),
{
    ((bus as u32) << 16) | ((slot as u32) << 11) | ((func as u32) << 8) | ((offset as u32) & 0xFC)
        | 0x8000_0000
}

/// For a device number below 32 and a function below 8 the address encodes
/// each field in its own bits: enable bit set, bus, device, function, and the
/// register offset rounded down to a dword.
pub proof fn lemma_config_address_fields(bus: u8, slot: u8, func: u8, offset: u8)
    requires
        slot < 32,
        func < 8,
    ensures
        config_address_spec(bus, slot, func, offset) & 0x8000_0000 != 0,
        config_address_spec(bus, slot, func, offset) & 3 == 0,
        (config_address_spec(bus, slot, func, offset) >> 16u32) & 0xFF == bus,
        (config_address_spec(bus, slot, func, offset) >> 11u32) & 0x1F == slot,
        (config_address_spec(bus, slot, func, offset) >> 8u32) & 0x7 == func,
        config_address_spec(bus, slot, func, offset) & 0xFC == offset & 0xFC,
{
    let (b, s, f, o) = (bus as u32, slot as u32, func as u32, offset as u32);
    assert({
        let a = (b << 16u32) | (s << 11u32) | (f << 8u32) | (o & 0xFCu32) | 0x8000_0000u32;
        &&& a & 0x8000_0000 != 0
        &&& a & 3 == 0
        &&& (a >> 16u32) & 0xFF == b
        &&& (a >> 11u32) & 0x1F == s
        &&& (a >> 8u32) & 0x7 == f
        &&& a & 0xFC == o & 0xFC
    }) by (bit_vector)
        requires
            b < 256,
            s < 32,
            f < 8,
            o < 256,
    ;
}

/// The vendor and device ids in the first configuration dword of a function,
/// or `None` when no device answers (vendor 0xFFFF).
pub fn device_ids(dword: u32) -> (ids: Option<(u32, u32)>)
    ensures
        dword & 0xFFFF == 0xFFFF ==> ids is None,
        dword & 0xFFFF != 0xFFFF ==> ids == Some((dword & 0xFFFF, (dword >> 16u32) & 0xFFFF)),
{
    let vendor_id = dword & 0xFFFF;
    if vendor_id != 0xFFFF {
        Some((vendor_id, (dword >> 16) & 0xFFFF))
    } else {
        None
    }
}

/// The name under which a PCI function is registered: "PCI-<vendor>:<device>",
/// both ids in lower-case hexadecimal.
pub open spec fn pci_device_name(vendor_id: u32, device_id: u32) -> Seq<char> {
    "PCI-"@ + digits(vendor_id as nat, 16) + ":"@ + digits(device_id as nat, 16)
}

/// Where a PCI function sits: "PCI Bus <bus>, Slot <slot>", in decimal.
pub open spec fn pci_bus_info(bus: u8, slot: u8) -> Seq<char> {
    "PCI Bus "@ + digits(bus as nat, 10) + ", Slot "@ + digits(slot as nat, 10)
}

/// The device to register for the first configuration dword read at `bus`,
/// `slot`, function 0: `None` when no device answers there.
pub fn discovered_device(bus: u8, slot: u8, dword: u32) -> (d: Option<Device>)
    ensures
        dword & 0xFFFF == 0xFFFF ==> d is None,
        dword & 0xFFFF != 0xFFFF ==> (d matches Some(dev) && {
            &&& dev.name@ == pci_device_name(dword & 0xFFFF, (dword >> 16u32) & 0xFFFF)
            &&& dev.device_type == DeviceType::Unknown
            &&& (dev.bus_info matches Some(b) && b@ == pci_bus_info(bus, slot))
        }),
{
    match device_ids(dword) {
        None => None,
        Some((vendor_id, device_id)) => {
            let mut name = String::from_str("PCI-");
            push_digits(&mut name, vendor_id, 16);
            name.append(":");
            push_digits(&mut name, device_id, 16);
            let mut info = String::from_str("PCI Bus ");
            push_digits(&mut info, bus as u32, 10);
            info.append(", Slot ");
            push_digits(&mut info, slot as u32, 10);
            Some(Device { name, device_type: DeviceType::Unknown, bus_info: Some(info) })
        },
    }
}

} // verus!
