//! Hardware fingerprinting from the CPU identification registers.
use vstd::prelude::*;
use crate::safe_alloc::{short_ascii, string_bytes, string_from_utf8_bytes};

verus! {

/// Represents the hardware identity of the system.
#[derive(Debug)]
pub struct HardwareFingerprint {
    /// CPU vendor string.
    pub cpu_vendor: String,
    /// Whether the CPU supports 1GB pages.
    pub has_huge_pages: bool,
}

/// The four little-endian bytes of a register.
pub open spec fn reg_bytes(r: u32) -> Seq<u8> {
    seq![(r % 256) as u8, ((r / 256) % 256) as u8, ((r / 65536) % 256) as u8, (r / 16777216) as u8]
}

/// The 12 vendor bytes of leaf 0: EBX, then EDX, then ECX.
pub open spec fn vendor_bytes_spec(ebx: u32, edx: u32, ecx: u32) -> Seq<u8> {
    reg_bytes(ebx) + reg_bytes(edx) + reg_bytes(ecx)
}

fn push_reg(buf: &mut Vec<u8>, r: u32)
    ensures
        final(buf)@ == old(buf)@ + reg_bytes(r),
{
    buf.push((r % 256) as u8);
    buf.push(((r / 256) % 256) as u8);
    buf.push(((r / 65536) % 256) as u8);
    buf.push((r / 16777216) as u8);
    assert(buf@ =~= old(buf)@ + reg_bytes(r));
}

/// The vendor identification bytes of CPUID leaf 0.
pub fn vendor_bytes(ebx: u32, edx: u32, ecx: u32) -> (v: Vec<u8>)
    ensures
        v@ == vendor_bytes_spec(ebx, edx, ecx),
{
    let mut v: Vec<u8> = Vec::with_capacity(12);
    push_reg(&mut v, ebx);
    push_reg(&mut v, edx);
    push_reg(&mut v, ecx);
    v
}

/// Whether EDX of CPUID leaf 0x8000_0001 reports 1 GiB pages (bit 26).
pub fn supports_huge_pages(ext_edx: u32) -> (b: bool)
    ensures
        b == (ext_edx & 0x400_0000 != 0),
{
    ext_edx & 0x400_0000 != 0
}

/// The fingerprint from the CPUID registers: the vendor string (or
/// "InvalidVendorString" when its bytes are not UTF-8) and 1 GiB page support.
pub fn gather_from(ebx: u32, edx: u32, ecx: u32, ext_edx: u32) -> (fp: HardwareFingerprint)
    ensures
        vstd::utf8::valid_utf8(vendor_bytes_spec(ebx, edx, ecx)) ==> string_bytes(fp.cpu_vendor)
            == vendor_bytes_spec(ebx, edx, ecx),
        !vstd::utf8::valid_utf8(vendor_bytes_spec(ebx, edx, ecx)) ==> fp.cpu_vendor@
            == "InvalidVendorString"@,
        fp.has_huge_pages == (ext_edx & 0x400_0000 != 0),
{
    let bytes = vendor_bytes(ebx, edx, ecx);
    let cpu_vendor = match string_from_utf8_bytes(bytes) {
        Some(s) => s,
        None => {
            proof {
                reveal_strlit("InvalidVendorString");
            }
            short_ascii("InvalidVendorString")
        },
    };
    HardwareFingerprint { cpu_vendor, has_huge_pages: supports_huge_pages(ext_edx) }
}

} // verus!
