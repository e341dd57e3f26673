//! Physical and virtual memory address types.
use vstd::prelude::*;

verus! {

/// True when `align` is a power of two (`2^n` for some `n < 64`).
pub open spec fn is_power_of_two(align: u64) -> bool {
    exists|n: nat| n < 64 && align == vstd::arithmetic::power2::pow2(n)
}

/// The address with the bits below `align` cleared: `addr & !(align - 1)`.
pub open spec fn align_down_spec(addr: u64, align: u64) -> u64 {
    addr & !((align - 1) as u64)
}

/// `(addr + align - 1) & !(align - 1)`.
pub open spec fn align_up_spec(addr: u64, align: u64) -> u64 {
    ((addr + align - 1) as u64) & !((align - 1) as u64)
}

/// For a power-of-two `align`, divisibility by `align` is the same as having
/// the low bits `align - 1` clear.
proof fn lemma_mod_is_low_bits(y: u64, align: u64)
    requires
        is_power_of_two(align),
    ensures
        align >= 1,
        (y % align == 0) == (y & ((align - 1) as u64) == 0),
        ((align - 1) as u64) < align,
{
    let n = choose|n: nat| n < 64 && align == vstd::arithmetic::power2::pow2(n);
    vstd::arithmetic::power2::lemma_pow2_pos(n);
    vstd::bits::lemma_u64_low_bits_mask_is_mod(y, n);
    vstd::bits::lemma_u64_pow2_no_overflow(n);
}

proof fn lemma_mask_facts(x: u64, m: u64)
    ensures
        x & !m <= x,
        (x & !m) & m == 0,
        x - (x & !m) <= m,
        x & m == 0 ==> x & !m == x,
{
    assert(x & !m <= x) by (bit_vector);
    assert((x & !m) & m == 0) by (bit_vector);
    assert(x - (x & !m) <= m) by (bit_vector);
    assert(x & m == 0 ==> x & !m == x) by (bit_vector);
}

proof fn lemma_mask_up_facts(x: u64, m: u64)
    requires
        x + m <= u64::MAX,
    ensures
        x <= ((x + m) as u64) & !m,
        (((x + m) as u64) & !m) - x <= m,
        x & m == 0 ==> ((x + m) as u64) & !m == x,
{
    let s: u64 = (x + m) as u64;
    assert(x <= s & !m && (s & !m) - x <= m) by (bit_vector)
        requires
            x + m <= 0xffff_ffff_ffff_ffff,
            s == x + m,
    ;
    assert(x & m == 0 ==> s & !m == x) by (bit_vector)
        requires
            x + m <= 0xffff_ffff_ffff_ffff,
            s == x + m,
    ;
}

/// Rounding down to a power-of-two boundary gives an aligned address at most
/// `align - 1` below the address, and leaves aligned addresses unchanged.
pub proof fn lemma_align_down_properties(addr: u64, align: u64)
    requires
        is_power_of_two(align),
    ensures
        align_down_spec(addr, align) <= addr,
        align_down_spec(addr, align) % align == 0,
        addr - align_down_spec(addr, align) < align,
        addr % align == 0 ==> align_down_spec(addr, align) == addr,
{
    let r = align_down_spec(addr, align);
    lemma_mod_is_low_bits(addr, align);
    lemma_mod_is_low_bits(r, align);
    lemma_mask_facts(addr, (align - 1) as u64);
}

/// Rounding up to a power-of-two boundary gives an aligned address at most
/// `align - 1` above the address, and leaves aligned addresses unchanged.
pub proof fn lemma_align_up_properties(addr: u64, align: u64)
    requires
        is_power_of_two(align),
        addr + align - 1 <= u64::MAX,
    ensures
        addr <= align_up_spec(addr, align),
        align_up_spec(addr, align) % align == 0,
        align_up_spec(addr, align) - addr < align,
        addr % align == 0 ==> align_up_spec(addr, align) == addr,
{
    let m = (align - 1) as u64;
    let r = align_up_spec(addr, align);
    lemma_mod_is_low_bits(addr, align);
    lemma_mod_is_low_bits(r, align);
    lemma_mask_up_facts(addr, m);
    lemma_mask_facts((addr + m) as u64, m);
}

/// Represents a physical memory address.
#[derive(Debug, Clone, Copy, PartialEq, Eq, Structural, PartialOrd, Ord)]
pub struct PhysAddr(pub u64);

/// Represents a virtual memory address.
#[derive(Debug, Clone, Copy, PartialEq, Eq, Structural, PartialOrd, Ord)]
pub struct VirtAddr(pub u64);

impl PhysAddr {
    /// Returns the address as a `u64`.
    pub fn as_u64(self) -> (r: u64)
        ensures
            r == self.0,
    {
        self.0
    }

    /// Checks if the address is aligned to the given boundary.
    pub fn is_aligned(self, align: u64) -> (r: bool)
        requires
            align != 0,
        ensures
            r == (self.0 % align == 0),
    {
        self.0 % align == 0
    }

    /// Aligns the address down to the given boundary.
    pub fn align_down(self, align: u64) -> (r: Self)
        requires
            align >= 1,
        ensures
            r.0 == align_down_spec(self.0, align),
            is_power_of_two(align) ==> r.0 <= self.0 && r.0 % align == 0 && self.0 - r.0 < align,
    {
        proof {
            if is_power_of_two(align) {
                lemma_align_down_properties(self.0, align);
            }
        }
        PhysAddr(self.0 & !(align - 1))
    }

    /// Aligns the address up to the given boundary.
    pub fn align_up(self, align: u64) -> (r: Self)
        requires
            align >= 1,
            self.0 + align - 1 <= u64::MAX,
        ensures
            r.0 == align_up_spec(self.0, align),
            is_power_of_two(align) ==> self.0 <= r.0 && r.0 % align == 0 && r.0 - self.0 < align,
    {
        proof {
            if is_power_of_two(align) {
                lemma_align_up_properties(self.0, align);
            }
        }
        PhysAddr((self.0 + (align - 1)) & !(align - 1))
    }
}

impl VirtAddr {
    /// Returns the address as a `u64`.
    pub fn as_u64(self) -> (r: u64)
        ensures
            r == self.0,
    {
        self.0
    }

    /// Checks if the address is aligned to the given boundary.
    pub fn is_aligned(self, align: u64) -> (r: bool)
        requires
            align != 0,
        ensures
            r == (self.0 % align == 0),
    {
        self.0 % align == 0
    }

    /// Aligns the address down to the given boundary.
    pub fn align_down(self, align: u64) -> (r: Self)
        requires
            align >= 1,
        ensures
            r.0 == align_down_spec(self.0, align),
            is_power_of_two(align) ==> r.0 <= self.0 && r.0 % align == 0 && self.0 - r.0 < align,
    {
        proof {
            if is_power_of_two(align) {
                lemma_align_down_properties(self.0, align);
            }
        }
        VirtAddr(self.0 & !(align - 1))
    }

    /// Aligns the address up to the given boundary.
    pub fn align_up(self, align: u64) -> (r: Self)
        requires
            align >= 1,
            self.0 + align - 1 <= u64::MAX,
        ensures
            r.0 == align_up_spec(self.0, align),
            is_power_of_two(align) ==> self.0 <= r.0 && r.0 % align == 0 && r.0 - self.0 < align,
    {
        proof {
            if is_power_of_two(align) {
                lemma_align_up_properties(self.0, align);
            }
        }
        VirtAddr((self.0 + (align - 1)) & !(align - 1))
    }
}

} // verus!
