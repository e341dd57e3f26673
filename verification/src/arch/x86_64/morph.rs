//! Morph: selection of the hot-path memory routines by hardware features.
use vstd::prelude::*;
use crate::arch::x86_64::fingerprint::HardwareFingerprint;

verus! {

/// An implementation of a hot-path routine.
#[derive(Debug, Clone, Copy, PartialEq, Eq, Structural)]
pub enum HotPath {
    /// The portable implementation.
    Generic,
    /// The implementation for modern silicon.
    AvxOptimized,
}

/// Dispatch table for the morphed routines.
#[derive(Debug, Clone, Copy, PartialEq, Eq, Structural)]
pub struct MorphTable {
    /// Hot-path memory copy routine.
    pub memcpy: HotPath,
    /// Hot-path memory set routine.
    pub memset: HotPath,
}

impl MorphTable {
    /// The table at boot: both routines generic.
    pub fn new() -> (t: Self)
        ensures
            t.memcpy == HotPath::Generic,
            t.memset == HotPath::Generic,
    {
        MorphTable { memcpy: HotPath::Generic, memset: HotPath::Generic }
    }
}

fn copy_bytes(dst: &mut [u8], src: &[u8], len: usize)
    requires
        len <= old(dst)@.len(),
        len <= src@.len(),
    ensures
        final(dst)@ == src@.subrange(0, len as int) + old(dst)@.subrange(len as int, old(dst)@.len() as int),
{
    let mut i: usize = 0;
    while i < len
        invariant
            len <= dst@.len(),
            len <= src@.len(),
            dst@.len() == old(dst)@.len(),
            i <= len,
            forall|k: int| 0 <= k < i ==> dst@[k] == src@[k],
            forall|k: int| i <= k < dst@.len() ==> dst@[k] == old(dst)@[k],
        decreases len - i,
    {
        dst[i] = src[i];
        i += 1;
    }
    assert(dst@ =~= src@.subrange(0, len as int) + old(dst)@.subrange(len as int, old(dst)@.len() as int));
}

fn fill_bytes(dst: &mut [u8], val: u8, len: usize)
    requires
        len <= old(dst)@.len(),
    ensures
        final(dst)@ == Seq::new(len as nat, |i: int| val) + old(dst)@.subrange(len as int, old(dst)@.len() as int),
{
    let mut i: usize = 0;
    while i < len
        invariant
            len <= dst@.len(),
            dst@.len() == old(dst)@.len(),
            i <= len,
            forall|k: int| 0 <= k < i ==> dst@[k] == val,
            forall|k: int| i <= k < dst@.len() ==> dst@[k] == old(dst)@[k],
        decreases len - i,
    {
        dst[i] = val;
        i += 1;
    }
    assert(dst@ =~= Seq::new(len as nat, |i: int| val) + old(dst)@.subrange(len as int, old(dst)@.len() as int));
}

/// Copy the first `len` bytes of `src` over the start of `dst` through the
/// selected routine (both routines copy alike).
pub fn memcpy(table: &MorphTable, dst: &mut [u8], src: &[u8], len: usize)
    requires
        len <= old(dst)@.len(),
        len <= src@.len(),
    ensures
        final(dst)@ == src@.subrange(0, len as int) + old(dst)@.subrange(len as int, old(dst)@.len() as int),
{
    match table.memcpy {
        HotPath::Generic => copy_bytes(dst, src, len),
        HotPath::AvxOptimized => copy_bytes(dst, src, len),
    }
}

/// Set the first `len` bytes of `dst` to `val` through the selected routine.
pub fn memset(table: &MorphTable, dst: &mut [u8], val: u8, len: usize)
    requires
        len <= old(dst)@.len(),
    ensures
        final(dst)@ == Seq::new(len as nat, |i: int| val) + old(dst)@.subrange(len as int, old(dst)@.len() as int),
{
    match table.memset {
        HotPath::Generic => fill_bytes(dst, val, len),
        HotPath::AvxOptimized => fill_bytes(dst, val, len),
    }
}

/// Optimizes the hot paths for the hardware: silicon with 1 GiB pages gets
/// the optimized routines, anything else the generic ones.
pub fn morph(table: &mut MorphTable, fp: &HardwareFingerprint)
    ensures
        fp.has_huge_pages ==> final(table).memcpy == HotPath::AvxOptimized && final(table).memset
            == HotPath::AvxOptimized,
        !fp.has_huge_pages ==> final(table).memcpy == HotPath::Generic && final(table).memset
            == HotPath::Generic,
{
    if fp.has_huge_pages {
        table.memcpy = HotPath::AvxOptimized;
        table.memset = HotPath::AvxOptimized;
    } else {
        table.memcpy = HotPath::Generic;
        table.memset = HotPath::Generic;
    }
}

} // verus!
