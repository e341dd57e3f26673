//! PhoenixFS: the inode-based native file system's volume detection and formatting.
use vstd::prelude::*;
use crate::drivers::storage::ramdisk;
use crate::drivers::storage::ramdisk::{written, RamDisk, SECTOR_SIZE};

verus! {

/// The superblock magic number ("PHNX").
pub const MAGIC: u32 = 0x50484E58;
/// Superblock format version (inode-based).
pub const VERSION: u32 = 2;
/// Sectors covered by a formatted volume.
pub const TOTAL_SECTORS: u32 = 8192;
/// Sector holding the root directory (and the inode table).
pub const ROOT_DIR_SECTOR: u32 = 1;

/// The little-endian value of four bytes.
pub open spec fn le_u32(b0: u8, b1: u8, b2: u8, b3: u8) -> int {
    b0 + 256 * b1 + 65536 * b2 + 16777216 * b3
}

/// The four little-endian bytes of `v`.
pub open spec fn le_bytes(v: u32) -> Seq<u8> {
    seq![(v % 256) as u8, ((v / 256) % 256) as u8, ((v / 65536) % 256) as u8, (v / 16777216) as u8]
}

/// The superblock magic recorded at the start of `d`.
pub open spec fn magic_of(d: Seq<u8>) -> int {
    le_u32(d[0], d[1], d[2], d[3])
}

/// The 512-byte sector written by formatting: the four superblock fields, then zeros.
pub open spec fn superblock_sector() -> Seq<u8> {
    le_bytes(MAGIC) + le_bytes(VERSION) + le_bytes(TOTAL_SECTORS) + le_bytes(ROOT_DIR_SECTOR)
        + Seq::new(496, |i: int| 0u8)
}

/// A sector of zeros.
pub open spec fn zero_sector() -> Seq<u8> {
    Seq::new(512, |i: int| 0u8)
}

/// What `init` found on the disk.
#[derive(Debug, Clone, Copy, PartialEq, Eq, Structural)]
pub enum VolumeStatus {
    /// The superblock could not be read (disk absent or too small); nothing was done.
    Unreadable,
    /// A PhoenixFS volume was already there.
    Detected,
    /// No volume was found; the disk was formatted.
    Formatted,
}

fn push_le(buf: &mut Vec<u8>, v: u32)
    ensures
        final(buf)@ == old(buf)@ + le_bytes(v),
{
    buf.push((v % 256) as u8);
    buf.push(((v / 256) % 256) as u8);
    buf.push(((v / 65536) % 256) as u8);
    buf.push((v / 16777216) as u8);
    assert(buf@ =~= old(buf)@ + le_bytes(v));
}

fn zeros(n: usize) -> (v: Vec<u8>)
    ensures
        v@ == Seq::new(n as nat, |i: int| 0u8),
{
    let mut v: Vec<u8> = Vec::with_capacity(n);
    let mut i: usize = 0;
    while i < n
        invariant
            i <= n,
            v@ == Seq::new(i as nat, |k: int| 0u8),
        decreases n - i,
    {
        v.push(0);
        i += 1;
        assert(v@ =~= Seq::new(i as nat, |k: int| 0u8));
    }
    v
}

/// Writes a fresh superblock to sector 0 and an empty inode table to sector 1.
fn format(disk: &mut RamDisk)
    ensures
        old(disk).contents() is None ==> final(disk).contents() is None,
        old(disk).contents() matches Some(d) ==> {
            &&& d.len() >= 1024 ==> final(disk).contents() == Some(
                written(written(d, 0, superblock_sector()), 512, zero_sector()),
            )
            &&& 512 <= d.len() < 1024 ==> final(disk).contents() == Some(
                written(d, 0, superblock_sector()),
            )
            &&& d.len() < 512 ==> final(disk).contents() == old(disk).contents()
        },
{
    let mut buffer: Vec<u8> = Vec::with_capacity(SECTOR_SIZE);
    push_le(&mut buffer, MAGIC);
    push_le(&mut buffer, VERSION);
    push_le(&mut buffer, TOTAL_SECTORS);
    push_le(&mut buffer, ROOT_DIR_SECTOR);
    let mut i: usize = 16;
    while i < SECTOR_SIZE
        invariant
            16 <= i <= SECTOR_SIZE,
            buffer@ == le_bytes(MAGIC) + le_bytes(VERSION) + le_bytes(TOTAL_SECTORS) + le_bytes(
                ROOT_DIR_SECTOR,
            ) + Seq::new((i - 16) as nat, |k: int| 0u8),
        decreases SECTOR_SIZE - i,
    {
        buffer.push(0);
        i += 1;
        assert(buffer@ =~= le_bytes(MAGIC) + le_bytes(VERSION) + le_bytes(TOTAL_SECTORS)
            + le_bytes(ROOT_DIR_SECTOR) + Seq::new((i - 16) as nat, |k: int| 0u8));
    }
    assert(buffer@ =~= superblock_sector());
    let _ = ramdisk::write(disk, 0, buffer.as_slice());
    let inode_buffer = zeros(SECTOR_SIZE);
    assert(inode_buffer@ =~= zero_sector());
    let _ = ramdisk::write(disk, 1, inode_buffer.as_slice());
}

/// Initialize the native file system: read the superblock and, when its magic
/// is not PhoenixFS's, format the volume.
pub fn init(disk: &mut RamDisk) -> (status: VolumeStatus)
    ensures
        old(disk).contents() is None ==> status == VolumeStatus::Unreadable
            && final(disk).contents() is None,
        old(disk).contents() matches Some(d) ==> {
            &&& d.len() < 512 ==> status == VolumeStatus::Unreadable && final(disk).contents()
                == old(disk).contents()
            &&& d.len() >= 512 && magic_of(d) == MAGIC ==> status == VolumeStatus::Detected
                && final(disk).contents() == old(disk).contents()
            &&& d.len() >= 1024 && magic_of(d) != MAGIC ==> status == VolumeStatus::Formatted
                && final(disk).contents() == Some(
                written(written(d, 0, superblock_sector()), 512, zero_sector()),
            )
            &&& 512 <= d.len() < 1024 && magic_of(d) != MAGIC ==> status
                == VolumeStatus::Formatted && final(disk).contents() == Some(
                written(d, 0, superblock_sector()),
            )
        },
{
    let mut sb_buffer = zeros(SECTOR_SIZE);
    match ramdisk::read(disk, 0, sb_buffer.as_mut_slice()) {
        Ok(()) => {
            let magic = sb_buffer[0] as u32 + (sb_buffer[1] as u32) * 256 + (sb_buffer[2] as u32)
                * 65536 + (sb_buffer[3] as u32) * 16777216;
            if magic == MAGIC {
                VolumeStatus::Detected
            } else {
                format(disk);
                VolumeStatus::Formatted
            }
        },
        Err(_) => VolumeStatus::Unreadable,
    }
}

/// After formatting, the volume's superblock carries the PhoenixFS magic, so a
/// second `init` detects the volume instead of formatting again.
pub proof fn lemma_formatted_volume_is_detected(d: Seq<u8>)
    requires
        d.len() >= 512,
    ensures
        magic_of(written(d, 0, superblock_sector())) == MAGIC,
        d.len() >= 1024 ==> magic_of(written(written(d, 0, superblock_sector()), 512, zero_sector()))
            == MAGIC,
{
    let w = written(d, 0, superblock_sector());
    assert(w[0] == 0x58u8 && w[1] == 0x4Eu8 && w[2] == 0x48u8 && w[3] == 0x50u8);
    if d.len() >= 1024 {
        let w2 = written(w, 512, zero_sector());
        assert(w2[0] == w[0] && w2[1] == w[1] && w2[2] == w[2] && w2[3] == w[3]);
    }
}

} // verus!
