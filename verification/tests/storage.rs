use phoenix::drivers::storage::ramdisk::{self, RamDisk, SECTOR_SIZE};
use phoenix::fs::elf::{load_elf, load_elf_image, loadable_segments, Segment};
use phoenix::fs::phoenixfs::{self, VolumeStatus, MAGIC};
use phoenix::fs::ramfs::RamFS;
use phoenix::fs::FileSystem;

#[test]
fn ramdisk_uninitialized_reports_error() {
    let disk = RamDisk::new();
    let mut buf = [0u8; 4];
    assert_eq!(ramdisk::read(&disk, 0, &mut buf), Err("RamDisk not initialized"));
    let mut disk = RamDisk::new();
    assert_eq!(ramdisk::write(&mut disk, 0, &buf), Err("RamDisk not initialized"));
}

#[test]
fn ramdisk_reads_back_what_was_written() {
    let mut disk = RamDisk::new();
    ramdisk::init(&mut disk);
    let data: Vec<u8> = (0..SECTOR_SIZE).map(|i| (i % 251) as u8).collect();
    assert_eq!(ramdisk::write(&mut disk, 3, &data), Ok(()));
    let mut back = vec![0xAAu8; SECTOR_SIZE];
    assert_eq!(ramdisk::read(&disk, 3, &mut back), Ok(()));
    assert_eq!(back, data);
    // Neighbouring sectors are untouched.
    let mut next = vec![0xAAu8; SECTOR_SIZE];
    assert_eq!(ramdisk::read(&disk, 4, &mut next), Ok(()));
    assert!(next.iter().all(|&b| b == 0));
}

#[test]
fn ramdisk_out_of_bounds_is_refused() {
    let mut disk = RamDisk::new();
    ramdisk::init(&mut disk);
    let last = 4 * 1024 * 1024 / SECTOR_SIZE;
    let mut buf = vec![0u8; SECTOR_SIZE];
    assert_eq!(ramdisk::read(&disk, last, &mut buf), Err("Read out of bounds"));
    assert_eq!(ramdisk::write(&mut disk, last, &buf), Err("Write out of bounds"));
    assert_eq!(ramdisk::read(&disk, last - 1, &mut buf), Ok(()));
}

#[test]
fn phoenixfs_formats_then_detects() {
    let mut disk = RamDisk::new();
    assert_eq!(phoenixfs::init(&mut disk), VolumeStatus::Unreadable);
    ramdisk::init(&mut disk);
    assert_eq!(phoenixfs::init(&mut disk), VolumeStatus::Formatted);
    let mut sb = vec![0u8; SECTOR_SIZE];
    assert_eq!(ramdisk::read(&disk, 0, &mut sb), Ok(()));
    assert_eq!(u32::from_le_bytes([sb[0], sb[1], sb[2], sb[3]]), MAGIC);
    assert_eq!(&sb[0..4], &[0x58, 0x4E, 0x48, 0x50]);
    assert_eq!(phoenixfs::init(&mut disk), VolumeStatus::Detected);
}

#[test]
fn ramfs_read_after_write() {
    let mut fs = RamFS::new();
    assert_eq!(fs.read("/etc/motd"), None);
    assert!(fs.write("/etc/motd", b"hello".to_vec()));
    assert!(fs.write("/etc/host", b"phoenix".to_vec()));
    assert_eq!(fs.read("/etc/motd"), Some(b"hello".to_vec()));
    assert!(fs.write("/etc/motd", b"bye".to_vec()));
    assert_eq!(fs.read("/etc/motd"), Some(b"bye".to_vec()));
    assert_eq!(fs.read("/etc/host"), Some(b"phoenix".to_vec()));
    assert_eq!(fs.read("/etc"), None);
}

#[test]
fn ramfs_default_is_empty() {
    let fs = RamFS::default();
    assert_eq!(fs.read(""), None);
}

fn elf64_with_headers(entry: u64, headers: &[(u32, u64, u64, u64)]) -> Vec<u8> {
    let phoff: u64 = 64;
    let mut b = vec![0u8; 64];
    b[0..4].copy_from_slice(&[0x7f, b'E', b'L', b'F']);
    b[4] = 2; // 64-bit
    b[5] = 1; // little endian
    b[6] = 1; // version
    b[16..18].copy_from_slice(&2u16.to_le_bytes()); // executable
    b[18..20].copy_from_slice(&0x3Eu16.to_le_bytes()); // x86-64
    b[20..24].copy_from_slice(&1u32.to_le_bytes());
    b[24..32].copy_from_slice(&entry.to_le_bytes());
    b[32..40].copy_from_slice(&phoff.to_le_bytes());
    b[40..48].copy_from_slice(&0u64.to_le_bytes()); // no section headers
    b[52..54].copy_from_slice(&64u16.to_le_bytes());
    b[54..56].copy_from_slice(&56u16.to_le_bytes());
    b[56..58].copy_from_slice(&(headers.len() as u16).to_le_bytes());
    b[58..60].copy_from_slice(&64u16.to_le_bytes());
    for &(p_type, paddr, vaddr, memsz) in headers {
        let mut ph = vec![0u8; 56];
        ph[0..4].copy_from_slice(&p_type.to_le_bytes());
        ph[16..24].copy_from_slice(&vaddr.to_le_bytes());
        ph[24..32].copy_from_slice(&paddr.to_le_bytes());
        ph[40..48].copy_from_slice(&memsz.to_le_bytes());
        b.extend_from_slice(&ph);
    }
    b
}

#[test]
fn load_elf_returns_entry_point() {
    let image = elf64_with_headers(0x40_1000, &[(1, 0x1000, 0x40_0000, 0x2000), (4, 0, 0, 0x10)]);
    assert_eq!(load_elf(&image), Ok(0x40_1000));
    let (entry, segs) = load_elf_image(&image).unwrap();
    assert_eq!(entry, 0x40_1000);
    assert_eq!(segs, vec![Segment { paddr: 0x1000, vaddr: 0x40_0000, memsz: 0x2000 }]);
}

#[test]
fn load_elf_rejects_garbage() {
    assert_eq!(load_elf(b"not an elf file at all"), Err("Failed to parse ELF binary"));
    assert_eq!(load_elf(&[]), Err("Failed to parse ELF binary"));
    assert!(load_elf_image(&[0x7f, b'E', b'L']).is_err());
}

#[test]
fn loadable_segments_keeps_pt_load_in_order() {
    let headers = vec![(6, 0, 0, 1), (1, 0x10, 0x20, 0x30), (2, 0, 0, 2), (1, 0x40, 0x50, 0x60)];
    let segs = loadable_segments(&headers);
    assert_eq!(
        segs,
        vec![
            Segment { paddr: 0x10, vaddr: 0x20, memsz: 0x30 },
            Segment { paddr: 0x40, vaddr: 0x50, memsz: 0x60 },
        ]
    );
    assert!(loadable_segments(&vec![]).is_empty());
}
