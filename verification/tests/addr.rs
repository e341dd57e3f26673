use phoenix::add;
use phoenix::addr::{PhysAddr, VirtAddr};

#[test]
fn phys_addr_alignment_helpers() {
    assert!(PhysAddr(0x1000).is_aligned(0x1000));
    assert!(!PhysAddr(0x1001).is_aligned(0x1000));
    assert_eq!(PhysAddr(0x1001).align_down(0x1000), PhysAddr(0x1000));
    assert_eq!(PhysAddr(0x1001).align_up(0x1000), PhysAddr(0x2000));
    assert_eq!(PhysAddr(0x1000).align_up(0x1000), PhysAddr(0x1000));
}

#[test]
fn virt_addr_alignment_helpers() {
    assert!(VirtAddr(0x2000).is_aligned(0x1000));
    assert!(!VirtAddr(0x2001).is_aligned(0x1000));
    assert_eq!(VirtAddr(0x2001).align_down(0x1000), VirtAddr(0x2000));
    assert_eq!(VirtAddr(0x2001).align_up(0x1000), VirtAddr(0x3000));
}

#[test]
fn it_works() {
    let result = add(2, 2);
    assert_eq!(result, 4);
}

#[test]
fn addr_raw_values_round_trip() {
    assert_eq!(PhysAddr(0xdead_b000).as_u64(), 0xdead_b000);
    assert_eq!(VirtAddr(0x4444_4444_0000).as_u64(), 0x4444_4444_0000);
}

#[test]
fn align_down_then_up_brackets_address() {
    let a = PhysAddr(0x12345);
    let down = a.align_down(0x1000);
    let up = a.align_up(0x1000);
    assert_eq!(down, PhysAddr(0x12000));
    assert_eq!(up, PhysAddr(0x13000));
    assert!(down.is_aligned(0x1000) && up.is_aligned(0x1000));
    assert!(down <= a && a <= up);
}

#[test]
fn alignment_of_one_is_identity() {
    assert!(VirtAddr(0x1234_5677).is_aligned(1));
    assert_eq!(VirtAddr(0x1234_5677).align_up(1), VirtAddr(0x1234_5677));
    assert_eq!(VirtAddr(0x1234_5677).align_down(1), VirtAddr(0x1234_5677));
}

#[test]
fn align_up_reaches_the_top_of_the_address_space() {
    assert_eq!(PhysAddr(u64::MAX).align_up(1), PhysAddr(u64::MAX));
    assert_eq!(VirtAddr(u64::MAX - 0xFFF).align_up(0x1000), VirtAddr(u64::MAX - 0xFFF));
    assert_eq!(VirtAddr(u64::MAX - 0x1FFE).align_up(0x1000), VirtAddr(u64::MAX - 0xFFF));
}
