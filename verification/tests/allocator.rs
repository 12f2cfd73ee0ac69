use boot_bridge::allocator::BootMemory;
use boot_bridge::errors::{Error, FirmwareCall};
use boot_bridge::frame::{Frame, PAGE_SIZE};

#[test]
fn allocated_frame_is_fully_zeroed() {
    let mut mem = BootMemory::new(vec![0x1000, 0x2000]).unwrap();
    let frame = mem.allocate_frame().unwrap();
    let start = frame.start_address();
    assert_eq!(start, 0x1000);
    let bytes = mem.page_contents(start).unwrap();
    assert_eq!(bytes.len(), PAGE_SIZE);
    for i in 0..PAGE_SIZE {
        assert_eq!(bytes[i], 0u8);
    }
}

#[test]
fn grant_at_0x100000_returns_that_frame_zeroed() {
    let mut mem = BootMemory::new(vec![0x100000]).unwrap();
    let frame = mem.allocate_frame().unwrap();
    assert_eq!(frame.start_address(), 0x100000);
    let bytes = mem.page_contents(0x100000).unwrap();
    assert_eq!(bytes.len(), 4096);
    assert!(bytes.iter().all(|b| *b == 0));
}

#[test]
fn allocate_then_deallocate_succeeds() {
    let mut mem = BootMemory::new(vec![0x7000]).unwrap();
    let frame = mem.allocate_frame().unwrap();
    assert!(mem.deallocate_frame(frame).is_ok());
    assert!(mem.page_contents(0x7000).is_none());
}

#[test]
fn deallocate_unallocated_frame_fails() {
    let mut mem = BootMemory::new(vec![0x1000]).unwrap();
    let stray = Frame::from_start_address(0x5000).unwrap();
    let r = mem.deallocate_frame(stray);
    assert_eq!(r, Err(Error::FirmwareCallFailed(FirmwareCall::FreePages)));
}

#[test]
fn double_free_fails() {
    let mut mem = BootMemory::new(vec![0x3000]).unwrap();
    let frame = mem.allocate_frame().unwrap();
    assert!(mem.deallocate_frame(frame).is_ok());
    let again = Frame::from_start_address(0x3000).unwrap();
    assert_eq!(
        mem.deallocate_frame(again),
        Err(Error::FirmwareCallFailed(FirmwareCall::FreePages))
    );
}

#[test]
fn exhausted_pool_reports_allocation_failure() {
    let mut mem = BootMemory::new(vec![]).unwrap();
    let r = mem.allocate_frame();
    assert_eq!(r, Err(Error::FirmwareCallFailed(FirmwareCall::AllocatePages)));
}

#[test]
fn consecutive_allocations_grant_in_order() {
    let mut mem = BootMemory::new(vec![0x1000, 0x4000, 0x9000]).unwrap();
    assert_eq!(mem.allocate_frame().unwrap().start_address(), 0x1000);
    assert_eq!(mem.allocate_frame().unwrap().start_address(), 0x4000);
    assert_eq!(mem.allocate_frame().unwrap().start_address(), 0x9000);
    assert!(mem.allocate_frame().is_err());
}

#[test]
fn unaligned_grant_script_is_rejected() {
    assert!(BootMemory::new(vec![0x1001]).is_none());
}

#[test]
fn repeated_grant_script_is_rejected() {
    assert!(BootMemory::new(vec![0x1000, 0x1000]).is_none());
}

#[test]
fn frame_from_start_address_checks_alignment() {
    assert!(Frame::from_start_address(0x2000).is_some());
    assert!(Frame::from_start_address(0x2001).is_none());
    assert_eq!(Frame::from_start_address(0).unwrap().start_address(), 0);
}
