use boot_bridge::allocator::BootMemory;
use boot_bridge::errors::Error;
use boot_bridge::loader::{Enumeration, VolumeContent};
use boot_bridge::services::PlatformServices;

#[test]
fn facade_exposes_allocator_and_loader() {
    let mem = BootMemory::new(vec![0x100000, 0x101000]).unwrap();
    let vols = Enumeration::Volumes(vec![
        VolumeContent::Absent,
        VolumeContent::Regular(vec![0x7f, b'E', b'L', b'F']),
    ]);
    let mut services = PlatformServices::new(mem, vols);

    let frame = services.allocator().allocate_frame().unwrap();
    assert_eq!(frame.start_address(), 0x100000);

    let image = services.read_file("guest/kernel").unwrap();
    assert_eq!(image, vec![0x7f, b'E', b'L', b'F']);

    assert!(services.allocator().deallocate_frame(frame).is_ok());
}

#[test]
fn facade_reports_loader_errors_unchanged() {
    let mem = BootMemory::new(vec![]).unwrap();
    let services = PlatformServices::new(mem, Enumeration::Volumes(vec![]));
    match services.read_file("absent") {
        Err(Error::ResourceNotFound(p)) => assert_eq!(p, "absent"),
        other => panic!("expected ResourceNotFound, got {:?}", other),
    }
}

#[test]
fn facade_allocator_failure_surfaces() {
    let mem = BootMemory::new(vec![]).unwrap();
    let vols = Enumeration::Volumes(vec![]);
    let mut services = PlatformServices::new(mem, vols);
    assert!(services.allocator().allocate_frame().is_err());
}
