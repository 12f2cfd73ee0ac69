use boot_bridge::errors::{Error, FirmwareCall};
use boot_bridge::loader::{
    probe_decision, read_file, Enumeration, FileAccumulator, ProbeOutcome, SearchDecision,
    VolumeContent,
};

fn volumes(v: Vec<VolumeContent>) -> Enumeration {
    Enumeration::Volumes(v)
}

#[test]
fn file_on_first_volume_returns_exact_contents() {
    let data = vec![0xde, 0xad, 0xbe, 0xef];
    let e = volumes(vec![VolumeContent::Regular(data.clone())]);
    assert_eq!(read_file(&e, "kernel.bin"), Ok(data));
}

#[test]
fn file_on_later_volume_is_found() {
    let data = vec![1, 2, 3];
    let e = volumes(vec![
        VolumeContent::Absent,
        VolumeContent::Absent,
        VolumeContent::Regular(data.clone()),
    ]);
    assert_eq!(read_file(&e, "boot/image"), Ok(data));
}

#[test]
fn directory_stops_search_before_later_file() {
    let e = volumes(vec![
        VolumeContent::Absent,
        VolumeContent::Directory,
        VolumeContent::Regular(vec![9, 9, 9]),
    ]);
    match read_file(&e, "guest.img") {
        Err(Error::UnexpectedFileType(p)) => assert_eq!(p, "guest.img"),
        other => panic!("expected UnexpectedFileType, got {:?}", other),
    }
}

#[test]
fn directory_alone_reports_unexpected_file_type() {
    let e = volumes(vec![VolumeContent::Directory]);
    match read_file(&e, "cfg") {
        Err(Error::UnexpectedFileType(p)) => assert_eq!(p, "cfg"),
        other => panic!("expected UnexpectedFileType, got {:?}", other),
    }
}

#[test]
fn absent_everywhere_names_the_path() {
    let e = volumes(vec![VolumeContent::Absent, VolumeContent::Absent]);
    match read_file(&e, "missing.bin") {
        Err(Error::ResourceNotFound(p)) => assert_eq!(p, "missing.bin"),
        other => panic!("expected ResourceNotFound, got {:?}", other),
    }
}

#[test]
fn no_volumes_at_all_names_the_path() {
    let e = volumes(vec![]);
    match read_file(&e, "anything") {
        Err(Error::ResourceNotFound(p)) => assert_eq!(p, "anything"),
        other => panic!("expected ResourceNotFound, got {:?}", other),
    }
}

#[test]
fn count_failure_is_a_failed_firmware_call() {
    let r = read_file(&Enumeration::CountFailed, "x");
    assert_eq!(r, Err(Error::FirmwareCallFailed(FirmwareCall::CountVolumes)));
}

#[test]
fn list_failure_is_a_failed_firmware_call() {
    let r = read_file(&Enumeration::ListFailed, "x");
    assert_eq!(r, Err(Error::FirmwareCallFailed(FirmwareCall::ListVolumes)));
}

#[test]
fn protocol_failure_aborts_search() {
    let e = volumes(vec![VolumeContent::ProtocolFailed, VolumeContent::Regular(vec![1])]);
    assert_eq!(
        read_file(&e, "x"),
        Err(Error::FirmwareCallFailed(FirmwareCall::ResolveProtocol))
    );
}

#[test]
fn null_protocol_reports_null_resource() {
    let e = volumes(vec![VolumeContent::ProtocolNull]);
    assert_eq!(read_file(&e, "x"), Err(Error::NullFirmwareResource));
}

#[test]
fn volume_open_failure_aborts_search() {
    let e = volumes(vec![VolumeContent::Absent, VolumeContent::VolumeOpenFailed]);
    assert_eq!(
        read_file(&e, "x"),
        Err(Error::FirmwareCallFailed(FirmwareCall::OpenVolume))
    );
}

#[test]
fn type_resolution_failure_aborts_search() {
    let e = volumes(vec![VolumeContent::TypeResolveFailed]);
    assert_eq!(
        read_file(&e, "x"),
        Err(Error::FirmwareCallFailed(FirmwareCall::ResolveFileType))
    );
}

#[test]
fn mid_stream_read_failure_is_fatal() {
    let e = volumes(vec![VolumeContent::ReadFailed, VolumeContent::Regular(vec![1])]);
    assert_eq!(
        read_file(&e, "x"),
        Err(Error::FirmwareCallFailed(FirmwareCall::ReadFile))
    );
}

#[test]
fn probe_decisions_follow_the_search_policy() {
    assert_eq!(
        probe_decision(ProbeOutcome::OpenRejected, "p"),
        SearchDecision::NextVolume
    );
    assert_eq!(probe_decision(ProbeOutcome::Regular, "p"), SearchDecision::ReadHere);
    match probe_decision(ProbeOutcome::Directory, "p") {
        SearchDecision::Abort(Error::UnexpectedFileType(path)) => assert_eq!(path, "p"),
        other => panic!("expected Abort(UnexpectedFileType), got {:?}", other),
    }
    assert_eq!(
        probe_decision(ProbeOutcome::ProtocolNull, "p"),
        SearchDecision::Abort(Error::NullFirmwareResource)
    );
    assert_eq!(
        probe_decision(ProbeOutcome::ProtocolFailed, "p"),
        SearchDecision::Abort(Error::FirmwareCallFailed(FirmwareCall::ResolveProtocol))
    );
    assert_eq!(
        probe_decision(ProbeOutcome::VolumeOpenFailed, "p"),
        SearchDecision::Abort(Error::FirmwareCallFailed(FirmwareCall::OpenVolume))
    );
    assert_eq!(
        probe_decision(ProbeOutcome::TypeResolveFailed, "p"),
        SearchDecision::Abort(Error::FirmwareCallFailed(FirmwareCall::ResolveFileType))
    );
}

#[test]
fn accumulator_keeps_only_bytes_actually_read() {
    let mut acc = FileAccumulator::new();
    acc.push_chunk(&[1, 2, 3, 4], 3);
    acc.push_chunk(&[5, 6, 0, 0], 2);
    acc.push_chunk(&[7, 8], 0);
    assert_eq!(acc.into_contents(), vec![1, 2, 3, 5, 6]);
}

#[test]
fn accumulator_starts_empty() {
    let acc = FileAccumulator::new();
    assert_eq!(acc.into_contents(), Vec::<u8>::new());
}
