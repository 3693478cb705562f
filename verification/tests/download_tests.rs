use quickvm::arch::{Arch, X86_64Machine};
use quickvm::catalog::ReleaseConfig;
use quickvm::download::{
    Action, DownloadMessage, DownloadStatus, Message, SpecificDownloadMessage, TransferDescriptor,
};
use quickvm::selection::{ConfigurationError, ResolvedConfig};

fn resolved() -> ResolvedConfig {
    ResolvedConfig {
        os: "alpine".to_string(),
        config: ReleaseConfig {
            release: "3.18".to_string(),
            edition: None,
            arch: Arch::X86_64 { machine: X86_64Machine::Standard },
        },
        directory: "/vms".to_string(),
        vm_name: "alpine-vm".to_string(),
        cpu_cores: 4,
        ram_bytes: 2048,
    }
}

fn descriptor(path: &str) -> TransferDescriptor {
    TransferDescriptor {
        url: format!("http://mirror.example/{path}"),
        headers: vec![],
        path: path.to_string(),
    }
}

fn event(id: usize, msg: DownloadMessage) -> Message {
    Message::Specific(SpecificDownloadMessage { id, msg })
}

fn session(paths: &[&str]) -> DownloadStatus {
    let descriptors = paths.iter().map(|p| descriptor(p)).collect();
    DownloadStatus::new(resolved(), descriptors).expect("distinct destinations")
}

#[test]
fn transfers_start_named_pending_and_unknown() {
    let ds = session(&["/vms/alpine/disk.qcow2", "/vms/alpine/firmware.bin"]);
    assert_eq!(ds.downloads.len(), 2);
    assert_eq!(ds.downloads[0].name, "disk.qcow2");
    assert_eq!(ds.downloads[1].name, "firmware.bin");
    for d in &ds.downloads {
        assert_eq!(d.current_size, 0);
        assert_eq!(d.total_size, None);
        assert!(!d.done);
        assert_eq!(d.error, None);
    }
    assert!(!ds.cancelled);
}

#[test]
fn duplicate_destinations_are_refused() {
    let descriptors = vec![descriptor("/vms/same.iso"), descriptor("/vms/same.iso")];
    let r = DownloadStatus::new(resolved(), descriptors);
    assert!(matches!(r, Err(ConfigurationError::DuplicateDestination)));
}

#[test]
fn progress_chunks_accumulate_and_done_arrives_last() {
    let mut ds = session(&["/vms/disk.img"]);
    assert_eq!(ds.update(event(0, DownloadMessage::GotTotalSize(400))), Action::Idle);
    assert_eq!(ds.downloads[0].total_size, Some(400));

    for chunk in [100u64, 250, 50] {
        assert!(!ds.downloads[0].done);
        assert!(!ds.is_complete());
        ds.update(event(0, DownloadMessage::AddedChunk(chunk)));
    }
    assert_eq!(ds.downloads[0].current_size, 400);
    assert!(!ds.downloads[0].done);
    assert!(!ds.is_complete());

    assert_eq!(ds.update(event(0, DownloadMessage::Done)), Action::Complete);
    assert!(ds.downloads[0].done);
    assert!(ds.is_complete());
}

#[test]
fn progress_may_arrive_before_the_size_is_known() {
    let mut ds = session(&["/vms/disk.img"]);
    ds.update(event(0, DownloadMessage::AddedChunk(128)));
    assert_eq!(ds.downloads[0].current_size, 128);
    assert_eq!(ds.downloads[0].total_size, None);
    ds.update(event(0, DownloadMessage::GotTotalSize(0)));
    assert_eq!(ds.downloads[0].total_size, Some(0));
}

#[test]
fn a_single_error_blocks_completion() {
    let mut ds = session(&["/vms/a.img", "/vms/b.img"]);
    ds.update(event(0, DownloadMessage::Done));
    let act = ds.update(event(1, DownloadMessage::Error("connection reset".to_string())));
    assert_eq!(act, Action::SurfaceError("connection reset".to_string()));
    assert!(!ds.is_complete());
    // The sibling transfer is untouched and keeps running.
    assert!(ds.downloads[0].done);
    assert_eq!(ds.downloads[0].error, None);
    assert!(!ds.cancelled);

    // Even a later done on the errored transfer cannot complete the
    // session: the terminal error stays.
    ds.update(event(1, DownloadMessage::Done));
    assert!(!ds.is_complete());
}

#[test]
fn completion_needs_every_transfer_done() {
    let mut ds = session(&["/vms/a.img", "/vms/b.img"]);
    assert_eq!(ds.update(event(0, DownloadMessage::Done)), Action::Idle);
    assert!(!ds.is_complete());
    assert_eq!(ds.update(event(1, DownloadMessage::Done)), Action::Complete);
    assert!(ds.is_complete());
}

#[test]
fn cancellation_discards_every_later_event() {
    let mut ds = session(&["/vms/a.img", "/vms/b.img"]);
    ds.update(event(0, DownloadMessage::GotTotalSize(100)));
    ds.update(event(0, DownloadMessage::AddedChunk(40)));
    let before = format!("{:?}", ds.downloads);

    assert_eq!(ds.update(Message::CancelDownloads), Action::CancelTransfers);
    assert!(ds.cancelled);

    assert_eq!(ds.update(event(0, DownloadMessage::AddedChunk(60))), Action::Idle);
    assert_eq!(ds.update(event(0, DownloadMessage::Done)), Action::Idle);
    assert_eq!(ds.update(event(1, DownloadMessage::Error("late".to_string()))), Action::Idle);
    assert_eq!(format!("{:?}", ds.downloads), before);
    assert!(!ds.is_complete());
}

#[test]
fn cancel_all_is_idempotent_and_final() {
    let mut ds = session(&["/vms/a.img"]);
    ds.cancel_all();
    assert!(ds.cancelled);
    ds.cancel_all();
    assert!(ds.cancelled);
    ds.update(event(0, DownloadMessage::Done));
    assert!(!ds.downloads[0].done);
}

#[test]
fn finalize_request_is_handed_on_once_complete() {
    let mut ds = session(&["/vms/a.img"]);
    ds.update(event(0, DownloadMessage::Done));
    assert!(ds.is_complete());
    assert_eq!(ds.update(Message::Finalize), Action::Finalize);
}

#[test]
fn oversized_progress_saturates_instead_of_wrapping() {
    let mut ds = session(&["/vms/a.img"]);
    ds.update(event(0, DownloadMessage::AddedChunk(u64::MAX)));
    ds.update(event(0, DownloadMessage::AddedChunk(7)));
    assert_eq!(ds.downloads[0].current_size, u64::MAX);
}
