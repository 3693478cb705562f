use quickvm::arch::{AArch64Machine, Arch, X86_64Machine};
use quickvm::catalog::{OsEntry, ReleaseConfig};
use quickvm::creation::{Action, Message, Page, State};
use quickvm::download;
use quickvm::download::{DownloadMessage, SpecificDownloadMessage, TransferDescriptor};
use quickvm::selection;

fn x86() -> Arch {
    Arch::X86_64 { machine: X86_64Machine::Standard }
}

fn aarch64() -> Arch {
    Arch::AArch64 { machine: AArch64Machine::Standard }
}

fn cfg(release: &str, edition: Option<&str>, arch: Arch) -> ReleaseConfig {
    ReleaseConfig { release: release.to_string(), edition: edition.map(str::to_string), arch }
}

fn alpine() -> OsEntry {
    OsEntry {
        name: "alpine".to_string(),
        pretty_name: "Alpine".to_string(),
        homepage: None,
        releases: vec![
            cfg("3.19", None, x86()),
            cfg("3.19", None, aarch64()),
            cfg("3.18", None, x86()),
        ],
    }
}

fn descriptor(path: &str) -> TransferDescriptor {
    TransferDescriptor {
        url: format!("http://mirror.example/{path}"),
        headers: vec![("Accept".to_string(), "application/octet-stream".to_string())],
        path: path.to_string(),
    }
}

fn transfer_event(id: usize, msg: DownloadMessage) -> Message {
    Message::Download(download::Message::Specific(SpecificDownloadMessage { id, msg }))
}

fn start() -> State {
    let (state, act) = State::new("/vms".to_string(), 4, 2048);
    assert!(matches!(act, Action::FetchCatalog));
    assert!(matches!(state.page, Page::Loading));
    state
}

#[test]
fn full_session_reaches_completion() {
    let mut state = start();

    assert!(matches!(state.update(Message::OSList(vec![alpine()])), Action::Idle));
    assert!(matches!(state.page, Page::SelectOS));

    state.update(Message::SelectedOS(alpine()));
    assert!(matches!(state.page, Page::Options(_)));

    state.update(Message::Options(selection::Message::SelectedArch(x86())));
    state.update(Message::Options(selection::Message::SelectedRelease("3.18".to_string())));
    match &state.page {
        Page::Options(o) => {
            assert_eq!(o.default_vm_name.as_deref(), Some("alpine-3.18-x86_64"));
            assert!(o.can_go_next("alpine-3.18-x86_64"));
        },
        p => panic!("expected the options page, got {p:?}"),
    }

    let descriptors = vec![descriptor("/vms/alpine/disk.qcow2")];
    let act = state.update(Message::StartDownloads("alpine-3.18-x86_64".to_string(), descriptors));
    assert!(matches!(act, Action::StartTransfers));
    match &state.page {
        Page::Download(ds) => {
            assert_eq!(ds.config.vm_name, "alpine-3.18-x86_64");
            assert_eq!(ds.config.config.release, "3.18");
            assert_eq!(ds.downloads.len(), 1);
        },
        p => panic!("expected the download page, got {p:?}"),
    }

    state.update(transfer_event(0, DownloadMessage::GotTotalSize(400)));
    state.update(transfer_event(0, DownloadMessage::AddedChunk(400)));
    let act = state.update(transfer_event(0, DownloadMessage::Done));
    assert!(matches!(act, Action::Complete));

    let act = state.update(Message::Download(download::Message::Finalize));
    match act {
        Action::Finalize(rc) => assert_eq!(rc.vm_name, "alpine-3.18-x86_64"),
        a => panic!("expected a finalize action, got {a:?}"),
    }
    assert!(matches!(state.page, Page::Finalizing));

    state.update(Message::FinalizedConfigPath("/vms/alpine-3.18-x86_64/vm.toml".to_string()));
    match &state.page {
        Page::Complete(path) => assert_eq!(path, "/vms/alpine-3.18-x86_64/vm.toml"),
        p => panic!("expected the complete page, got {p:?}"),
    }
}

#[test]
fn fresh_selection_is_seeded_from_the_session() {
    let mut state = start();
    state.update(Message::OSList(vec![alpine()]));
    state.update(Message::SelectedOS(alpine()));
    match &state.page {
        Page::Options(o) => {
            assert_eq!(o.directory, "/vms");
            assert_eq!(o.cpu_cores, 4);
            assert_eq!(o.ram_bytes, 2048);
            assert_eq!(o.release_list.values, vec!["3.19", "3.18"]);
        },
        p => panic!("expected the options page, got {p:?}"),
    }
}

#[test]
fn commit_with_colliding_destinations_shows_the_error() {
    let mut state = start();
    state.update(Message::OSList(vec![alpine()]));
    state.update(Message::SelectedOS(alpine()));
    state.update(Message::Options(selection::Message::SelectedArch(aarch64())));
    state.update(Message::Options(selection::Message::SelectedRelease("3.19".to_string())));
    let act = state.update(Message::StartDownloads(
        "vm".to_string(),
        vec![descriptor("/vms/x.img"), descriptor("/vms/x.img")],
    ));
    assert!(matches!(act, Action::Idle));
    match &state.page {
        Page::Error(e) => assert_eq!(e, "two transfers target the same destination file"),
        p => panic!("expected the error page, got {p:?}"),
    }
}

#[test]
fn commit_without_a_match_shows_the_configuration_error() {
    // Every configuration of this entry carries an edition, so a commit
    // with no edition selected matches nothing.
    fn editioned() -> OsEntry {
        OsEntry {
            name: "ubuntu".to_string(),
            pretty_name: "Ubuntu".to_string(),
            homepage: None,
            releases: vec![
                cfg("24.04", Some("desktop"), x86()),
                cfg("24.04", Some("server"), x86()),
            ],
        }
    }
    let mut state = start();
    state.update(Message::OSList(vec![editioned()]));
    state.update(Message::SelectedOS(editioned()));
    state.update(Message::Options(selection::Message::SelectedArch(x86())));
    state.update(Message::Options(selection::Message::SelectedRelease("24.04".to_string())));
    let act = state.update(Message::StartDownloads(
        "vm".to_string(),
        vec![descriptor("/vms/x.img")],
    ));
    assert!(matches!(act, Action::Idle));
    match &state.page {
        Page::Error(e) => assert_eq!(
            e,
            "no configuration matches the selected release, edition and architecture"
        ),
        p => panic!("expected the error page, got {p:?}"),
    }
}

#[test]
fn cancelling_returns_to_the_catalog_page() {
    let mut state = start();
    state.update(Message::OSList(vec![alpine()]));
    state.update(Message::SelectedOS(alpine()));
    state.update(Message::Options(selection::Message::SelectedArch(x86())));
    state.update(Message::Options(selection::Message::SelectedRelease("3.19".to_string())));
    state.update(Message::StartDownloads(
        "vm".to_string(),
        vec![descriptor("/vms/disk.img")],
    ));
    assert!(matches!(state.page, Page::Download(_)));

    let act = state.update(Message::Download(download::Message::CancelDownloads));
    assert!(matches!(act, Action::CancelTransfers));
    assert!(matches!(state.page, Page::SelectOS));
}

#[test]
fn a_transfer_error_is_surfaced_but_does_not_end_the_session() {
    let mut state = start();
    state.update(Message::OSList(vec![alpine()]));
    state.update(Message::SelectedOS(alpine()));
    state.update(Message::Options(selection::Message::SelectedArch(x86())));
    state.update(Message::Options(selection::Message::SelectedRelease("3.19".to_string())));
    state.update(Message::StartDownloads(
        "vm".to_string(),
        vec![descriptor("/vms/a.img"), descriptor("/vms/b.img")],
    ));

    let act = state.update(transfer_event(0, DownloadMessage::Error("timed out".to_string())));
    match act {
        Action::SurfaceError(e) => assert_eq!(e, "timed out"),
        a => panic!("expected a surfaced error, got {a:?}"),
    }
    // The session stays on the download page; the sibling transfer may
    // still finish.
    assert!(matches!(state.page, Page::Download(_)));
    state.update(transfer_event(1, DownloadMessage::Done));
    match &state.page {
        Page::Download(ds) => {
            assert!(ds.downloads[1].done);
            assert!(!ds.is_complete());
        },
        p => panic!("expected the download page, got {p:?}"),
    }
}

#[test]
fn terminal_errors_move_to_the_error_page() {
    let mut state = start();
    let act = state.update(Message::Error("catalog fetch failed".to_string()));
    assert!(matches!(act, Action::Idle));
    match &state.page {
        Page::Error(e) => assert_eq!(e, "catalog fetch failed"),
        p => panic!("expected the error page, got {p:?}"),
    }
}

#[test]
fn change_page_jumps_where_asked() {
    let mut state = start();
    state.update(Message::ChangePage(Box::new(Page::SelectOS)));
    assert!(matches!(state.page, Page::SelectOS));
}
