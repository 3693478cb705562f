use quickvm::arch::{AArch64Machine, Arch, X86_64Machine};
use quickvm::catalog::{OsEntry, ReleaseConfig};
use quickvm::selection::{Action, ConfigurationError, Message, OptionSelection};

fn x86() -> Arch {
    Arch::X86_64 { machine: X86_64Machine::Standard }
}

fn aarch64() -> Arch {
    Arch::AArch64 { machine: AArch64Machine::Standard }
}

fn cfg(release: &str, edition: Option<&str>, arch: Arch) -> ReleaseConfig {
    ReleaseConfig { release: release.to_string(), edition: edition.map(str::to_string), arch }
}

fn alpine() -> OsEntry {
    OsEntry {
        name: "alpine".to_string(),
        pretty_name: "Alpine".to_string(),
        homepage: None,
        releases: vec![
            cfg("3.19", None, x86()),
            cfg("3.19", None, aarch64()),
            cfg("3.18", None, x86()),
        ],
    }
}

fn ubuntu() -> OsEntry {
    OsEntry {
        name: "ubuntu".to_string(),
        pretty_name: "Ubuntu".to_string(),
        homepage: Some("https://ubuntu.com".to_string()),
        releases: vec![
            cfg("24.04", Some("desktop"), x86()),
            cfg("24.04", Some("server"), x86()),
            cfg("23.10", Some("desktop"), aarch64()),
        ],
    }
}

fn fresh(os: OsEntry) -> OptionSelection {
    OptionSelection::new(os, "/vms".to_string(), 4, 4 * 1024 * 1024 * 1024)
}

#[test]
fn alpine_dependent_filtering_scenario() {
    let mut sel = fresh(alpine());
    assert_eq!(sel.release_list.values, vec!["3.19", "3.18"]);
    assert_eq!(sel.arch_list.values, vec![x86(), aarch64()]);

    sel.select_arch(x86());
    assert_eq!(sel.release_list.values, vec!["3.19", "3.18"]);

    sel.select_release("3.18".to_string());
    assert_eq!(sel.arch_list.values, vec![x86()]);
    assert_eq!(sel.arch_list.selected, Some(x86()));
    assert_eq!(sel.default_vm_name.as_deref(), Some("alpine-3.18-x86_64"));
}

#[test]
fn candidate_sets_are_filtered_projections() {
    let mut sel = fresh(ubuntu());
    assert_eq!(sel.release_list.values, vec!["24.04", "23.10"]);
    assert_eq!(sel.edition_list.values, vec!["desktop", "server"]);
    assert_eq!(sel.arch_list.values, vec![x86(), aarch64()]);

    sel.select_arch(aarch64());
    assert_eq!(sel.release_list.values, vec!["23.10"]);
    assert_eq!(sel.edition_list.values, vec!["desktop"]);
}

#[test]
fn duplicate_candidates_keep_first_seen_order_once() {
    let sel = fresh(ubuntu());
    // "24.04" appears in two configurations but is offered once.
    assert_eq!(sel.release_list.values, vec!["24.04", "23.10"]);
}

#[test]
fn dangling_arch_selection_is_cleared() {
    let mut sel = fresh(alpine());
    // Pre-selecting the machine's architecture recomputes nothing, so
    // the release list still offers every release.
    sel.try_select_arch(aarch64());
    assert_eq!(sel.arch_list.selected, Some(aarch64()));
    assert_eq!(sel.release_list.values, vec!["3.19", "3.18"]);

    // 3.18 only exists for x86_64: the architecture candidates are
    // recomputed and the dangling AArch64 selection is unset.
    sel.select_release("3.18".to_string());
    assert_eq!(sel.arch_list.values, vec![x86()]);
    assert_eq!(sel.arch_list.selected, None);
    assert_eq!(sel.default_vm_name, None);
}

#[test]
fn try_select_arch_ignores_a_non_candidate() {
    let mut sel = fresh(ubuntu());
    sel.select_arch(x86());
    // Selecting the release narrows the architecture candidates to
    // x86_64 alone.
    sel.select_release("24.04".to_string());
    assert_eq!(sel.arch_list.values, vec![x86()]);
    sel.try_select_arch(aarch64());
    assert_eq!(sel.arch_list.selected, Some(x86()));
}

#[test]
fn default_name_waits_for_edition_when_editions_exist() {
    let mut sel = fresh(ubuntu());
    sel.select_arch(x86());
    sel.select_release("24.04".to_string());
    // Editions exist and none is selected: no default name yet.
    assert_eq!(sel.default_vm_name, None);
    sel.select_edition("server".to_string());
    assert_eq!(sel.default_vm_name.as_deref(), Some("ubuntu-24.04-server-x86_64"));
}

#[test]
fn resolve_returns_first_match_with_session_values() {
    let mut sel = fresh(ubuntu());
    sel.select_arch(x86());
    sel.select_release("24.04".to_string());
    sel.select_edition("desktop".to_string());
    let rc = sel.resolve("my-vm").expect("a matching configuration exists");
    assert_eq!(rc.os, "ubuntu");
    assert_eq!(rc.config.release, "24.04");
    assert_eq!(rc.config.edition.as_deref(), Some("desktop"));
    assert_eq!(rc.config.arch, x86());
    assert_eq!(rc.vm_name, "my-vm");
    assert_eq!(rc.directory, "/vms");
    assert_eq!(rc.cpu_cores, 4);
    assert_eq!(rc.ram_bytes, 4 * 1024 * 1024 * 1024);
}

#[test]
fn resolve_fails_when_nothing_matches_all_three() {
    let mut sel = fresh(ubuntu());
    sel.select_arch(x86());
    sel.select_release("24.04".to_string());
    // Editions exist for this release/architecture pair but none is
    // selected: no configuration carries an absent edition.
    assert!(matches!(sel.resolve("my-vm"), Err(ConfigurationError::NoMatchingConfig)));
}

#[test]
fn can_go_next_requires_name_and_full_selection() {
    let mut sel = fresh(alpine());
    sel.select_arch(x86());
    sel.select_release("3.18".to_string());
    assert!(sel.can_go_next("alpine-vm"));
    assert!(!sel.can_go_next(""));
    assert!(!sel.can_go_next("evil/name"));

    let under_specified = fresh(alpine());
    assert!(!under_specified.can_go_next("alpine-vm"));
}

#[test]
fn effective_name_prefers_the_user_supplied_one() {
    let mut sel = fresh(alpine());
    sel.select_arch(x86());
    sel.select_release("3.19".to_string());
    assert_eq!(sel.effective_vm_name().as_deref(), Some("alpine-3.19-x86_64"));
    sel.update(Message::SelectedVMName("custom".to_string()));
    assert_eq!(sel.effective_vm_name().as_deref(), Some("custom"));
}

#[test]
fn update_sets_resources_directory_and_name() {
    let mut sel = fresh(alpine());
    assert_eq!(sel.update(Message::SetCPUCores(8)), Action::Idle);
    assert_eq!(sel.cpu_cores, 8);
    assert_eq!(sel.update(Message::SetRAM(1024)), Action::Idle);
    assert_eq!(sel.ram_bytes, 1024);
    assert_eq!(sel.update(Message::SelectVMDir), Action::PickDirectory);
    assert_eq!(sel.directory, "/vms");
    assert_eq!(sel.update(Message::SelectedVMDir("/elsewhere".to_string())), Action::Idle);
    assert_eq!(sel.directory, "/elsewhere");
}

#[test]
fn finalizing_an_empty_name_clears_it() {
    let mut sel = fresh(alpine());
    sel.update(Message::SelectedVMName(String::new()));
    assert_eq!(sel.vm_name.as_deref(), Some(""));
    sel.update(Message::FinalizeVMName);
    assert_eq!(sel.vm_name, None);

    sel.update(Message::SelectedVMName("kept".to_string()));
    sel.update(Message::FinalizeVMName);
    assert_eq!(sel.vm_name.as_deref(), Some("kept"));
}

#[test]
fn update_select_messages_drive_the_filters() {
    let mut sel = fresh(ubuntu());
    assert_eq!(sel.update(Message::SelectedArch(x86())), Action::Idle);
    assert_eq!(sel.update(Message::SelectedRelease("24.04".to_string())), Action::Idle);
    assert_eq!(sel.update(Message::SelectedEdition("server".to_string())), Action::Idle);
    assert_eq!(sel.default_vm_name.as_deref(), Some("ubuntu-24.04-server-x86_64"));
}

#[test]
fn configuration_error_messages_are_stable() {
    assert_eq!(
        ConfigurationError::NoMatchingConfig.message(),
        "no configuration matches the selected release, edition and architecture"
    );
    assert_eq!(
        ConfigurationError::DuplicateDestination.message(),
        "two transfers target the same destination file"
    );
}
