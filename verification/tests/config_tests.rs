use quickvm::config::Config;

#[test]
fn default_memory_is_empty() {
    let c = Config::default();
    assert_eq!(c.default_vm_dir, "");
    assert!(c.existing_vm_configs.is_empty());
}

#[test]
fn written_configurations_append_duplicates_included() {
    let mut c = Config::default();
    c.record_vm_config("/vms/a/vm.toml".to_string());
    c.record_vm_config("/vms/b/vm.toml".to_string());
    c.record_vm_config("/vms/a/vm.toml".to_string());
    assert_eq!(
        c.existing_vm_configs,
        vec!["/vms/a/vm.toml", "/vms/b/vm.toml", "/vms/a/vm.toml"]
    );
}

#[test]
fn last_used_directory_is_remembered() {
    let mut c = Config::default();
    c.record_vm_config("/vms/a/vm.toml".to_string());
    c.set_default_vm_dir("/vms".to_string());
    assert_eq!(c.default_vm_dir, "/vms");
    assert_eq!(c.existing_vm_configs, vec!["/vms/a/vm.toml"]);
}
