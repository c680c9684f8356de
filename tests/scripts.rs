use seramc_ssh::scripts::{Script, ScriptManager};

#[test]
fn test_script_filename() {
    assert_eq!(Script::InstallVPS.filename(), "install-vps.sh");
    assert_eq!(Script::ContinueInstall.filename(), "continue-install.sh");
    assert_eq!(Script::Uninstall.filename(), "uninstall.sh");
    assert_eq!(Script::Build.filename(), "build.sh");
    assert_eq!(Script::TestAPI.filename(), "test-api.sh");
}

#[test]
fn test_script_description() {
    assert!(!Script::InstallVPS.description().is_empty());
    assert!(!Script::ContinueInstall.description().is_empty());
    assert!(!Script::Uninstall.description().is_empty());
    assert!(!Script::Build.description().is_empty());
    assert!(!Script::TestAPI.description().is_empty());
}

#[test]
fn script_path_joins_directory_and_name() {
    let m = ScriptManager::new("/opt/res".to_string());
    assert_eq!(m.get_script_path(Script::Uninstall), "/opt/res/uninstall.sh");
    let m = ScriptManager::new("/opt/res/".to_string());
    assert_eq!(m.get_script_path(Script::Build), "/opt/res/build.sh");
    let m = ScriptManager::new(String::new());
    assert_eq!(m.get_script_path(Script::TestAPI), "test-api.sh");
}

#[test]
fn scripts_are_listed_in_fixed_order() {
    let m = ScriptManager::new("/r".to_string());
    let names: Vec<&str> = m.list_scripts().iter().map(|s| s.filename()).collect();
    assert_eq!(
        names,
        vec!["install-vps.sh", "continue-install.sh", "uninstall.sh", "build.sh", "test-api.sh"]
    );
}

#[test]
fn scripts_info_follows_the_probes() {
    let m = ScriptManager::new("/r".to_string());
    let found = vec![(true, Some(120u64)), (false, Some(7u64)), (true, None)];
    let info = m.get_scripts_info(&found);
    assert_eq!(info.len(), 5);
    assert_eq!(info[0].name, "install-vps.sh");
    assert!(info[0].exists);
    assert_eq!(info[0].size_bytes, Some(120));
    assert!(!info[1].exists);
    assert_eq!(info[1].size_bytes, None);
    assert!(info[2].exists);
    assert_eq!(info[2].size_bytes, None);
    assert!(!info[4].exists);
    assert_eq!(info[4].description, Script::TestAPI.description());
}
