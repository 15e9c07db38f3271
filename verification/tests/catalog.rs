use sat_helix_ide::config::Config;
use sat_helix_ide::setup::catalog::{config_preference, Category, InstallMethod, ToolId};
use sat_helix_ide::setup::config_write::apply_selection_with;
use sat_helix_ide::setup::detect::{
    choose_pkg_manager, detect_target, ensure_path_hint, HostInfo, PkgManager,
};
use sat_helix_ide::setup::plan::{package_step_preview, ToolSelection};

#[test]
fn next_method_cycles_through_the_available_ones() {
    let available = [InstallMethod::Package, InstallMethod::Binary];
    assert_eq!(InstallMethod::Cargo.next(&available), InstallMethod::Package);
    assert_eq!(InstallMethod::Package.next(&available), InstallMethod::Binary);
    assert_eq!(InstallMethod::Binary.next(&available), InstallMethod::Package);
    assert_eq!(InstallMethod::Binary.next(&[]), InstallMethod::Binary);
}

#[test]
fn preferences_stay_within_their_category() {
    for category in Category::all() {
        for tool in config_preference(*category) {
            assert_eq!(tool.category(), *category);
        }
    }
}

#[test]
fn cargo_methods_have_crates() {
    for tool in sat_helix_ide::setup::catalog::catalog_tools() {
        if tool.methods().contains(&InstallMethod::Cargo) {
            assert!(tool.cargo_crate().is_some(), "{}", tool.as_str());
        }
    }
}

#[test]
fn available_methods_follow_the_host() {
    let host = HostInfo {
        target: "x86_64-unknown-linux-gnu".to_string(),
        pkg_manager: None,
        has_cargo: false,
        has_curl: true,
        install_dir: "/tmp/bin".to_string(),
    };
    for tool in sat_helix_ide::setup::catalog::catalog_tools() {
        for m in host.available_methods(tool) {
            assert!(tool.methods().contains(&m));
            assert_ne!(m, InstallMethod::Cargo);
            assert_ne!(m, InstallMethod::Package);
        }
    }
}

#[test]
fn package_managers_and_targets() {
    assert_eq!(choose_pkg_manager(false, false, true, true, false), Some(PkgManager::Apt));
    assert_eq!(choose_pkg_manager(true, false, true, false, false), None);
    assert_eq!(choose_pkg_manager(true, true, false, false, false), Some(PkgManager::Brew));
    assert_eq!(detect_target("linux", "x86_64").unwrap(), "x86_64-unknown-linux-gnu");
    assert!(detect_target("windows", "x86_64").is_err());
    assert!(PkgManager::Apt.needs_sudo());
    assert!(!PkgManager::Brew.needs_sudo());
    assert_eq!(package_step_preview(ToolId::Delta, PkgManager::Apt).unwrap(), "apt-get install -y git-delta");
}

#[test]
fn path_hint_only_when_missing_from_path() {
    let entries = vec!["/usr/bin".to_string(), "/home/u/.local/bin".to_string()];
    assert!(ensure_path_hint("/home/u/.local/bin", &entries).is_none());
    let hint = ensure_path_hint("/opt/bin", &entries).unwrap();
    assert_eq!(hint, "/opt/bin is not on PATH; add it or move installed binaries");
}

#[test]
fn selected_installed_tools_become_the_configured_ones() {
    let mut config = Config::default();
    let sels = vec![ToolSelection {
        tool: ToolId::Gitui,
        method: InstallMethod::Cargo,
        selected: true,
        already_installed: false,
    }];
    let notes = apply_selection_with(&mut config, &sels, &vec!["gitui".to_string()], &vec![false; 10]);
    assert_eq!(config.tools.git.command, "gitui");
    assert!(!notes.is_empty());
    let mut untouched = Config::default();
    let none = apply_selection_with(&mut untouched, &sels, &vec![], &vec![false; 10]);
    assert_eq!(untouched.tools.git.command, "lazygit");
    assert!(none.is_empty());
}

#[test]
fn writes_gitui_when_selected() {
    let mut config = Config::default();
    let selections = vec![ToolSelection {
        tool: ToolId::Gitui,
        method: InstallMethod::Cargo,
        selected: true,
        already_installed: true,
    }];
    let notes = apply_selection_with(&mut config, &selections, &vec![], &vec![false; 10]);
    assert!(notes.iter().any(|n| n.contains("gitui")));
    assert_eq!(config.tools.git.command, "gitui");
}
