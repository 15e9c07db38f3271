use sat_helix_ide::setup::catalog::{InstallMethod, ToolId};
use sat_helix_ide::setup::detect::{any_probe_found, pkg_manager_probe_order, probe_tool, HostInfo, PkgManager};
use sat_helix_ide::setup::execute::{
    delta_selected, format_argv, installed_for_config, kept_tools, ExecuteReport,
};
use sat_helix_ide::setup::plan::{build_plan, step_for_with, InstallStep, ToolSelection};
use sat_helix_ide::setup::ui::{tool_row_text, RowKind, SetupApp, SetupKey};

fn host_with(pkg_manager: Option<PkgManager>) -> HostInfo {
    HostInfo {
        target: "x86_64-unknown-linux-gnu".to_string(),
        pkg_manager,
        has_cargo: true,
        has_curl: true,
        install_dir: "/tmp/bin".to_string(),
    }
}

#[test]
fn helix_has_no_cargo_method() {
    assert!(!ToolId::Helix.methods().contains(&InstallMethod::Cargo));
}

#[test]
fn lazygit_has_no_cargo_method() {
    assert!(!ToolId::Lazygit.methods().contains(&InstallMethod::Cargo));
}

#[test]
fn cycle_method_wraps() {
    let methods = ToolId::Zellij.methods();
    let next = InstallMethod::Binary.next(&methods);
    assert_eq!(next, InstallMethod::Cargo);
}

#[test]
fn yazi_cargo_crate_name() {
    assert_eq!(ToolId::Yazi.cargo_crate(), Some("yazi-fm"));
}

#[test]
fn brew_install_args() {
    let args = PkgManager::Brew.install_args("zellij");
    assert_eq!(args, vec!["install", "zellij"]);
}

#[test]
fn format_quotes_shell_script() {
    let argv = vec!["sh".into(), "-lc".into(), "echo hello world".into()];
    let s = format_argv(&argv);
    assert!(s.contains("'echo hello world'"));
}

#[test]
fn skips_unselected_and_installed() {
    let host = host_with(Some(PkgManager::Brew));
    let sels = vec![
        ToolSelection {
            tool: ToolId::Zellij,
            method: InstallMethod::Cargo,
            selected: false,
            already_installed: false,
        },
        ToolSelection {
            tool: ToolId::Yazi,
            method: InstallMethod::Cargo,
            selected: true,
            already_installed: true,
        },
        ToolSelection {
            tool: ToolId::Gitui,
            method: InstallMethod::Cargo,
            selected: true,
            already_installed: false,
        },
    ];
    let plan = build_plan(&sels, &host).unwrap();
    assert_eq!(plan.len(), 1);
    assert_eq!(plan[0].tool, ToolId::Gitui);
    assert!(plan[0].summary.contains("cargo install gitui"));
}

#[test]
fn package_step_uses_sudo_for_apt() {
    let host = host_with(Some(PkgManager::Apt));
    let step = step_for_with(ToolId::Delta, InstallMethod::Package, &host, true).unwrap();
    assert_eq!(step.argv[0], "sudo");
    assert!(step.argv.iter().any(|a| a == "git-delta"));
}

#[test]
fn cargo_step_fails_for_tools_without_a_crate() {
    let host = host_with(None);
    assert!(step_for_with(ToolId::Helix, InstallMethod::Cargo, &host, false).is_err());
}

fn app() -> SetupApp {
    SetupApp::new_with(host_with(Some(PkgManager::Brew)), false, true, &vec![false; 10])
}

#[test]
fn setup_rows_start_on_the_first_tool() {
    let app = app();
    assert!(matches!(app.rows[0], RowKind::Header(_)));
    assert!(matches!(app.rows[app.cursor], RowKind::Tool(_)));
    assert_eq!(app.cursor, 1);
}

#[test]
fn setup_keys_move_toggle_and_confirm() {
    let mut app = app();
    let first = app.current_tool_index().unwrap();
    let was = app.selections[first].selected;
    app.handle_key(SetupKey::Toggle);
    assert_eq!(app.selections[first].selected, !was);
    app.handle_key(SetupKey::Up);
    assert_eq!(app.cursor, 1);
    app.handle_key(SetupKey::Down);
    assert!(app.cursor > 1);
    assert!(app.outcome().is_none());
    app.handle_key(SetupKey::Confirm);
    assert_eq!(app.outcome().unwrap().len(), app.selections.len());
    app.handle_key(SetupKey::Quit);
    assert!(app.outcome().is_none());
}

#[test]
fn setup_category_toggle_switches_all_tools_of_it() {
    let mut app = app();
    let idx = app.current_tool_index().unwrap();
    let category = app.selections[idx].tool.category();
    let in_category = |app: &SetupApp, on: bool| {
        app.selections
            .iter()
            .filter(|s| s.tool.category() == category)
            .all(|s| s.selected == on)
    };
    assert!(in_category(&app, true));
    app.handle_key(SetupKey::ToggleCategory);
    assert!(in_category(&app, false));
    app.handle_key(SetupKey::ToggleCategory);
    assert!(in_category(&app, true));
}

#[test]
fn execute_report_records_outcomes() {
    let mut report = ExecuteReport::default();
    report.record(ToolId::Yazi, Ok(()));
    report.record(ToolId::Gitui, Err("exit 1".to_string()));
    assert_eq!(report.succeeded, vec!["yazi".to_string()]);
    assert_eq!(report.failed, vec![("gitui".to_string(), "exit 1".to_string())]);
    let sels = vec![ToolSelection {
        tool: ToolId::Lazygit,
        method: InstallMethod::Package,
        selected: true,
        already_installed: true,
    }];
    assert_eq!(installed_for_config(&report, &sels), vec!["yazi", "lazygit"]);
    let steps: Vec<InstallStep> = vec![];
    assert!(ExecuteReport::dry_run(&steps).skipped.is_empty());
}

#[test]
fn a_tool_is_installed_once_one_probe_finds_it() {
    assert!(any_probe_found(&vec![false, true]));
    assert!(any_probe_found(&vec![true]));
    assert!(!any_probe_found(&vec![false, false]));
    assert!(!any_probe_found(&Vec::new()));
}

#[test]
fn setup_rows_and_summary_texts() {
    let sel = ToolSelection { tool: ToolId::Gitui, method: InstallMethod::Cargo, selected: true, already_installed: false };
    assert_eq!(tool_row_text(&sel, true), "  [x] gitui       missing     method: cargo");
    assert_eq!(tool_row_text(&sel, false), "  [x] gitui       missing     method: cargo (unavailable)");
    let kept = ToolSelection { tool: ToolId::Delta, method: InstallMethod::Cargo, selected: true, already_installed: true };
    let sels = vec![sel, kept];
    assert_eq!(kept_tools(&sels), vec!["delta".to_string()]);
    assert!(delta_selected(&sels));
    assert!(!delta_selected(&vec![sels[0].clone()]));
}

#[test]
fn probes_stop_at_the_first_find() {
    let found = probe_tool(ToolId::Helix);
    assert!(!found.is_empty() && found.len() <= 2);
    assert!(found[..found.len() - 1].iter().all(|f| !f));
    if found.len() < 2 {
        assert!(found[0]);
    }
    assert_eq!(
        pkg_manager_probe_order(),
        vec![PkgManager::Brew, PkgManager::Apt, PkgManager::Dnf, PkgManager::Pacman]
    );
}
