use sat_helix_ide::actions::{
    after_resize, dock_toggle, file_manager_pane_args, file_manager_plan, git_pane_args,
    resize_argument, resize_step, respawn_geometry, Axis, DockToggle, FileManagerAction,
    FileManagerPlan, PaneInfo, ResizeOutcome, ResizeStep, EDITOR_PANE, FILE_MANAGER_PANE,
};
use sat_helix_ide::config::DockPosition;

fn pane(id: u64, title: &str, tab_id: u64, floating: bool) -> PaneInfo {
    PaneInfo {
        id,
        is_plugin: false,
        is_floating: floating,
        is_fullscreen: false,
        title: title.to_string(),
        tab_id,
        pane_columns: 80,
        pane_rows: 24,
    }
}

#[test]
fn ctrl_y_opens_or_focuses_the_file_manager() {
    let with_fm = vec![pane(1, EDITOR_PANE, 0, false), pane(3, FILE_MANAGER_PANE, 0, true)];
    assert!(matches!(
        file_manager_plan(&with_fm, FileManagerAction::Open, None, Some(9)),
        FileManagerPlan::FocusExisting(1)
    ));
    let without = vec![pane(1, EDITOR_PANE, 0, false), pane(9, "helper", 0, true)];
    assert!(matches!(
        file_manager_plan(&without, FileManagerAction::Open, None, Some(9)),
        FileManagerPlan::RenameAndRun(9)
    ));
    let other_tab = vec![pane(1, EDITOR_PANE, 0, false), pane(9, "helper", 2, true)];
    assert!(matches!(
        file_manager_plan(&other_tab, FileManagerAction::Open, Some(9), None),
        FileManagerPlan::SpawnOnCodeTab(0)
    ));
    assert!(matches!(
        file_manager_plan(&without, FileManagerAction::Open, None, None),
        FileManagerPlan::MissingPaneId
    ));
}

#[test]
fn alt_y_toggles_between_floating_and_docked() {
    let with_fm = vec![pane(1, EDITOR_PANE, 0, false), pane(3, FILE_MANAGER_PANE, 0, true)];
    assert!(matches!(
        file_manager_plan(&with_fm, FileManagerAction::ToggleDock, None, Some(9)),
        FileManagerPlan::ToggleExistingDock { pane: 1, editor: 0 }
    ));
    assert!(matches!(dock_toggle(true), DockToggle::DockLeft));
    assert!(matches!(dock_toggle(false), DockToggle::FloatFromHelper));
    let without = vec![pane(1, EDITOR_PANE, 0, false)];
    assert!(matches!(
        file_manager_plan(&without, FileManagerAction::ToggleDock, None, Some(9)),
        FileManagerPlan::BecomeFloating(9)
    ));
    assert!(matches!(
        file_manager_plan(&vec![pane(3, FILE_MANAGER_PANE, 0, true)], FileManagerAction::ToggleDock, None, Some(9)),
        FileManagerPlan::MissingEditor
    ));
}

#[test]
fn resize_steps_move_towards_the_target() {
    assert!(resize_step(15, 15).is_none());
    assert!(resize_step(16, 15).is_none());
    assert!(matches!(resize_step(50, 15), Some(ResizeStep::Coarse { grow: false })));
    assert!(matches!(resize_step(10, 15), Some(ResizeStep::Fine { grow: true })));
    assert_eq!(resize_argument(ResizeStep::Coarse { grow: true }), "+");
    assert_eq!(resize_argument(ResizeStep::Coarse { grow: false }), "-");
    assert_eq!(resize_argument(ResizeStep::Fine { grow: true }), "increase");
    assert_eq!(resize_argument(ResizeStep::Fine { grow: false }), "decrease");
    assert!(matches!(after_resize(20, 15, 15, false), ResizeOutcome::Done));
    assert!(matches!(after_resize(20, 15, 18, false), ResizeOutcome::Continue));
    assert!(matches!(after_resize(20, 15, 21, false), ResizeOutcome::Undo { grow: true }));
    assert!(matches!(after_resize(40, 15, 45, true), ResizeOutcome::Continue));
}

#[test]
fn respawned_terminals_grow_towards_the_editor() {
    let (axis, border) = respawn_geometry(DockPosition::Down);
    assert_eq!((axis, border), (Axis::Rows, "up"));
    let (axis, border) = respawn_geometry(DockPosition::Right);
    assert_eq!((axis, border), (Axis::Columns, "left"));
}

#[test]
fn helper_panes_are_opened_with_zellij_new_pane() {
    let args = git_pane_args(2, "/usr/bin/lazygit", &vec!["--debug".to_string()]);
    assert_eq!(
        args,
        vec![
            "action", "new-pane", "--close-on-exit", "--name", "git", "--tab-id", "2", "--floating", "--x",
            "0%", "--y", "0%", "--width", "100%", "--height", "100%", "--", "/usr/bin/lazygit", "--debug"
        ]
    );
    let fm = file_manager_pane_args(0, false, "90%", "80%", "/bin/sat", "/c.toml");
    assert!(!fm.contains(&"--floating".to_string()));
    assert!(fm.ends_with(&["--".to_string(), "/bin/sat".to_string(), "--config".to_string(), "/c.toml".to_string(), "__file-manager".to_string(), "run".to_string()]));
    let floating = file_manager_pane_args(0, true, "90%", "80%", "/bin/sat", "/c.toml");
    assert!(floating.contains(&"90%".to_string()) && floating.contains(&"--floating".to_string()));
}
