use sat_helix_ide::config::Config;
use sat_helix_ide::workspace::{
    absolute_path, ai_tab_wanted, project_session_name, sanitize_session_name, session_name_for,
    session_plan, status_bar_wanted, workspace_layout, ProjectDetector, SessionPlan,
    WorkspaceErrorKind, WorkspaceManager,
};
use sat_helix_ide::zellij::client::SessionStatus;

#[test]
fn creates_safe_session_name() {
    assert_eq!(sanitize_session_name("my project!"), "my-project");
}

#[test]
fn session_name_uses_project_directory_basename() {
    assert_eq!(project_session_name("/tmp/work/my-project"), "my-project");
}

#[test]
fn sanitizing_twice_changes_nothing() {
    for name in ["--a b--", "ünïcode", "__x__", "---", "ok_name-1"] {
        let once = sanitize_session_name(name);
        assert_eq!(sanitize_session_name(&once), once);
    }
    assert_eq!(sanitize_session_name("---"), "");
    assert_eq!(project_session_name("/"), "workspace");
}

#[test]
fn empty_session_names_are_refused() {
    let err = session_name_for(Some("!!!"), "/work/p").unwrap_err();
    assert_eq!(err.kind, WorkspaceErrorKind::EmptySessionName);
    assert_eq!(err.message(), "Session name cannot be empty");
    assert_eq!(session_name_for(None, "/work/my proj").unwrap(), "my-proj");
    assert_eq!(session_name_for(Some("x y"), "/work/p").unwrap(), "x-y");
}

#[test]
fn existing_sessions_are_attached_or_refused() {
    assert_eq!(session_plan(SessionStatus::Active, true, "s").unwrap(), SessionPlan::Attach);
    let err = session_plan(SessionStatus::Active, false, "s").unwrap_err();
    assert_eq!(
        err.message(),
        "Session 's' already exists; enable session.attach_existing or choose another --session name"
    );
    assert_eq!(session_plan(SessionStatus::Exited, false, "s").unwrap(), SessionPlan::Recreate);
    assert_eq!(session_plan(SessionStatus::NotFound, false, "s").unwrap(), SessionPlan::Create);
}

#[test]
fn manager_keeps_an_absolute_config_path() {
    let config = Config::default();
    let m = WorkspaceManager::new(&config, "~/c.toml", Some("/home/u"), Some("/work"));
    assert_eq!(m.app_config_path, "/home/u/c.toml");
    let m = WorkspaceManager::new(&config, "c.toml", Some("/home/u"), Some("/work"));
    assert_eq!(m.app_config_path, "/work/c.toml");
    assert_eq!(absolute_path("x", None), "./x");
}

#[test]
fn detects_project_types_in_marker_order() {
    let d = ProjectDetector::new();
    let mut present = [false; 9];
    assert_eq!(d.detect_project(present), None);
    present[8] = true;
    assert_eq!(d.detect_project(present), Some("git".to_string()));
    present[2] = true;
    assert_eq!(d.detect_project(present), Some("python".to_string()));
}

#[test]
fn ai_and_status_bar_follow_flags_then_config() {
    let config = Config::default();
    assert!(ai_tab_wanted(&config, None) == config.session.ai_by_default);
    assert!(!ai_tab_wanted(&config, Some(false)));
    assert!(ai_tab_wanted(&config, Some(true)));
    assert!(!status_bar_wanted(&config, Some(false)));
    assert_eq!(status_bar_wanted(&config, None), config.session.status_bar);
}

#[test]
fn workspace_layout_places_the_editor() {
    let config = Config::default();
    let layout = workspace_layout(&config, "/usr/bin/hx", None, "/usr/bin/shiki", "/work", false);
    assert!(layout.contains("command=\"/usr/bin/hx\""));
    assert!(!layout.contains("tab name=\"ai\""));
    let with_ai = workspace_layout(&config, "/usr/bin/hx", Some("/usr/bin/vibe"), "/usr/bin/shiki", "/work", false);
    assert!(with_ai.contains("tab name=\"ai\""));
}
