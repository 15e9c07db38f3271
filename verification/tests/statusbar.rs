use sat_helix_ide::statusbar::{
    active_venv_label, classify_porcelain, collect_status, format_status_line, git_summary,
    short_venv_name, CommandOutput, GitState, StatusBarSnapshot,
};
use sat_helix_ide::venv::SelectableVenv;

#[test]
fn classify_clean_tree() {
    assert_eq!(classify_porcelain(""), GitState::Clean);
}

#[test]
fn classify_modified_and_untracked() {
    assert_eq!(classify_porcelain(" M file\n"), GitState::Modified);
    assert_eq!(classify_porcelain("?? new\n"), GitState::Untracked);
    assert_eq!(classify_porcelain("A  staged\n"), GitState::Staged);
}

#[test]
fn classify_mixed_entries() {
    assert_eq!(classify_porcelain("A  a\n M b\n"), GitState::Modified);
    assert_eq!(classify_porcelain("A  a\n?? b\n"), GitState::Staged);
    assert_eq!(classify_porcelain("\n  \n"), GitState::Clean);
    assert_eq!(classify_porcelain("MM both\r\n"), GitState::Modified);
}

#[test]
fn format_includes_session_before_git() {
    let line = format_status_line(&StatusBarSnapshot {
        session_name: "my-project".to_string(),
        branch: "main".to_string(),
        git_state: GitState::Clean,
        venv_label: None,
    });
    assert!(line.contains("session"));
    assert!(line.contains("my-project"));
    let session_pos = line.find("my-project").unwrap();
    let git_pos = line.find("git").unwrap();
    assert!(session_pos < git_pos);
}

#[test]
fn format_shows_state_label_and_venv() {
    let line = format_status_line(&StatusBarSnapshot {
        session_name: "s".to_string(),
        branch: "dev".to_string(),
        git_state: GitState::NoRepo,
        venv_label: Some("proj/.venv".to_string()),
    });
    assert!(line.contains("no git"));
    assert!(line.contains("\x1b[38;2;180;190;254mproj/.venv\x1b[0m"));
    assert!(line.starts_with("\x1b[38;2;49;50;68m "));
}

fn out(success: bool, stdout: &str) -> CommandOutput {
    CommandOutput { success, stdout: stdout.to_string() }
}

#[test]
fn git_summary_follows_the_commands() {
    assert_eq!(
        git_summary(&out(true, "false\n"), &None, &None),
        ("—".to_string(), GitState::NoRepo)
    );
    assert_eq!(
        git_summary(&out(true, "true\n"), &Some(out(true, "main\n")), &Some(out(true, "?? x\n"))),
        ("main".to_string(), GitState::Untracked)
    );
    assert_eq!(
        git_summary(&out(true, "true\n"), &Some(out(true, "main\n")), &Some(out(false, ""))),
        ("main".to_string(), GitState::NoRepo)
    );
    let snap = collect_status("s", &out(true, "true"), &Some(out(true, "b")), &Some(out(true, "")), None);
    assert_eq!(snap.branch, "b");
    assert_eq!(snap.git_state, GitState::Clean);
}

#[test]
fn short_names_for_environments() {
    assert_eq!(short_venv_name("Custom: /p/env", "/p/env"), "/p/env");
    assert_eq!(short_venv_name("Configured: ~/e", "/h/e"), "~/e");
    assert_eq!(short_venv_name(".venv", "/work/proj/.venv"), "proj/.venv");
    assert_eq!(short_venv_name("x", "/work/env"), "env");
    assert_eq!(short_venv_name("x", "/"), "/");
}

#[test]
fn venv_label_needs_the_active_marker() {
    let sel = SelectableVenv {
        name: ".venv".to_string(),
        path: "~/proj/.venv".to_string(),
        venv_type: "venv".to_string(),
    };
    assert_eq!(active_venv_label(false, &Some(sel.clone()), Some("/home/u")), None);
    assert_eq!(
        active_venv_label(true, &Some(sel), Some("/home/u")),
        Some("proj/.venv".to_string())
    );
    assert_eq!(active_venv_label(true, &None, None), Some("active".to_string()));
}
