use sat_helix_ide::resolve::{
    is_path_like, is_safe_command_name, is_snap_wrapper, login_shell_query, needs_canonicalize,
    normalize_executable_path, not_found_message, shell_answer,
};
use std::path::Path;

#[test]
fn recognizes_snap_wrappers() {
    assert!(is_snap_wrapper("/snap/bin/hx"));
    assert!(is_snap_wrapper("/snap/bin/helix"));
    assert!(!is_snap_wrapper("/snap/helix/current/bin/hx"));
    assert!(!is_snap_wrapper("/usr/bin/hx"));
}

#[test]
fn preserves_snap_wrapper_paths_without_canonicalizing() {
    let path = "/snap/bin/hx";
    if !Path::new(path).exists() {
        return;
    }

    let normalized = normalize_executable_path(path, true, None).unwrap();
    assert_eq!(normalized, path);
}

#[test]
fn rejects_unsafe_shell_lookup_names() {
    assert!(login_shell_query("hx; rm -rf /").is_none());
    assert_eq!(login_shell_query("hx").unwrap(), "command -v hx");
    assert!(!is_safe_command_name(""));
    assert!(is_safe_command_name("glab-tui.v2_x"));
}

#[test]
fn canonicalizes_relative_and_dotted_paths() {
    assert!(needs_canonicalize("bin/hx"));
    assert!(needs_canonicalize("/usr/../bin/hx"));
    assert!(!needs_canonicalize("/usr/bin/hx"));
    assert_eq!(normalize_executable_path("./hx", true, Some("/w/hx")).unwrap(), "/w/hx");
    assert_eq!(
        normalize_executable_path("/usr/bin/none", false, None).unwrap_err(),
        "Cannot find executable '/usr/bin/none'"
    );
}

#[test]
fn reads_the_login_shell_answer() {
    assert_eq!(shell_answer("/usr/bin/hx\nextra\n").unwrap(), "/usr/bin/hx");
    assert!(shell_answer("  \n").is_none());
    assert!(is_path_like("./hx") && is_path_like("/usr/bin/hx") && !is_path_like("hx"));
    assert!(not_found_message("hx").starts_with("Cannot find executable 'hx'. If it is a shell alias"));
}
