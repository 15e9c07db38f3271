use sat_helix_ide::error::HxIdeError;
use sat_helix_ide::ipc::{current_socket_path, pid_path, session_socket_path, socket_path, text_hash};

#[test]
fn pid_files_are_unique_per_project_socket() {
    let sock_a = socket_path("/home/user/project-a", "/run/user/1000");
    let sock_b = socket_path("/home/user/project-b", "/run/user/1000");
    assert_ne!(pid_path(&sock_a), pid_path(&sock_b));
}

#[test]
fn socket_names_hash_the_project_path() {
    assert_eq!(text_hash(""), 0);
    assert_eq!(text_hash("a"), 97);
    assert_eq!(text_hash("ab"), 97 * 31 + 98);
    assert_eq!(socket_path("ab", "/run"), format!("/run/sat-hx-ide-{}.sock", 97 * 31 + 98));
    assert_eq!(session_socket_path("ab", "/run"), socket_path("ab", "/run"));
    assert_eq!(current_socket_path(None, None, "/tmp"), socket_path("default", "/tmp"));
    assert_eq!(current_socket_path(Some("/w"), Some("s"), "/tmp"), socket_path("/w", "/tmp"));
}

#[test]
fn hashing_wraps_around() {
    let long = "z".repeat(40);
    let expected = long.bytes().fold(0u64, |acc, b| acc.wrapping_mul(31).wrapping_add(b as u64));
    assert_eq!(text_hash(&long), expected);
    assert_eq!(text_hash("é"), (0xC3u64 * 31) + 0xA9);
}

#[test]
fn pid_file_sits_beside_the_socket() {
    assert_eq!(pid_path("/run/sat-hx-ide-1.sock"), "/run/sat-hx-ide-1.pid");
    assert_eq!(pid_path("/run/daemon"), "/run/daemon.pid");
}

#[test]
fn error_messages_and_kinds() {
    let e = HxIdeError::ToolNotFound("yazi".to_string());
    assert!(e.is_tool_not_found());
    assert_eq!(e.message(), "Tool not found: yazi");
    assert!(!HxIdeError::IoError("x".to_string()).is_tool_not_found());
    assert_eq!(HxIdeError::ConfigError("bad".to_string()).message(), "Configuration error: bad");
}
