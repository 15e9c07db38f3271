use sat_helix_ide::config::{CommandConfig, DockPosition, KeybindingConfig, MindMapConfig, TerminalConfig};
use sat_helix_ide::zellij::client::{parse_session_line, session_status_from_listing, SessionStatus};
use sat_helix_ide::zellij::layout::session_layout;
use sat_helix_ide::zellij::merge::merge_config;
use sat_helix_ide::zellij::runtime_config::{
    find_key_conflict, helper_binding, is_replaced_node, keybinds_index, normalize_key,
    runtime_bindings, session_name_node, shared_section_index, NodeOutline, RuntimeConfigInput,
};

fn terminal_config(percent: u8, position: DockPosition) -> TerminalConfig {
    TerminalConfig { enabled: true, dock_percent: percent, dock_position: position }
}

fn mindmap_config(percent: u8, position: DockPosition) -> MindMapConfig {
    MindMapConfig { enabled: true, dock_percent: percent, dock_position: position }
}

#[test]
fn parses_active_and_exited_session_lines() {
    assert_eq!(
        parse_session_line("sat-helix-ide [Created 1s ago]"),
        Some(("sat-helix-ide".to_string(), SessionStatus::Active))
    );
    assert_eq!(
        parse_session_line("sat-helix-ide [Created 9m ago] (EXITED - attach to resurrect)"),
        Some(("sat-helix-ide".to_string(), SessionStatus::Exited))
    );
    assert!(parse_session_line("No active zellij sessions found.").is_none());
}

#[test]
fn finds_a_session_in_a_listing() {
    let listing = "other [Created 1s ago]\nsat [Created 2m ago] (EXITED - attach to resurrect)\n";
    assert_eq!(session_status_from_listing(listing, "sat"), SessionStatus::Exited);
    assert_eq!(session_status_from_listing(listing, "other"), SessionStatus::Active);
    assert_eq!(session_status_from_listing(listing, "none"), SessionStatus::NotFound);
}

#[test]
fn builds_code_only_layout() {
    let editor = CommandConfig::new("hx");
    let layout = session_layout(&editor, "/usr/bin/hx", None, None, None, "/work", false);

    assert!(layout.contains("tab name=\"code\" focus=true"));
    assert!(layout.contains("command=\"/usr/bin/hx\""));
    assert!(!layout.contains("tab name=\"ai\""));
    assert!(!layout.contains("name=\"terminal\""));
    assert!(!layout.contains("name=\"mindmapping\""));
}

#[test]
fn adds_configured_ai_tab() {
    let editor = CommandConfig::new("hx");
    let ai = CommandConfig { command: "agent".to_string(), args: vec!["--resume".to_string()] };
    let layout = session_layout(
        &editor,
        "/usr/bin/hx",
        Some((&ai, "/usr/bin/agent")),
        None,
        None,
        "/work",
        false,
    );

    assert!(layout.contains("tab name=\"ai\""));
    assert!(layout.contains("args \"--resume\""));
}

#[test]
fn docks_the_terminal_under_the_editor() {
    let editor = CommandConfig::new("hx");
    let terminal = terminal_config(15, DockPosition::Down);
    let layout = session_layout(&editor, "/usr/bin/hx", None, Some(&terminal), None, "/work", false);

    assert!(layout.contains("split_direction=\"horizontal\""));
    assert!(layout.contains("pane name=\"terminal\" size=\"15%\" cwd=\"/work\""));
    let editor_at = layout.find("name=\"editor\"").unwrap();
    let terminal_at = layout.find("name=\"terminal\"").unwrap();
    assert!(editor_at < terminal_at, "terminal must sit below the editor");
}

#[test]
fn docks_the_terminal_right_of_the_editor() {
    let editor = CommandConfig::new("hx");
    let terminal = terminal_config(28, DockPosition::Right);
    let layout = session_layout(&editor, "/usr/bin/hx", None, Some(&terminal), None, "/work", false);

    assert!(layout.contains("split_direction=\"vertical\""));
    assert!(layout.contains("pane name=\"terminal\" size=\"28%\" cwd=\"/work\""));
    let editor_at = layout.find("name=\"editor\"").unwrap();
    let terminal_at = layout.find("name=\"terminal\"").unwrap();
    assert!(editor_at < terminal_at, "terminal must sit to the right of the editor");
}

#[test]
fn docks_the_mindmap_right_of_the_editor() {
    let editor = CommandConfig::new("hx");
    let mindmap = mindmap_config(40, DockPosition::Right);
    let tool = CommandConfig::new("shiki");
    let layout = session_layout(
        &editor,
        "/usr/bin/hx",
        None,
        None,
        Some((&mindmap, &tool, "/usr/bin/shiki")),
        "/work",
        false,
    );

    assert!(layout.contains("split_direction=\"vertical\""));
    assert!(layout.contains(
        "pane name=\"mindmapping\" size=\"40%\" command=\"/usr/bin/shiki\" cwd=\"/work\""
    ));
    let editor_at = layout.find("name=\"editor\"").unwrap();
    let mindmap_at = layout.find("name=\"mindmapping\"").unwrap();
    assert!(editor_at < mindmap_at, "mind map must sit to the right of the editor");
}

#[test]
fn disabled_mindmap_is_omitted_from_layout() {
    let editor = CommandConfig::new("hx");
    let mut mindmap = mindmap_config(40, DockPosition::Right);
    mindmap.enabled = false;
    let tool = CommandConfig::new("shiki");
    let layout = session_layout(
        &editor,
        "/usr/bin/hx",
        None,
        None,
        Some((&mindmap, &tool, "/usr/bin/shiki")),
        "/work",
        false,
    );

    assert!(!layout.contains("name=\"mindmapping\""));
}

#[test]
fn nests_mindmap_inside_terminal_split() {
    let editor = CommandConfig::new("hx");
    let terminal = terminal_config(15, DockPosition::Down);
    let mindmap = mindmap_config(30, DockPosition::Right);
    let tool = CommandConfig::new("shiki");
    let layout = session_layout(
        &editor,
        "/usr/bin/hx",
        None,
        Some(&terminal),
        Some((&mindmap, &tool, "/usr/bin/shiki")),
        "/work",
        false,
    );

    assert!(layout.contains("split_direction=\"horizontal\""));
    assert!(layout.contains("split_direction=\"vertical\""));
    assert!(layout.contains("name=\"mindmapping\""));
    assert!(layout.contains("name=\"terminal\""));
    let editor_at = layout.find("name=\"editor\"").unwrap();
    let mindmap_at = layout.find("name=\"mindmapping\"").unwrap();
    let terminal_at = layout.find("name=\"terminal\"").unwrap();
    assert!(editor_at < mindmap_at);
    assert!(mindmap_at < terminal_at);
}

fn keys() -> KeybindingConfig {
    KeybindingConfig::default()
}

fn input<'a>(keys: &'a KeybindingConfig, git_args: &'a [String]) -> RuntimeConfigInput<'a> {
    RuntimeConfigInput {
        source: None,
        destination: "/tmp/runtime/config.kdl",
        session_name: "my-project",
        keys,
        executable: "/usr/bin/sat-hx-ide",
        app_config: "/home/user/.config/sat-helix-ide/config.toml",
        git_command: "/usr/bin/lazygit",
        git_args,
        project_dir: "/work/project",
        float_width: "100%",
        float_height: "100%",
    }
}

#[test]
fn normalizes_keys_for_comparison() {
    assert_eq!(normalize_key("  Ctrl   Y "), "ctrl y");
    assert_eq!(normalize_key("Alt y"), "alt y");
    assert_eq!(normalize_key(""), "");
}

#[test]
fn rejects_an_existing_key() {
    let keys = keys();
    let bound = vec!["ctrl  y".to_string()];
    let conflict = find_key_conflict(&keys, &bound).unwrap();
    assert_eq!(conflict.action, "file manager");
    assert!(conflict.message().contains("is already bound"));
    assert!(find_key_conflict(&keys, &vec!["Ctrl q".to_string()]).is_none());

    let args: Vec<String> = vec![];
    let input = input(&keys, &args);
    let source = r#"
            keybinds {
                normal {
                    bind "Alt g" { Quit; }
                }
            }
        "#;
    let error = merge_config(source, &input).unwrap_err();
    assert!(error.contains("Alt g"));
}

#[test]
fn writes_project_session_name_into_runtime_config() {
    assert_eq!(session_name_node("my-project"), "session_name \"my-project\"\n");
    let keys = keys();
    let args: Vec<String> = vec![];
    let runtime = merge_config("", &input(&keys, &args)).unwrap();
    assert!(runtime.contains("session_name \"my-project\""));
    assert!(runtime.contains("session_serialization false"));
}

#[test]
fn preserves_user_nodes_and_adds_bindings() {
    let keys = keys();
    let args: Vec<String> = vec![];
    let original = "theme \"dracula\"\nsession_name \"old\"\nkeybinds clear-defaults=true {\n    normal {\n    }\n}\n";
    let runtime = merge_config(original, &input(&keys, &args)).unwrap();
    assert!(runtime.starts_with("theme \"dracula\""));
    assert!(!runtime.contains("session_name \"old\""));
    assert!(runtime.contains("clear-defaults=true"));
    for key in ["Ctrl y", "Alt y", "Alt t", "Alt Shift t", "Alt m", "Alt Shift m", "Alt g", "Alt r", "Alt w"] {
        assert!(runtime.contains(&format!("bind \"{key}\"")), "{key}");
    }
    assert!(runtime.contains("__review"));
    assert!(runtime.contains("__mindmap"));
}

#[test]
fn refuses_text_that_is_not_kdl() {
    let keys = keys();
    let args: Vec<String> = vec![];
    assert!(merge_config("keybinds {", &input(&keys, &args)).is_err());
}

#[test]
fn generated_bindings_reparse_inside_the_shared_section() {
    let keys = keys();
    let args: Vec<String> = vec![];
    let input = input(&keys, &args);
    let source = "keybinds {\n    shared_except \"locked\" {\n        bind \"Ctrl p\" { Quit; }\n    }\n}\n";

    let merged = merge_config(source, &input).unwrap();

    let shared = merged
        .parse::<kdl::KdlDocument>()
        .expect("merged config must still be valid KDL")
        .get("keybinds")
        .and_then(|keybinds| keybinds.children())
        .and_then(|children| children.get("shared_except"))
        .and_then(|shared| shared.children())
        .expect("shared_except section must survive the merge")
        .nodes()
        .iter()
        .filter_map(|node| node.entries().first())
        .filter_map(|entry| entry.value().as_string())
        .map(str::to_owned)
        .collect::<Vec<_>>();

    assert_eq!(
        shared,
        [
            "Ctrl p",
            "Ctrl y",
            "Alt y",
            "Alt t",
            "Alt Shift t",
            "Alt m",
            "Alt Shift m",
            "Alt g",
            "Alt r",
            "Alt w"
        ]
    );
}

#[test]
fn bindings_run_helpers_in_floating_panes() {
    let keys = keys();
    let args: Vec<String> = vec![];
    let input = input(&keys, &args);
    let bindings = runtime_bindings(&input);
    assert_eq!(bindings.len(), 9);
    assert_eq!(
        bindings[0],
        helper_binding(&input, &keys.file_manager, "__file-manager", "open", "sat-file-manager-request", true)
    );
    assert!(bindings[0].starts_with("bind \"Ctrl y\" {\n    Run \"/usr/bin/sat-hx-ide\" \"--config\" \"/home/user/.config/sat-helix-ide/config.toml\" \"__file-manager\" \"open\" {"));
    assert!(bindings[0].contains("width \"100%\""));
    assert!(bindings[1].contains("width \"1\"\n        height \"1\"\nborderless true"));
    assert!(bindings[8].contains("name \"sat-workflow-open\"\n        cwd \"/work/project\"\n    }\n}"));
}

#[test]
fn bindings_go_into_the_first_shared_locked_section() {
    let names = vec!["theme".to_string(), "keybinds".to_string(), "keybinds".to_string()];
    assert_eq!(keybinds_index(&names), Some(1));
    assert_eq!(keybinds_index(&vec!["theme".to_string()]), None);
    let node = |name: &str, strings: &[&str]| NodeOutline {
        name: name.to_string(),
        strings: strings.iter().map(|s| s.to_string()).collect(),
    };
    let children = vec![
        node("normal", &[]),
        node("shared_except", &["normal", "locked"]),
        node("shared_except", &["locked"]),
    ];
    assert_eq!(shared_section_index(&children), Some(1));
    assert_eq!(shared_section_index(&vec![node("shared_except", &["normal"])]), None);
    assert!(is_replaced_node("session_name") && is_replaced_node("session_serialization"));
    assert!(!is_replaced_node("theme"));
}

#[test]
fn user_bindings_stay_as_they_were() {
    let keys = keys();
    let args: Vec<String> = vec![];
    let source = "keybinds {\n    normal {\n        bind \"Ctrl q\" { Quit; }\n    }\n}\n";
    let merged = merge_config(source, &input(&keys, &args)).unwrap();
    let doc = merged.parse::<kdl::KdlDocument>().unwrap();
    let keybinds = doc.get("keybinds").unwrap().children().unwrap();
    let normal = keybinds.get("normal").unwrap().children().unwrap();
    assert_eq!(normal.nodes().len(), 1);
    assert_eq!(normal.nodes()[0].entries()[0].value().as_string(), Some("Ctrl q"));
    let shared = keybinds.get("shared_except").unwrap().children().unwrap();
    assert_eq!(shared.nodes().len(), 9);
}
