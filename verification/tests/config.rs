use sat_helix_ide::config::layout::{
    escape_kdl, generate_pane_kdl, layout_kdl, LayoutPane, LayoutPart, PartSize,
};
use sat_helix_ide::config::{expand_tilde, Config, DockPosition, WorkspaceConfig};

#[test]
fn mindmap_defaults_to_disabled_on_the_right() {
    let default_config = Config::default();
    assert!(!default_config.mindmap.enabled);
    assert_eq!(default_config.mindmap.dock_position, DockPosition::Right);
    assert_eq!(default_config.tools.mindmap.command, "shiki");
}

#[test]
fn default_tool_commands_are_correct() {
    let default_config = Config::default();
    assert_eq!(default_config.tools.editor.command, "hx");
    assert_eq!(default_config.tools.file_manager.command, "yazi");
    assert_eq!(default_config.tools.git.command, "lazygit");
    assert_eq!(default_config.tools.review.command, "revdiff");
    assert_eq!(default_config.tools.workflow.command, "glab-tui");
}

#[test]
fn expands_home_prefix_only() {
    assert_eq!(expand_tilde("~/x/y", Some("/home/u")), "/home/u/x/y");
    assert_eq!(expand_tilde("~/x", None), "~/x");
    assert_eq!(expand_tilde("/etc/~/x", Some("/home/u")), "/etc/~/x");
}

#[test]
fn runtime_dir_is_per_session() {
    let config = Config::default();
    assert_eq!(
        config.runtime_dir("/run/user/1000", "my-project"),
        "/run/user/1000/sat-helix-ide/my-project"
    );
}

#[test]
fn workspace_config_defaults() {
    let c = WorkspaceConfig::default_in(Some("/work"));
    assert_eq!(c.default_dir, "/work");
    assert!(c.auto_detect && c.remember_last && !c.new_session_default);
    assert_eq!(WorkspaceConfig::default_in(None).default_dir, ".");
}

#[test]
fn escapes_kdl_strings() {
    assert_eq!(escape_kdl("a\"b\\c"), "a\\\"b\\\\c");
}

#[test]
fn pane_kdl_splits_the_command_line() {
    let pane = LayoutPane {
        id: Some("editor".to_string()),
        command: "hx --vsplit".to_string(),
        args: vec!["a b".to_string()],
        ..LayoutPane::default()
    };
    assert_eq!(
        generate_pane_kdl(&pane, 1, true),
        "    pane name=\"editor\" borderless=true command=\"hx\" {\n        args \"--vsplit\" \"a b\"\n    }\n"
    );
    let plain = LayoutPane { command: "htop".to_string(), ..LayoutPane::default() };
    assert_eq!(generate_pane_kdl(&plain, 0, false), "pane command=\"htop\"\n");
    let idle = LayoutPane { command: "htop".to_string(), run: false, ..LayoutPane::default() };
    assert_eq!(generate_pane_kdl(&idle, 0, false), "pane\n");
}

#[test]
fn zellij_merge_source_is_the_first_existing_candidate() {
    let mut config = Config::default();
    config.session.zellij_config = Some("~/custom.kdl".to_string());
    let cands = config.zellij_config_candidates(Some("/env.kdl"), Some("/xdg"), Some("/home/u"));
    assert_eq!(
        cands,
        vec![
            "/home/u/custom.kdl".to_string(),
            "/env.kdl".to_string(),
            "/xdg/zellij/config.kdl".to_string(),
            "/home/u/.config/zellij/config.kdl".to_string(),
        ]
    );
    // A set but missing session config and env file do not hide the XDG file.
    let got = config.zellij_config_path(
        Some("/env.kdl"),
        Some("/xdg"),
        Some("/home/u"),
        &vec![false, false, true, true],
    );
    assert_eq!(got, Some("/xdg/zellij/config.kdl".to_string()));
    let none = config.zellij_config_path(None, None, Some("/home/u"), &vec![false, false]);
    assert_eq!(none, None);
}

#[test]
fn layout_parts_nest_with_sizes_and_borderless_panes() {
    let pane = LayoutPane { command: "htop".to_string(), ..LayoutPane::default() };
    let inner = LayoutPart {
        direction: "vertical".to_string(),
        borderless: false,
        panes: vec![pane],
        parts: vec![],
        size: Some(PartSize { kind: "Fixed".to_string(), value: "10".to_string() }),
    };
    let outer = LayoutPart {
        direction: "horizontal".to_string(),
        borderless: true,
        panes: vec![],
        parts: vec![inner],
        size: Some(PartSize { kind: "PERCENTAGE".to_string(), value: "50".to_string() }),
    };
    let text = layout_kdl("dev", Some("my layout"), "vertical", &vec![outer]);
    assert_eq!(
        text,
        "// dev layout\n// my layout\nlayout {\n    pane split_direction=\"horizontal\" size=\"50%\" {\n        pane split_direction=\"vertical\" size=10 {\n            pane borderless=true command=\"htop\"\n        }\n    }\n}\n"
    );
    assert_eq!(layout_kdl("empty", None, "vertical", &vec![]), "// empty layout\nlayout {\n    pane\n}\n");
}
