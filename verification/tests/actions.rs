use sat_helix_ide::actions::{
    chooser_selections, ResizeAction, ResizeRun, ResizeStep, MAX_RESIZE_STEPS,
    file_manager_ipc_capable, helix_quote, pane_area_share, parse_zellij_pane_id, terminal_action,
    Axis, CachedPanes, FileManagerAction, PaneCache, PaneInfo, TerminalAction, TerminalPlan,
    TerminalStep, EDITOR_PANE, TERMINAL_PANE,
};
use sat_helix_ide::protocol::{action_response, handling, is_pong, Handling, Request, Response};

fn pane(id: u64, title: &str, columns: usize, rows: usize) -> PaneInfo {
    PaneInfo {
        id,
        is_plugin: false,
        is_floating: false,
        is_fullscreen: false,
        title: title.to_string(),
        tab_id: 0,
        pane_columns: columns,
        pane_rows: rows,
    }
}

#[test]
fn quotes_helix_paths() {
    assert_eq!(
        helix_quote("/tmp/a \"quoted\" file").unwrap(),
        "\"/tmp/a \\\"quoted\\\" file\""
    );
}

#[test]
fn helix_quote_refuses_control_characters() {
    assert!(helix_quote("/tmp/a\nb").is_err());
    assert_eq!(helix_quote("C:\\x").unwrap(), "\"C:\\\\x\"");
}

#[test]
fn file_manager_ipc_capable_only_for_focus() {
    assert!(file_manager_ipc_capable(FileManagerAction::Open, true));
    assert!(!file_manager_ipc_capable(FileManagerAction::Open, false));
    assert!(!file_manager_ipc_capable(FileManagerAction::Run, true));
    assert!(!file_manager_ipc_capable(FileManagerAction::ToggleDock, true));
}

#[test]
fn parse_zellij_pane_id_accepts_cli_form() {
    assert_eq!(parse_zellij_pane_id("terminal_4").unwrap(), 4);
    assert_eq!(parse_zellij_pane_id("42").unwrap(), 42);
}

#[test]
fn parse_zellij_pane_id_rejects_invalid_values() {
    assert!(parse_zellij_pane_id("terminal_").is_err());
    assert!(parse_zellij_pane_id("not-a-number").is_err());
}

#[test]
fn pane_cli_id_has_terminal_prefix() {
    assert_eq!(pane(4, "file-manager", 80, 24).cli_id(), "terminal_4");
}

#[test]
fn pane_cache_starts_empty() {
    let cache = PaneCache::new();
    assert!(cache.data.is_none());
}

#[test]
fn pane_cache_stores_data() {
    let mut cache = PaneCache::new();
    cache.data = Some(CachedPanes {
        timestamp_ms: 0,
        panes: vec![pane(1, "editor", 80, 24)],
        zellij_path: "/usr/bin/zellij".to_string(),
    });
    assert!(cache.data.is_some());
}

#[test]
fn pane_cache_invalidate_clears_data() {
    let mut cache = PaneCache::new();
    cache.data = Some(CachedPanes {
        timestamp_ms: 0,
        panes: vec![],
        zellij_path: "/usr/bin/zellij".to_string(),
    });
    cache.invalidate();
    assert!(cache.data.is_none());
}

#[test]
fn pane_cache_serves_fresh_listings_only() {
    let mut cache = PaneCache::new();
    let panes = vec![pane(1, "editor", 80, 24)];
    cache.store("/usr/bin/zellij", &panes, 1_000);
    let hit = cache.lookup("/usr/bin/zellij", 1_100).unwrap();
    assert_eq!(hit.len(), 1);
    assert_eq!(hit[0].id, 1);
    assert!(cache.lookup("/opt/zellij", 1_100).is_none());
}

#[test]
fn pane_area_share_percent() {
    let terminal = pane(2, TERMINAL_PANE, 80, 15);
    let editor = pane(1, EDITOR_PANE, 80, 85);
    assert_eq!(pane_area_share(&terminal, &editor, Axis::Rows), Some(15));
    assert_eq!(pane_area_share(&terminal, &editor, Axis::Columns), Some(50));
}

#[test]
fn terminal_toggle_hides_then_restores_the_terminal() {
    let panes = vec![pane(1, EDITOR_PANE, 80, 85), pane(2, TERMINAL_PANE, 80, 15)];
    match terminal_action(&panes, TerminalAction::Toggle) {
        TerminalPlan::Steps(steps) => assert_eq!(steps, vec![TerminalStep::ToggleFullscreen(1)]),
        other => panic!("unexpected plan {other:?}"),
    }
    let mut hidden = panes.clone();
    hidden[0].is_fullscreen = true;
    match terminal_action(&hidden, TerminalAction::Toggle) {
        TerminalPlan::Steps(steps) => assert_eq!(
            steps,
            vec![TerminalStep::ToggleFullscreen(1), TerminalStep::Focus(2)]
        ),
        other => panic!("unexpected plan {other:?}"),
    }
}

#[test]
fn terminal_action_respawns_a_closed_terminal() {
    let panes = vec![pane(7, EDITOR_PANE, 80, 100)];
    assert!(matches!(
        terminal_action(&panes, TerminalAction::Zoom),
        TerminalPlan::Respawn(0)
    ));
    assert!(matches!(
        terminal_action(&vec![], TerminalAction::Zoom),
        TerminalPlan::MissingEditor
    ));
}

#[test]
fn requests_map_to_their_handling() {
    assert_eq!(
        handling(Request::FileManagerOpen { source_pane_id: Some(42) }),
        Handling::FileManager(FileManagerAction::Open, Some(42))
    );
    assert_eq!(handling(Request::TerminalZoom), Handling::Terminal(TerminalAction::Zoom));
    assert_eq!(handling(Request::Ping), Handling::Pong);
    assert_eq!(handling(Request::Shutdown), Handling::Shutdown);
}

#[test]
fn action_failures_become_error_responses() {
    assert!(matches!(action_response(Ok(())), Response::Success));
    match action_response(Err("boom".to_string())) {
        Response::Error { message } => assert_eq!(message, "boom"),
        other => panic!("unexpected response {other:?}"),
    }
    assert!(is_pong(&Response::Pong));
    assert!(!is_pong(&Response::Success));
}

#[test]
fn chooser_file_lines_become_selections() {
    let got = chooser_selections("/tmp/a.rs\r\n\n/tmp/b.rs\n");
    assert_eq!(got, vec!["/tmp/a.rs".to_string(), "/tmp/b.rs".to_string()]);
    assert!(chooser_selections("").is_empty());
}

#[test]
fn resize_run_steps_then_undoes_a_fine_step_that_moved_away() {
    let mut run = ResizeRun::new(50);
    assert_eq!(run.begin(), ResizeAction::Measure);
    assert_eq!(run.on_measure(Some(30)), ResizeAction::Resize { step: ResizeStep::Coarse { grow: true } });
    assert_eq!(run.on_measure(Some(45)), ResizeAction::Measure);
    assert_eq!(run.on_measure(Some(45)), ResizeAction::Resize { step: ResizeStep::Fine { grow: true } });
    assert_eq!(run.on_measure(Some(44)), ResizeAction::Undo { grow: false });
    assert_eq!(run.steps_taken, 2);
}

#[test]
fn resize_run_stops_when_a_pane_is_missing_or_close_enough() {
    let mut run = ResizeRun::new(50);
    assert_eq!(run.on_measure(None), ResizeAction::Stop);
    let mut run = ResizeRun::new(50);
    assert_eq!(run.on_measure(Some(51)), ResizeAction::Stop);
}

#[test]
fn resize_run_keeps_to_its_step_budget() {
    let mut run = ResizeRun::new(100);
    let mut action = run.begin();
    let (mut measures, mut resizes) = (0usize, 0usize);
    loop {
        match action {
            ResizeAction::Measure => {
                measures += 1;
                action = run.on_measure(Some(0));
            }
            ResizeAction::Resize { .. } => {
                resizes += 1;
                measures += 1;
                // Each coarse step seems to gain a little, never enough.
                action = run.on_measure(Some(0));
            }
            _ => break,
        }
    }
    assert_eq!(resizes, MAX_RESIZE_STEPS);
    assert_eq!(measures, 2 * MAX_RESIZE_STEPS);
}
