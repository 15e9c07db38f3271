use sat_helix_ide::config::VenvConfig;
use sat_helix_ide::venv::{
    active_venv_path, auto_detect_venv, configured_venv_entry, custom_path_line, detect_venv_type,
    filter_activatable_environments, generate_commands, get_all_available_venvs,
    is_selection_activatable, list_selectable_venvs, merge_environments, normalize_selectable_venv,
    resolve_activate_root, resolve_custom_venv_path, same_venv_path, shell_name, shell_quote,
    validate_custom_venv_path, validate_selection_activatable, venv_command_target, DetectedVenv,
    DirMarkers, EnvProbe, FileState, PathFacts, SelectableVenv, VenvCollection, VenvErrorKind,
};
use sat_helix_ide::venv_selector::{environment_row, SelectorAction, SelectorKey, SelectorMode, SelectorRun, VenvSelector};

fn nothing() -> PathFacts {
    PathFacts {
        exists: false,
        is_dir: false,
        has_activate: false,
        nested_is_dir: false,
        nested_has_activate: false,
        pyproject: FileState::Missing,
        environment_yml: false,
        pipfile: false,
        python_version: false,
        parent_pyproject: FileState::Missing,
    }
}

fn venv_dir() -> PathFacts {
    PathFacts { exists: true, is_dir: true, has_activate: true, ..nothing() }
}

fn project_with_dot_venv() -> PathFacts {
    PathFacts { exists: true, is_dir: true, nested_is_dir: true, nested_has_activate: true, ..nothing() }
}

fn env(name: &str, path: &str, t: &str) -> SelectableVenv {
    SelectableVenv { name: name.to_string(), path: path.to_string(), venv_type: t.to_string() }
}

fn probe(f: PathFacts, canonical: Option<&str>) -> EnvProbe {
    EnvProbe { expanded: f.clone(), reexpanded: f, canonical: canonical.map(str::to_string) }
}

#[test]
fn resolve_custom_path_accepts_project_root_with_dot_venv() {
    let from_root = resolve_custom_venv_path("/p", None, &project_with_dot_venv()).unwrap();
    assert_eq!(from_root.path, "/p/.venv");
    assert_eq!(from_root.name, "Custom: /p/.venv");
    assert_eq!(from_root.venv_type, "venv");
    assert!(resolve_custom_venv_path("/p/.venv", None, &venv_dir()).is_ok());
}

#[test]
fn resolve_custom_path_accepts_poetry_project() {
    let facts = PathFacts {
        exists: true,
        is_dir: true,
        pyproject: FileState::Text("[tool.poetry]\nname = \"demo\"\n".to_string()),
        ..nothing()
    };
    let resolved = resolve_custom_venv_path("/d", None, &facts).unwrap();
    assert_eq!(resolved.venv_type, "poetry");
}

#[test]
fn resolve_custom_path_errors() {
    let err = resolve_custom_venv_path("~/gone", Some("/home/u"), &nothing()).unwrap_err();
    assert_eq!(err.kind, VenvErrorKind::PathMissing);
    assert_eq!(err.message(), "Path does not exist: /home/u/gone");
    let uv = PathFacts { exists: true, is_dir: true, python_version: true, ..nothing() };
    assert_eq!(resolve_custom_venv_path("/u", None, &uv).unwrap_err().kind, VenvErrorKind::UvWithoutVenv);
    let bare = PathFacts { exists: true, is_dir: true, ..nothing() };
    let err = validate_custom_venv_path("/b", None, &bare).unwrap_err();
    assert_eq!(err.message(), "No virtual environment found at /b");
}

#[test]
fn generate_commands_uv_project_uses_activate_script() {
    let facts = PathFacts { pyproject: FileState::Text("[tool.uv]\n".to_string()), ..project_with_dot_venv() };
    let (activate, deactivate) = generate_commands("uv", Some("/p"), None, &facts, "bash", "p").unwrap();
    assert_eq!(activate, "source /p/.venv/bin/activate");
    assert!(!activate.contains("uv shell"));
    assert_eq!(deactivate, "deactivate 2>/dev/null || true");
}

#[test]
fn generate_commands_per_type() {
    let f = nothing();
    assert_eq!(
        generate_commands("poetry", None, None, &f, "sh", "x").unwrap(),
        ("poetry shell".to_string(), "exit".to_string())
    );
    let (a, d) = generate_commands("conda", None, None, &f, "sh", "proj").unwrap();
    assert_eq!(a, "conda activate proj 2>/dev/null || conda activate base 2>/dev/null || echo 'No conda env'");
    assert_eq!(d, "conda deactivate 2>/dev/null || true");
    assert_eq!(generate_commands("venv", None, None, &f, "sh", "x").unwrap_err().kind, VenvErrorKind::PathRequired);
    let (a, d) = generate_commands("auto", Some("/a b"), None, &venv_dir(), "fish", "x").unwrap();
    assert_eq!(a, "source \"/a b/bin/activate\"");
    assert!(d.contains("set -gx VIRTUAL_ENV"));
}

#[test]
fn quotes_shell_paths_when_needed() {
    assert_eq!(shell_quote("/plain/path"), "/plain/path");
    assert_eq!(shell_quote("/with space/\"q\""), "\"/with space/\\\"q\\\"\"");
    assert_eq!(shell_quote("$HOME"), "\"$HOME\"");
}

#[test]
fn shell_name_is_the_last_segment() {
    assert_eq!(shell_name(Some("/usr/bin/fish")), "fish");
    assert_eq!(shell_name(None), "sh");
    assert_eq!(shell_name(Some("zsh")), "zsh");
}

#[test]
fn normalize_maps_project_root_auto_to_dot_venv() {
    let e = env("Custom: demo", "/p", "auto");
    let normalized = normalize_selectable_venv(e, None, &probe(project_with_dot_venv(), None)).unwrap();
    assert_eq!(normalized.path, "/p/.venv");
    assert_eq!(normalized.venv_type, "venv");
    assert_eq!(normalized.name, "Custom: demo");
}

#[test]
fn validation_per_type() {
    let conda = env("c", "/c", "conda");
    let facts = PathFacts { exists: true, is_dir: true, environment_yml: true, ..nothing() };
    assert!(is_selection_activatable(&conda, None, &probe(facts, None)));
    let pip = env("p", "/p", "pipenv");
    let err = validate_selection_activatable(&pip, None, &probe(venv_dir(), None)).unwrap_err();
    assert_eq!(err.kind, VenvErrorKind::NoPipfile);
    let missing = env("m", "/m", "venv");
    assert!(!is_selection_activatable(&missing, None, &probe(nothing(), None)));
    let err = resolve_activate_root("/m", None, &PathFacts { exists: true, ..nothing() }).unwrap_err();
    assert_eq!(err.message(), "No bin/activate at /m or /m/.venv");
}

#[test]
fn detects_types_from_project_files() {
    let uv = FileState::Text("[tool.uv]".to_string());
    assert_eq!(detect_venv_type("/p/.venv", &uv).unwrap(), "uv");
    assert_eq!(detect_venv_type("/p/.venv", &FileState::Missing).unwrap(), "venv");
    assert_eq!(detect_venv_type("/p/env", &uv).unwrap(), "auto");
    assert_eq!(detect_venv_type("/p/.venv", &FileState::Unreadable).unwrap_err().kind, VenvErrorKind::ReadFailed);
}

fn markers() -> DirMarkers {
    DirMarkers {
        dot_venv_exists: false,
        dot_venv_is_dir: false,
        dot_venv_activate: false,
        pyproject: FileState::Missing,
        environment_yml: false,
        pipfile: false,
    }
}

#[test]
fn auto_detection_order() {
    let m = DirMarkers { dot_venv_exists: true, dot_venv_is_dir: true, dot_venv_activate: true, pipfile: true, ..markers() };
    let d = auto_detect_venv("/w", &m).unwrap().unwrap();
    assert_eq!((d.path.as_str(), d.venv_type.as_str()), ("/w/.venv", "venv"));
    let m = DirMarkers { pyproject: FileState::Text("[tool.poetry]".to_string()), environment_yml: true, ..markers() };
    assert_eq!(auto_detect_venv("/w", &m).unwrap().unwrap().venv_type, "poetry");
    let m = DirMarkers { environment_yml: true, pipfile: true, ..markers() };
    assert_eq!(auto_detect_venv("/w", &m).unwrap().unwrap().venv_type, "conda");
    assert!(auto_detect_venv("/w", &markers()).unwrap().is_none());
    let m = DirMarkers { pyproject: FileState::NotAFile, ..markers() };
    assert!(auto_detect_venv("/w", &m).is_err());
}

#[test]
fn lists_every_environment_of_a_directory() {
    let m = DirMarkers {
        dot_venv_exists: true,
        dot_venv_is_dir: true,
        dot_venv_activate: true,
        pyproject: FileState::Text("[tool.poetry]".to_string()),
        environment_yml: true,
        pipfile: true,
    };
    let names: Vec<String> = list_selectable_venvs("/w", &m).into_iter().map(|v| v.name).collect();
    assert_eq!(names, vec![".venv", "poetry (pyproject.toml)", "conda (environment.yml)", "pipenv (Pipfile)"]);
}

#[test]
fn same_environment_by_path_or_canonical_form() {
    assert!(same_venv_path("~/e", "/home/u/e/", Some("/home/u"), None, None));
    assert!(!same_venv_path("/a", "/b", None, None, None));
    assert!(same_venv_path("/a", "/b", None, Some("/real"), Some("/real")));
}

#[test]
fn filter_drops_unusable_and_duplicate_environments() {
    let envs = vec![env("a", "/a", "venv"), env("b", "/b", "venv"), env("c", "/a/", "venv")];
    let probes = vec![probe(venv_dir(), Some("/a")), probe(nothing(), None), probe(venv_dir(), Some("/a"))];
    let kept = filter_activatable_environments(envs, &probes, None);
    assert_eq!(kept.len(), 1);
    assert_eq!(kept[0].name, "a");
}

#[test]
fn merges_saved_and_detected_environments() {
    let merged = merge_environments(vec![env("a", "/a", "venv")], vec![env("a2", "/a", "venv"), env("b", "/b", "conda")]);
    assert_eq!(merged.iter().map(|e| e.name.as_str()).collect::<Vec<_>>(), vec!["a", "b"]);
    let saved = VenvCollection { environments: vec![env("a", "/a", "venv")] };
    let detected = vec![env("b", "/b", "conda")];
    let conda = PathFacts { exists: true, is_dir: true, environment_yml: true, ..nothing() };
    let all = get_all_available_venvs(Some(saved), detected.clone(), &vec![probe(venv_dir(), None), probe(conda, None)], None);
    assert_eq!(all.len(), 2);
    assert_eq!(get_all_available_venvs(None, detected, &vec![], None).len(), 1);
}

#[test]
fn active_path_needs_the_marker() {
    let sel = Some(env("a", "~/a", "venv"));
    assert_eq!(active_venv_path(false, &sel, Some("/h")), None);
    assert_eq!(active_venv_path(true, &sel, Some("/h")), Some("/h/a".to_string()));
}

#[test]
fn configured_environment_and_command_target() {
    let mut config = VenvConfig::default();
    assert!(configured_venv_entry(&config, None, &FileState::Missing).unwrap().is_none());
    config.path = Some("~/p/.venv".to_string());
    let e = configured_venv_entry(&config, Some("/h"), &FileState::Text("[tool.uv]".to_string())).unwrap().unwrap();
    assert_eq!((e.name.as_str(), e.path.as_str(), e.venv_type.as_str()), ("Configured: /h/p/.venv", "/h/p/.venv", "uv"));
    let (t, p) = venv_command_target(&config, Some("/h"), &FileState::Missing, None).unwrap();
    assert_eq!((t.as_str(), p.as_deref()), ("venv", Some("/h/p/.venv")));
    config.path = None;
    let found = DetectedVenv { path: "/w".to_string(), venv_type: "pipenv".to_string() };
    let (t, p) = venv_command_target(&config, None, &FileState::Missing, Some(found)).unwrap();
    assert_eq!((t.as_str(), p.as_deref()), ("pipenv", Some("/w")));
    let (t, p) = venv_command_target(&config, None, &FileState::Missing, None).unwrap();
    assert_eq!((t.as_str(), p), ("auto", None));
}

#[test]
fn custom_path_lines_are_trimmed() {
    assert_eq!(custom_path_line("  /p/env \n").unwrap(), "/p/env");
    assert_eq!(custom_path_line(" \n").unwrap_err().kind, VenvErrorKind::EmptyCustomPath);
}

#[test]
fn selector_moves_and_wraps() {
    let mut s = VenvSelector::new(vec![env("a", "/a", "venv"), env("b", "/b", "venv")]);
    s.handle_key(SelectorKey::Up);
    assert_eq!(s.cursor, 1);
    s.handle_key(SelectorKey::Char('j'));
    assert_eq!(s.cursor, 0);
    s.handle_key(SelectorKey::Down);
    s.handle_key(SelectorKey::Up);
    assert_eq!(s.cursor, 0);
    assert!(matches!(s.handle_key(SelectorKey::Enter), SelectorAction::WriteSelection(0)));
    s.mark_done();
    assert_eq!(s.result(), Some(SelectorRun::Selected));
}

#[test]
fn selector_custom_path_prompt() {
    let mut s = VenvSelector::new(vec![env("a", "/a", "venv")]);
    s.handle_key(SelectorKey::Char('a'));
    for c in " /x y".chars() {
        s.handle_key(SelectorKey::Char(c));
    }
    s.handle_key(SelectorKey::Backspace);
    match s.handle_key(SelectorKey::Enter) {
        SelectorAction::ResolveCustomPath(p) => assert_eq!(p, "/x"),
        other => panic!("unexpected {other:?}"),
    }
    s.custom_path_resolved(Err("No virtual environment found at /x".to_string()));
    match &s.mode {
        SelectorMode::CustomPath { buffer, error } => {
            assert_eq!(buffer, " /x ");
            assert_eq!(error.as_deref(), Some("No virtual environment found at /x"));
        }
        SelectorMode::List => panic!("expected the prompt"),
    }
    s.handle_key(SelectorKey::Esc);
    assert!(matches!(s.mode, SelectorMode::List));
    s.handle_key(SelectorKey::Char('q'));
    assert_eq!(s.result(), Some(SelectorRun::Cancelled));
}

#[test]
fn environment_rows_are_padded_columns() {
    let env = SelectableVenv {
        name: "proj".to_string(),
        path: "/work/proj/.venv".to_string(),
        venv_type: "venv".to_string(),
    };
    assert_eq!(
        environment_row(&env, true),
        "  [x] proj                  venv      /work/proj/.venv"
    );
}
