//! The KDL layout of a project session: a focused `code` tab holding Helix
//! with optional mind-map and terminal docks, and an optional `ai` tab.

use crate::config::{split_direction_of, CommandConfig, MindMapConfig, TerminalConfig};
use crate::text::{
    debug_list, debug_quote, debug_str, decimal, push_debug_list, push_spaces, push_str, spaces,
    u64_to_decimal,
};
use vstd::prelude::*;

verus! {

/// Optional mind-map dock: its settings, the tool, and the resolved binary.
pub type MindMapLayout<'a> = (&'a MindMapConfig, &'a CommandConfig, &'a str);

/// ` size="N%"` when a size is given.
pub open spec fn size_attr(size: Option<u8>) -> Seq<char> {
    match size {
        Some(p) => " size=\""@ + decimal(p as nat) + "%\""@,
        None => Seq::empty(),
    }
}

/// A pane running `command`, named `name`, at depth `indent`.
pub open spec fn command_pane_spec(
    name: Seq<char>,
    command: Seq<char>,
    args: Seq<String>,
    cwd: Seq<char>,
    size: Option<u8>,
    indent: nat,
) -> Seq<char> {
    let ind = spaces(indent * 4);
    let head = ind + "pane name="@ + debug_str(name) + size_attr(size) + " command="@ + debug_str(
        command,
    ) + " cwd="@ + debug_str(cwd);
    if args.len() == 0 {
        head + "\n"@
    } else {
        head + " {\n"@ + ind + "    args "@ + debug_list(args) + "\n"@ + ind + "}\n"@
    }
}

/// A pane without a command (Zellij starts the default shell there).
pub open spec fn shell_pane_spec(name: Seq<char>, percent: u8, cwd: Seq<char>, indent: nat) -> Seq<
    char,
> {
    spaces(indent * 4) + "pane name="@ + debug_str(name) + " size=\""@ + decimal(percent as nat)
        + "%\" cwd="@ + debug_str(cwd) + "\n"@
}

pub open spec fn split_open(direction: Seq<char>, indent: nat) -> Seq<char> {
    spaces(indent * 4) + "pane split_direction="@ + debug_str(direction) + " {\n"@
}

pub open spec fn split_close(indent: nat) -> Seq<char> {
    spaces(indent * 4) + "}\n"@
}

/// The panes of the code tab: the editor, wrapped first by the mind map (so
/// it sits beside Helix) and then by the terminal, when those are given.
pub open spec fn code_tab_spec(
    editor: CommandConfig,
    editor_path: Seq<char>,
    terminal: Option<TerminalConfig>,
    mindmap: Option<(MindMapConfig, CommandConfig, Seq<char>)>,
    project_dir: Seq<char>,
) -> Seq<char> {
    match (terminal, mindmap) {
        (None, None) => command_pane_spec(
            "editor"@,
            editor_path,
            editor.args@,
            project_dir,
            None,
            2,
        ),
        (Some(t), None) => split_open(split_direction_of(t.dock_position), 2) + command_pane_spec(
            "editor"@,
            editor_path,
            editor.args@,
            project_dir,
            None,
            3,
        ) + shell_pane_spec("terminal"@, t.dock_percent, project_dir, 3) + split_close(2),
        (None, Some((m, tool, path))) => split_open(split_direction_of(m.dock_position), 2)
            + command_pane_spec("editor"@, editor_path, editor.args@, project_dir, None, 3)
            + command_pane_spec(
            "mindmapping"@,
            path,
            tool.args@,
            project_dir,
            Some(m.dock_percent),
            3,
        ) + split_close(2),
        (Some(t), Some((m, tool, path))) => split_open(split_direction_of(t.dock_position), 2)
            + split_open(split_direction_of(m.dock_position), 3) + command_pane_spec(
            "editor"@,
            editor_path,
            editor.args@,
            project_dir,
            None,
            4,
        ) + command_pane_spec(
            "mindmapping"@,
            path,
            tool.args@,
            project_dir,
            Some(m.dock_percent),
            4,
        ) + split_close(3) + shell_pane_spec("terminal"@, t.dock_percent, project_dir, 3)
            + split_close(2),
    }
}

/// The tab template that adds Zellij's status bar under every tab.
pub open spec fn status_template() -> Seq<char> {
    "    tab_template name=\"status_tab\" {\n"@ + "    children\n"@
        + "        pane size=2 borderless=true {\n"@
        + "            plugin location=\"zellij:status-bar\"\n"@ + "        }\n"@ + "    }\n"@
}

/// The `code` tab: the (enabled) docks around the editor.
pub open spec fn code_part(
    editor: CommandConfig,
    editor_path: Seq<char>,
    terminal: Option<TerminalConfig>,
    mindmap: Option<(MindMapConfig, CommandConfig, Seq<char>)>,
    project_dir: Seq<char>,
    status_bar: bool,
) -> Seq<char> {
    let tab = if status_bar {
        "status_tab"@
    } else {
        "tab"@
    };
    let terminal = match terminal {
        Some(t) => if t.enabled {
            Some(t)
        } else {
            None
        },
        None => None,
    };
    let mindmap = match mindmap {
        Some(m) => if m.0.enabled {
            Some(m)
        } else {
            None
        },
        None => None,
    };
    "    "@ + tab + " name=\"code\" focus=true {\n"@ + code_tab_spec(
        editor,
        editor_path,
        terminal,
        mindmap,
        project_dir,
    ) + "    }\n"@
}

/// The `ai` tab running the agent, when one is given.
pub open spec fn ai_part(ai: Option<(CommandConfig, Seq<char>)>, project_dir: Seq<char>) -> Seq<
    char,
> {
    match ai {
        Some((a, p)) => "    tab name=\"ai\" {\n"@ + command_pane_spec(
            "ai"@,
            p,
            a.args@,
            project_dir,
            None,
            2,
        ) + "    }\n"@,
        None => Seq::empty(),
    }
}

/// The whole session layout.
pub open spec fn session_layout_spec(
    editor: CommandConfig,
    editor_path: Seq<char>,
    ai: Option<(CommandConfig, Seq<char>)>,
    terminal: Option<TerminalConfig>,
    mindmap: Option<(MindMapConfig, CommandConfig, Seq<char>)>,
    project_dir: Seq<char>,
    status_bar: bool,
) -> Seq<char> {
    let template = if status_bar {
        status_template()
    } else {
        Seq::empty()
    };
    "layout {\n"@ + template + code_part(
        editor,
        editor_path,
        terminal,
        mindmap,
        project_dir,
        status_bar,
    ) + ai_part(ai, project_dir) + "}\n"@
}

fn push_quoted(out: &mut String, s: &str)
    ensures
        final(out)@ == old(out)@ + debug_str(s@),
{
    let q = debug_quote(s);
    push_str(out, q.as_str());
}

fn push_size_attr(out: &mut String, size: Option<u8>)
    ensures
        final(out)@ == old(out)@ + size_attr(size),
{
    match size {
        Some(p) => {
            push_str(out, " size=\"");
            let d = u64_to_decimal(p as u64);
            push_str(out, d.as_str());
            push_str(out, "%\"");
        },
        None => {
            assert(old(out)@ + size_attr(size) =~= old(out)@);
        },
    }
}

/// A pane running `command`.
pub fn command_pane(
    name: &str,
    command: &str,
    args: &Vec<String>,
    cwd: &str,
    size_percent: Option<u8>,
    indent: usize,
) -> (res: String)
    requires
        indent * 4 <= usize::MAX,
    ensures
        res@ == command_pane_spec(name@, command@, args@, cwd@, size_percent, indent as nat),
{
    let mut pane = String::new();
    push_spaces(&mut pane, indent * 4);
    push_str(&mut pane, "pane name=");
    push_quoted(&mut pane, name);
    push_size_attr(&mut pane, size_percent);
    push_str(&mut pane, " command=");
    push_quoted(&mut pane, command);
    push_str(&mut pane, " cwd=");
    push_quoted(&mut pane, cwd);
    if args.len() == 0 {
        push_str(&mut pane, "\n");
    } else {
        push_str(&mut pane, " {\n");
        push_spaces(&mut pane, indent * 4);
        push_str(&mut pane, "    args ");
        push_debug_list(&mut pane, args);
        push_str(&mut pane, "\n");
        push_spaces(&mut pane, indent * 4);
        push_str(&mut pane, "}\n");
    }
    assert(pane@ =~= command_pane_spec(name@, command@, args@, cwd@, size_percent, indent as nat));
    pane
}

/// A shell pane of the given size.
pub fn shell_pane(name: &str, percent: u8, cwd: &str, indent: usize) -> (res: String)
    requires
        indent * 4 <= usize::MAX,
    ensures
        res@ == shell_pane_spec(name@, percent, cwd@, indent as nat),
{
    let mut pane = String::new();
    push_spaces(&mut pane, indent * 4);
    push_str(&mut pane, "pane name=");
    push_quoted(&mut pane, name);
    push_str(&mut pane, " size=\"");
    let d = u64_to_decimal(percent as u64);
    push_str(&mut pane, d.as_str());
    push_str(&mut pane, "%\" cwd=");
    push_quoted(&mut pane, cwd);
    push_str(&mut pane, "\n");
    assert(pane@ =~= shell_pane_spec(name@, percent, cwd@, indent as nat));
    pane
}

fn push_split_open(out: &mut String, direction: &str, indent: usize)
    requires
        indent * 4 <= usize::MAX,
    ensures
        final(out)@ == old(out)@ + split_open(direction@, indent as nat),
{
    let ghost start = out@;
    push_spaces(out, indent * 4);
    push_str(out, "pane split_direction=");
    push_quoted(out, direction);
    push_str(out, " {\n");
    assert(out@ =~= start + split_open(direction@, indent as nat));
}

fn push_split_close(out: &mut String, indent: usize)
    requires
        indent * 4 <= usize::MAX,
    ensures
        final(out)@ == old(out)@ + split_close(indent as nat),
{
    let ghost start = out@;
    push_spaces(out, indent * 4);
    push_str(out, "}\n");
    assert(out@ =~= start + split_close(indent as nat));
}

pub open spec fn mindmap_view(m: Option<MindMapLayout>) -> Option<
    (MindMapConfig, CommandConfig, Seq<char>),
> {
    match m {
        Some((c, t, p)) => Some((*c, *t, p@)),
        None => None,
    }
}

pub open spec fn terminal_view(t: Option<&TerminalConfig>) -> Option<TerminalConfig> {
    match t {
        Some(t) => Some(*t),
        None => None,
    }
}

/// The editor wrapped by the optional mind-map and terminal docks.
pub fn code_tab_panes(
    editor: &CommandConfig,
    editor_path: &str,
    terminal: Option<&TerminalConfig>,
    mindmap: Option<MindMapLayout>,
    project_dir: &str,
) -> (res: String)
    ensures
        res@ == code_tab_spec(
            *editor,
            editor_path@,
            terminal_view(terminal),
            mindmap_view(mindmap),
            project_dir@,
        ),
{
    match (terminal, mindmap) {
        (None, None) => command_pane("editor", editor_path, &editor.args, project_dir, None, 2),
        (Some(t), None) => {
            let mut body = String::new();
            push_split_open(&mut body, t.dock_position.zellij_split_direction(), 2);
            let e = command_pane("editor", editor_path, &editor.args, project_dir, None, 3);
            push_str(&mut body, e.as_str());
            let sh = shell_pane("terminal", t.dock_percent, project_dir, 3);
            push_str(&mut body, sh.as_str());
            push_split_close(&mut body, 2);
            assert(body@ =~= code_tab_spec(
                *editor,
                editor_path@,
                terminal_view(terminal),
                mindmap_view(mindmap),
                project_dir@,
            ));
            body
        },
        (None, Some((m, tool, path))) => {
            let mut body = String::new();
            push_split_open(&mut body, m.dock_position.zellij_split_direction(), 2);
            let e = command_pane("editor", editor_path, &editor.args, project_dir, None, 3);
            push_str(&mut body, e.as_str());
            let mm = command_pane(
                "mindmapping",
                path,
                &tool.args,
                project_dir,
                Some(m.dock_percent),
                3,
            );
            push_str(&mut body, mm.as_str());
            push_split_close(&mut body, 2);
            assert(body@ =~= code_tab_spec(
                *editor,
                editor_path@,
                terminal_view(terminal),
                mindmap_view(mindmap),
                project_dir@,
            ));
            body
        },
        (Some(t), Some((m, tool, path))) => {
            let mut body = String::new();
            push_split_open(&mut body, t.dock_position.zellij_split_direction(), 2);
            push_split_open(&mut body, m.dock_position.zellij_split_direction(), 3);
            let e = command_pane("editor", editor_path, &editor.args, project_dir, None, 4);
            push_str(&mut body, e.as_str());
            let mm = command_pane(
                "mindmapping",
                path,
                &tool.args,
                project_dir,
                Some(m.dock_percent),
                4,
            );
            push_str(&mut body, mm.as_str());
            push_split_close(&mut body, 3);
            let sh = shell_pane("terminal", t.dock_percent, project_dir, 3);
            push_str(&mut body, sh.as_str());
            push_split_close(&mut body, 2);
            assert(body@ =~= code_tab_spec(
                *editor,
                editor_path@,
                terminal_view(terminal),
                mindmap_view(mindmap),
                project_dir@,
            ));
            body
        },
    }
}

pub open spec fn ai_view(ai: Option<(&CommandConfig, &str)>) -> Option<(CommandConfig, Seq<char>)> {
    match ai {
        Some((a, p)) => Some((*a, p@)),
        None => None,
    }
}

fn push_template(out: &mut String, status_bar: bool)
    ensures
        final(out)@ == old(out)@ + (if status_bar {
            status_template()
        } else {
            Seq::empty()
        }),
{
    let ghost start = out@;
    if status_bar {
        push_str(out, "    tab_template name=\"status_tab\" {\n");
        push_str(out, "    children\n");
        push_str(out, "        pane size=2 borderless=true {\n");
        push_str(out, "            plugin location=\"zellij:status-bar\"\n");
        push_str(out, "        }\n");
        push_str(out, "    }\n");
    }
    assert(out@ =~= start + (if status_bar {
        status_template()
    } else {
        Seq::empty()
    }));
}

fn push_code_part(
    out: &mut String,
    editor: &CommandConfig,
    editor_path: &str,
    terminal: Option<&TerminalConfig>,
    mindmap: Option<MindMapLayout>,
    project_dir: &str,
    status_bar: bool,
)
    ensures
        final(out)@ == old(out)@ + code_part(
            *editor,
            editor_path@,
            terminal_view(terminal),
            mindmap_view(mindmap),
            project_dir@,
            status_bar,
        ),
{
    let ghost start = out@;
    push_str(out, "    ");
    if status_bar {
        push_str(out, "status_tab");
    } else {
        push_str(out, "tab");
    }
    push_str(out, " name=\"code\" focus=true {\n");
    let term = match terminal {
        Some(t) => if t.enabled {
            Some(t)
        } else {
            None
        },
        None => None,
    };
    let mind = match mindmap {
        Some(m) => if m.0.enabled {
            Some(m)
        } else {
            None
        },
        None => None,
    };
    let code = code_tab_panes(editor, editor_path, term, mind, project_dir);
    push_str(out, code.as_str());
    push_str(out, "    }\n");
    assert(out@ =~= start + code_part(
        *editor,
        editor_path@,
        terminal_view(terminal),
        mindmap_view(mindmap),
        project_dir@,
        status_bar,
    ));
}

fn push_ai_part(out: &mut String, ai: Option<(&CommandConfig, &str)>, project_dir: &str)
    ensures
        final(out)@ == old(out)@ + ai_part(ai_view(ai), project_dir@),
{
    let ghost start = out@;
    match ai {
        Some((a, ai_path)) => {
            push_str(out, "    tab name=\"ai\" {\n");
            let pane = command_pane("ai", ai_path, &a.args, project_dir, None, 2);
            push_str(out, pane.as_str());
            push_str(out, "    }\n");
        },
        None => {},
    }
    assert(out@ =~= start + ai_part(ai_view(ai), project_dir@));
}

/// The KDL layout written to `layout.kdl` for a project session.
pub fn session_layout(
    editor: &CommandConfig,
    editor_path: &str,
    ai: Option<(&CommandConfig, &str)>,
    terminal: Option<&TerminalConfig>,
    mindmap: Option<MindMapLayout>,
    project_dir: &str,
    status_bar: bool,
) -> (res: String)
    ensures
        res@ == session_layout_spec(
            *editor,
            editor_path@,
            ai_view(ai),
            terminal_view(terminal),
            mindmap_view(mindmap),
            project_dir@,
            status_bar,
        ),
{
    let mut layout = String::new();
    push_str(&mut layout, "layout {\n");
    push_template(&mut layout, status_bar);
    push_code_part(&mut layout, editor, editor_path, terminal, mindmap, project_dir, status_bar);
    push_ai_part(&mut layout, ai, project_dir);
    push_str(&mut layout, "}\n");
    assert(layout@ =~= session_layout_spec(
        *editor,
        editor_path@,
        ai_view(ai),
        terminal_view(terminal),
        mindmap_view(mindmap),
        project_dir@,
        status_bar,
    ));
    layout
}

} // verus!
