//! Starting a project workspace: the session name, the project type, and
//! what happens with an existing Zellij session of that name.

use crate::config::{expand_tilde, expand_tilde_spec, CommandConfig, Config, MindMapConfig};
use crate::paths::{file_name, file_name_of, is_absolute, join_path, path_join};
use crate::text::{chars_of, is_ascii_alnum, is_ascii_alphanumeric, opt_view, push_str, string_from_chars, string_of};
use crate::zellij::client::SessionStatus;
use crate::zellij::layout::{
    ai_view, mindmap_view, session_layout, session_layout_spec, terminal_view, MindMapLayout,
};
use vstd::prelude::*;

verus! {

// ---------------------------------------------------------------------------
// Session names
// ---------------------------------------------------------------------------

/// ASCII letters, digits, `-` and `_` stay; anything else becomes `-`.
pub open spec fn session_char(c: char) -> char {
    if is_ascii_alnum(c) || c == '-' || c == '_' {
        c
    } else {
        '-'
    }
}

pub open spec fn strip_leading_dashes(s: Seq<char>) -> Seq<char>
    decreases s.len(),
{
    if s.len() > 0 && s[0] == '-' {
        strip_leading_dashes(s.drop_first())
    } else {
        s
    }
}

pub open spec fn strip_trailing_dashes(s: Seq<char>) -> Seq<char>
    decreases s.len(),
{
    if s.len() > 0 && s.last() == '-' {
        strip_trailing_dashes(s.drop_last())
    } else {
        s
    }
}

/// A session name made safe for Zellij: every character mapped by
/// [`session_char`], then dashes trimmed from both ends.
pub open spec fn sanitize_spec(s: Seq<char>) -> Seq<char> {
    strip_trailing_dashes(strip_leading_dashes(s.map_values(|c: char| session_char(c))))
}

/// Makes a name safe for use as a Zellij session name.
pub fn sanitize_session_name(name: &str) -> (res: String)
    ensures
        res@ == sanitize_spec(name@),
{
    let cs = chars_of(name);
    let ghost mapped = name@.map_values(|c: char| session_char(c));
    let mut m: Vec<char> = Vec::new();
    let mut i: usize = 0;
    while i < cs.len()
        invariant
            i <= cs.len(),
            cs@ == name@,
            mapped == name@.map_values(|c: char| session_char(c)),
            m@ == mapped.take(i as int),
        decreases cs.len() - i,
    {
        let c = cs[i];
        let keep = is_ascii_alphanumeric(c) || c == '-' || c == '_';
        m.push(if keep { c } else { '-' });
        i = i + 1;
        assert(m@ =~= mapped.take(i as int));
    }
    assert(m@ =~= mapped);
    let mut lo: usize = 0;
    assert(m@.skip(0) =~= m@);
    while lo < m.len() && m[lo] == '-'
        invariant
            lo <= m.len(),
            strip_leading_dashes(m@) == strip_leading_dashes(m@.skip(lo as int)),
        decreases m.len() - lo,
    {
        assert(m@.skip(lo as int).drop_first() =~= m@.skip(lo + 1));
        lo = lo + 1;
    }
    let ghost t = m@.skip(lo as int);
    assert(strip_leading_dashes(t) == t);
    let mut hi: usize = m.len();
    assert(t.take((hi - lo) as int) =~= t);
    while hi > lo && m[hi - 1] == '-'
        invariant
            lo <= hi <= m.len(),
            t == m@.skip(lo as int),
            strip_trailing_dashes(t) == strip_trailing_dashes(t.take(hi - lo)),
        decreases hi,
    {
        assert(t.take(hi - lo).drop_last() =~= t.take(hi - 1 - lo));
        hi = hi - 1;
    }
    let mut out = String::new();
    let mut k: usize = lo;
    while k < hi
        invariant
            lo <= k <= hi <= m.len(),
            out@ == m@.subrange(lo as int, k as int),
        decreases hi - k,
    {
        crate::text::push_char(&mut out, m[k]);
        k = k + 1;
        assert(out@ =~= m@.subrange(lo as int, k as int));
    }
    assert(t.take(hi - lo) =~= m@.subrange(lo as int, hi as int));
    out
}

/// The session name of a project: its directory's name (`workspace` when
/// it has none), made safe.
pub open spec fn project_session_spec(project_dir: Seq<char>) -> Seq<char> {
    sanitize_spec(
        match file_name_of(project_dir) {
            Some(n) => n,
            None => "workspace"@,
        },
    )
}

pub fn project_session_name(project_dir: &str) -> (res: String)
    ensures
        res@ == project_session_spec(project_dir@),
{
    match file_name(project_dir) {
        Some(n) => sanitize_session_name(n.as_str()),
        None => sanitize_session_name("workspace"),
    }
}

// ---------------------------------------------------------------------------
// Errors
// ---------------------------------------------------------------------------

#[derive(Debug, Clone, Copy, PartialEq, Eq, Structural)]
pub enum WorkspaceErrorKind {
    EmptySessionName,
    SessionExists,
    MissingExecutable,
    MissingFileManager,
    NotADirectory,
}

/// Why a workspace cannot start, and the name or path it concerns.
#[derive(Debug, Clone)]
pub struct WorkspaceError {
    pub kind: WorkspaceErrorKind,
    pub subject: String,
}

pub open spec fn workspace_message(kind: WorkspaceErrorKind, s: Seq<char>) -> Seq<char> {
    match kind {
        WorkspaceErrorKind::EmptySessionName => "Session name cannot be empty"@,
        WorkspaceErrorKind::SessionExists => "Session '"@ + s
            + "' already exists; enable session.attach_existing or choose another --session name"@,
        WorkspaceErrorKind::MissingExecutable => "Cannot find executable '"@ + s + "'"@,
        WorkspaceErrorKind::MissingFileManager => "Cannot find file manager '"@ + s + "'"@,
        WorkspaceErrorKind::NotADirectory => "Project path '"@ + s + "' is not a directory"@,
    }
}

impl WorkspaceError {
    pub fn new(kind: WorkspaceErrorKind, subject: &str) -> (res: WorkspaceError)
        ensures
            res.kind == kind,
            res.subject@ == subject@,
    {
        WorkspaceError { kind, subject: string_of(subject) }
    }

    pub fn message(&self) -> (res: String)
        ensures
            res@ == workspace_message(self.kind, self.subject@),
    {
        let s = self.subject.as_str();
        let mut out = String::new();
        match self.kind {
            WorkspaceErrorKind::EmptySessionName => push_str(&mut out, "Session name cannot be empty"),
            WorkspaceErrorKind::SessionExists => {
                push_str(&mut out, "Session '");
                push_str(&mut out, s);
                push_str(
                    &mut out,
                    "' already exists; enable session.attach_existing or choose another --session name",
                );
            },
            WorkspaceErrorKind::MissingExecutable => {
                push_str(&mut out, "Cannot find executable '");
                push_str(&mut out, s);
                push_str(&mut out, "'");
            },
            WorkspaceErrorKind::MissingFileManager => {
                push_str(&mut out, "Cannot find file manager '");
                push_str(&mut out, s);
                push_str(&mut out, "'");
            },
            WorkspaceErrorKind::NotADirectory => {
                push_str(&mut out, "Project path '");
                push_str(&mut out, s);
                push_str(&mut out, "' is not a directory");
            },
        }
        out
    }
}

/// The session name for a project: the `--session` value made safe, else
/// the project's own name; an empty result is refused.
pub fn session_name_for(session_override: Option<&str>, project_dir: &str) -> (res: Result<
    String,
    WorkspaceError,
>)
    ensures
        ({
            let name = match session_override {
                Some(s) => sanitize_spec(s@),
                None => project_session_spec(project_dir@),
            };
            match res {
                Ok(n) => n@ == name && name.len() > 0,
                Err(e) => name.len() == 0 && e.kind == WorkspaceErrorKind::EmptySessionName,
            }
        }),
{
    let name = match session_override {
        Some(s) => sanitize_session_name(s),
        None => project_session_name(project_dir),
    };
    if chars_of(name.as_str()).len() == 0 {
        return Err(WorkspaceError::new(WorkspaceErrorKind::EmptySessionName, ""));
    }
    Ok(name)
}

// ---------------------------------------------------------------------------
// Paths
// ---------------------------------------------------------------------------

/// `path` when it is absolute, else joined onto the working directory
/// (`.` when that is unknown).
pub open spec fn absolute_spec(path: Seq<char>, cwd: Option<Seq<char>>) -> Seq<char> {
    if is_absolute(path) {
        path
    } else {
        path_join(
            match cwd {
                Some(d) => d,
                None => "."@,
            },
            path,
        )
    }
}

pub fn absolute_path(path: &str, cwd: Option<&str>) -> (res: String)
    ensures
        res@ == absolute_spec(path@, opt_view(cwd)),
{
    let cs = chars_of(path);
    if cs.len() > 0 && cs[0] == '/' {
        return string_of(path);
    }
    match cwd {
        Some(d) => join_path(d, path),
        None => join_path(".", path),
    }
}

/// Starts project workspaces with one configuration.
pub struct WorkspaceManager<'a> {
    pub config: &'a Config,
    /// The application's configuration file, absolute.
    pub app_config_path: String,
}

impl<'a> WorkspaceManager<'a> {
    /// `app_config_path` is kept with `~/` expanded and made absolute against
    /// the working directory `cwd`.
    pub fn new(config: &'a Config, app_config_path: &str, home: Option<&str>, cwd: Option<&str>) -> (res: Self)
        ensures
            res.config == config,
            res.app_config_path@ == absolute_spec(
                expand_tilde_spec(app_config_path@, opt_view(home)),
                opt_view(cwd),
            ),
    {
        let expanded = expand_tilde(app_config_path, home);
        WorkspaceManager { config, app_config_path: absolute_path(expanded.as_str(), cwd) }
    }
}

// ---------------------------------------------------------------------------
// Project types
// ---------------------------------------------------------------------------

/// The files that mark a project type, in the order they are checked.
pub open spec fn project_markers() -> Seq<(Seq<char>, Seq<char>)> {
    seq![
        ("Cargo.toml"@, "rust"@),
        ("package.json"@, "node"@),
        ("pyproject.toml"@, "python"@),
        ("setup.py"@, "python"@),
        ("requirements.txt"@, "python"@),
        ("Gemfile"@, "ruby"@),
        ("go.mod"@, "go"@),
        ("Makefile"@, "c"@),
        (".git"@, "git"@),
    ]
}

/// The marker file checked at position `i`, and the type it stands for.
pub fn project_marker(i: usize) -> (res: (&'static str, &'static str))
    requires
        i < 9,
    ensures
        (res.0@, res.1@) == project_markers()[i as int],
{
    match i {
        0 => ("Cargo.toml", "rust"),
        1 => ("package.json", "node"),
        2 => ("pyproject.toml", "python"),
        3 => ("setup.py", "python"),
        4 => ("requirements.txt", "python"),
        5 => ("Gemfile", "ruby"),
        6 => ("go.mod", "go"),
        7 => ("Makefile", "c"),
        _ => (".git", "git"),
    }
}

/// The first marker present, if any.
pub open spec fn first_present(present: Seq<bool>, i: int) -> Option<int>
    decreases 9 - i,
{
    if i >= 9 || i < 0 {
        None
    } else if present[i] {
        Some(i)
    } else {
        first_present(present, i + 1)
    }
}

/// Detects project types from the files in a directory.
pub struct ProjectDetector;

impl ProjectDetector {
    pub fn new() -> (res: Self) {
        ProjectDetector
    }

    /// The type of the first marker (in [`project_markers`] order) that
    /// exists in the directory; `present[i]` tells whether marker `i` exists.
    pub fn detect_project(&self, present: [bool; 9]) -> (res: Option<String>)
        ensures
            match first_present(present@, 0) {
                Some(i) => res matches Some(t) && t@ == project_markers()[i].1,
                None => res is None,
            },
    {
        let mut i: usize = 0;
        while i < 9
            invariant
                i <= 9,
                present@.len() == 9,
                first_present(present@, 0) == first_present(present@, i as int),
            decreases 9 - i,
        {
            if present[i] {
                let (_, t) = project_marker(i);
                return Some(string_of(t));
            }
            i = i + 1;
        }
        None
    }
}

// ---------------------------------------------------------------------------
// The session
// ---------------------------------------------------------------------------

/// What is done with the Zellij session of the project's name.
#[derive(Debug, Clone, Copy, PartialEq, Eq, Structural)]
pub enum SessionPlan {
    /// Attach to the running session.
    Attach,
    /// Delete the exited session and create it anew from the layout, since
    /// resurrection would replay commands that drifted from it.
    Recreate,
    /// Create the session.
    Create,
}

/// A running session is attached to only when the configuration allows it.
pub fn session_plan(status: SessionStatus, attach_existing: bool, session_name: &str) -> (res: Result<
    SessionPlan,
    WorkspaceError,
>)
    ensures
        match status {
            SessionStatus::Active => if attach_existing {
                res matches Ok(p) && p == SessionPlan::Attach
            } else {
                res matches Err(e) && e.kind == WorkspaceErrorKind::SessionExists && e.subject@
                    == session_name@
            },
            SessionStatus::Exited => res matches Ok(p) && p == SessionPlan::Recreate,
            SessionStatus::NotFound => res matches Ok(p) && p == SessionPlan::Create,
        },
{
    match status {
        SessionStatus::Active => if attach_existing {
            Ok(SessionPlan::Attach)
        } else {
            Err(WorkspaceError::new(WorkspaceErrorKind::SessionExists, session_name))
        },
        SessionStatus::Exited => Ok(SessionPlan::Recreate),
        SessionStatus::NotFound => Ok(SessionPlan::Create),
    }
}

/// Whether the AI tab is wanted: the `--ai`/`--no-ai` choice, else the
/// configured default; and only with an agent configured.
pub fn ai_tab_wanted(config: &Config, ai_override: Option<bool>) -> (res: bool)
    ensures
        res == (config.tools.ai is Some && match ai_override {
            Some(b) => b,
            None => config.session.ai_by_default,
        }),
{
    let enabled = match ai_override {
        Some(b) => b,
        None => config.session.ai_by_default,
    };
    enabled && config.tools.ai.is_some()
}

/// Whether tabs get Zellij's status bar: the command-line choice, else the
/// configured one.
pub fn status_bar_wanted(config: &Config, status_bar: Option<bool>) -> (res: bool)
    ensures
        res == match status_bar {
            Some(b) => b,
            None => config.session.status_bar,
        },
{
    match status_bar {
        Some(b) => b,
        None => config.session.status_bar,
    }
}

/// The layout of a project session: the editor, the configured docks, and
/// the AI tab when an agent was found at `ai_path`.
pub fn workspace_layout(
    config: &Config,
    editor_path: &str,
    ai_path: Option<&str>,
    mindmap_path: &str,
    project_dir: &str,
    status_bar: bool,
) -> (res: String)
    ensures
        res@ == session_layout_spec(
            config.tools.editor,
            editor_path@,
            match (config.tools.ai, ai_path) {
                (Some(a), Some(p)) => Some((a, p@)),
                _ => None,
            },
            Some(config.terminal),
            Some((config.mindmap, config.tools.mindmap, mindmap_path@)),
            project_dir@,
            status_bar,
        ),
{
    let ai: Option<(&CommandConfig, &str)> = match (&config.tools.ai, ai_path) {
        (Some(a), Some(p)) => Some((a, p)),
        _ => None,
    };
    let mindmap: Option<MindMapLayout> = Some((&config.mindmap, &config.tools.mindmap, mindmap_path));
    session_layout(
        &config.tools.editor,
        editor_path,
        ai,
        Some(&config.terminal),
        mindmap,
        project_dir,
        status_bar,
    )
}

// ---------------------------------------------------------------------------
// Laws
// ---------------------------------------------------------------------------

proof fn lemma_strip_leading(s: Seq<char>)
    ensures
        strip_leading_dashes(s).len() <= s.len(),
        forall|i: int|
            0 <= i < strip_leading_dashes(s).len() ==> #[trigger] strip_leading_dashes(s)[i] == s[i
                + s.len() - strip_leading_dashes(s).len()],
        strip_leading_dashes(s).len() == 0 || strip_leading_dashes(s)[0] != '-',
    decreases s.len(),
{
    if s.len() > 0 && s[0] == '-' {
        lemma_strip_leading(s.drop_first());
    }
}

proof fn lemma_strip_trailing(s: Seq<char>)
    ensures
        strip_trailing_dashes(s).len() <= s.len(),
        forall|i: int|
            0 <= i < strip_trailing_dashes(s).len() ==> #[trigger] strip_trailing_dashes(s)[i] == s[i],
        strip_trailing_dashes(s).len() == 0 || strip_trailing_dashes(s).last() != '-',
    decreases s.len(),
{
    if s.len() > 0 && s.last() == '-' {
        lemma_strip_trailing(s.drop_last());
    }
}

/// A sanitized session name keeps only ASCII letters, digits, `-` and `_`,
/// and neither starts nor ends with `-`.
pub proof fn lemma_sanitized_name_is_safe(name: Seq<char>)
    ensures
        forall|i: int|
            0 <= i < sanitize_spec(name).len() ==> session_char(#[trigger] sanitize_spec(name)[i])
                == sanitize_spec(name)[i],
        sanitize_spec(name).len() == 0 || (sanitize_spec(name)[0] != '-' && sanitize_spec(name).last()
            != '-'),
{
    let m = name.map_values(|c: char| session_char(c));
    let l = strip_leading_dashes(m);
    let t = strip_trailing_dashes(l);
    lemma_strip_leading(m);
    lemma_strip_trailing(l);
    assert forall|i: int| 0 <= i < t.len() implies session_char(#[trigger] t[i]) == t[i] by {
        assert(t[i] == l[i]);
        let j = i + m.len() - l.len();
        assert(l[i] == m[j]);
        assert(m[j] == session_char(name[j]));
    }
    if t.len() > 0 {
        assert(t[0] == l[0]);
    }
}

/// Sanitizing a session name a second time changes nothing.
pub proof fn lemma_sanitize_idempotent(name: Seq<char>)
    ensures
        sanitize_spec(sanitize_spec(name)) == sanitize_spec(name),
{
    let t = sanitize_spec(name);
    lemma_sanitized_name_is_safe(name);
    let m2 = t.map_values(|c: char| session_char(c));
    assert(m2 =~= t);
    if t.len() > 0 {
        assert(strip_leading_dashes(t) == t);
        assert(strip_trailing_dashes(t) == t);
    } else {
        assert(strip_leading_dashes(t) == t);
        assert(strip_trailing_dashes(t) == t);
    }
}

} // verus!
