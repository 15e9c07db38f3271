//! The session status line: Zellij session name, Git branch and state, and
//! the active virtual environment.

use crate::config::expand_tilde;
use crate::paths::{file_name, file_name_of, parent_file_name, parent_file_name_of};
use crate::config::expand_tilde_spec;
use crate::text::{
    chars_of, has_prefix, is_ws, lemma_single_line, lines, strip_cr, matches_at, opt_view, push_str, slice_chars, split_lines,
    string_from_chars, string_of, str_eq, trim, trim_chars,
};
use crate::venv::SelectableVenv;
use vstd::prelude::*;

verus! {

#[derive(Debug, Clone, Copy, PartialEq, Eq, Structural)]
pub enum GitState {
    Clean,
    Modified,
    Staged,
    Untracked,
    NoRepo,
}

pub open spec fn state_label(s: GitState) -> Seq<char> {
    match s {
        GitState::Clean => "clean"@,
        GitState::Modified => "modified"@,
        GitState::Staged => "staged"@,
        GitState::Untracked => "untracked"@,
        GitState::NoRepo => "no git"@,
    }
}

impl GitState {
    pub fn label(self) -> (res: &'static str)
        ensures
            res@ == state_label(self),
    {
        match self {
            GitState::Clean => "clean",
            GitState::Modified => "modified",
            GitState::Staged => "staged",
            GitState::Untracked => "untracked",
            GitState::NoRepo => "no git",
        }
    }
}

#[derive(Debug, Clone)]
pub struct StatusBarSnapshot {
    pub session_name: String,
    pub branch: String,
    pub git_state: GitState,
    pub venv_label: Option<String>,
}

// ---------------------------------------------------------------------------
// git status --porcelain
// ---------------------------------------------------------------------------

pub open spec fn blank(l: Seq<char>) -> bool {
    trim(l).len() == 0
}

/// A change line: not blank and not an untracked (`??`) entry.
pub open spec fn change_line(l: Seq<char>) -> bool {
    !blank(l) && !has_prefix(l, seq!['?', '?'])
}

/// The status letter in column `i`, a space where the line is shorter.
pub open spec fn column(l: Seq<char>, i: int) -> char {
    if i < l.len() {
        l[i]
    } else {
        ' '
    }
}

pub open spec fn marks_change(c: char) -> bool {
    c != ' ' && c != '?'
}

pub open spec fn staged_line(l: Seq<char>) -> bool {
    change_line(l) && marks_change(column(l, 0))
}

pub open spec fn unstaged_line(l: Seq<char>) -> bool {
    change_line(l) && marks_change(column(l, 1))
}

/// The state `git status --porcelain` output shows: clean without entries,
/// untracked with untracked entries only, staged when changes are staged and
/// none is unstaged, modified otherwise.
pub open spec fn porcelain_state(s: Seq<char>) -> GitState {
    let ls = lines(s);
    if forall|k: int| 0 <= k < ls.len() ==> #[trigger] blank(ls[k]) {
        GitState::Clean
    } else if forall|k: int| 0 <= k < ls.len() ==> !#[trigger] change_line(ls[k]) {
        GitState::Untracked
    } else if (exists|k: int| 0 <= k < ls.len() && #[trigger] staged_line(ls[k])) && !(exists|k: int|
        0 <= k < ls.len() && #[trigger] unstaged_line(ls[k])) {
        GitState::Staged
    } else {
        GitState::Modified
    }
}

/// The two status columns of a `git status --porcelain` line decide its
/// state, each only by whether it holds a status letter (anything but a space
/// or `?`): for a single entry `XY path`, a letter in the index column with a
/// clean worktree column is staged, whatever the letter (`M`, `A`, `D`, `R`,
/// `C`, `U`, ...); a letter in the worktree column is modified; `??` is
/// untracked.
pub proof fn lemma_status_columns(x: char, y: char, path: Seq<char>)
    requires
        path.len() > 0,
        !is_ws(path[0]),
        forall|k: int| 0 <= k < path.len() ==> path[k] != '\n',
        x != '\n',
        y != '\n',
    ensures
        x != ' ' && x != '?' && y == ' ' ==> porcelain_state(seq![x, y, ' '] + path)
            == GitState::Staged,
        y != ' ' && y != '?' ==> porcelain_state(seq![x, y, ' '] + path) == GitState::Modified,
        x == '?' && y == '?' ==> porcelain_state(seq![x, y, ' '] + path) == GitState::Untracked,
{
    let s = seq![x, y, ' '] + path;
    assert forall|k: int| 0 <= k < s.len() implies s[k] != '\n' by {
        if k >= 3 {
            assert(s[k] == path[k - 3]);
        }
    }
    lemma_single_line(s);
    let l = strip_cr(s);
    assert(l.len() >= 4 && l[0] == x && l[1] == y && l[3] == path[0]) by {
        if s.len() > 0 && s.last() == '\r' {
            assert(path.len() > 1) by {
                if path.len() == 1 {
                    assert(s.last() == path[0]);
                }
            }
        }
    }
    crate::text::lemma_trim_nonempty(l, 3);
    assert(!blank(l));
    assert(has_prefix(l, seq!['?', '?']) <==> (x == '?' && y == '?')) by {
        if has_prefix(l, seq!['?', '?']) {
            assert(l.take(2)[0] == l[0] && l.take(2)[1] == l[1]);
        }
        if x == '?' && y == '?' {
            assert(l.take(2) =~= seq!['?', '?']);
        }
    }
    let ls = lines(s);
    assert(ls.len() == 1 && ls[0] == l);
    assert(column(l, 0) == x && column(l, 1) == y);
    if x != ' ' && x != '?' && y == ' ' {
        assert(staged_line(ls[0]));
        assert(!exists|k: int| 0 <= k < ls.len() && #[trigger] unstaged_line(ls[k]));
    }
    if y != ' ' && y != '?' {
        assert(change_line(ls[0]));
        assert(unstaged_line(ls[0]));
    }
    if x == '?' && y == '?' {
        assert(!change_line(ls[0]));
    }
}

fn column_of(l: &Vec<char>, i: usize) -> (res: char)
    ensures
        res == column(l@, i as int),
{
    if i < l.len() {
        l[i]
    } else {
        ' '
    }
}

/// Classifies the output of `git status --porcelain`.
pub fn classify_porcelain(porcelain: &str) -> (res: GitState)
    ensures
        res == porcelain_state(porcelain@),
{
    let cs = chars_of(porcelain);
    let ls = split_lines(cs.as_slice());
    let ghost spec_lines = lines(porcelain@);
    let mut any_entry = false;
    let mut any_change = false;
    let mut has_staged = false;
    let mut has_unstaged = false;
    let mut i: usize = 0;
    while i < ls.len()
        invariant
            i <= ls.len(),
            cs@ == porcelain@,
            spec_lines == lines(porcelain@),
            ls@.len() == spec_lines.len(),
            forall|k: int| 0 <= k < ls@.len() ==> (#[trigger] ls@[k])@ == spec_lines[k],
            any_entry == exists|k: int| 0 <= k < i && !#[trigger] blank(spec_lines[k]),
            any_change == exists|k: int| 0 <= k < i && #[trigger] change_line(spec_lines[k]),
            has_staged == exists|k: int| 0 <= k < i && #[trigger] staged_line(spec_lines[k]),
            has_unstaged == exists|k: int| 0 <= k < i && #[trigger] unstaged_line(spec_lines[k]),
        decreases ls.len() - i,
    {
        let line = &ls[i];
        let ghost l = spec_lines[i as int];
        assert(line@ == l);
        let t = trim_chars(line.as_slice());
        assert(blank(spec_lines[i as int]) == (t@.len() == 0));
        assert(staged_line(spec_lines[i as int]) == (change_line(l) && marks_change(column(l, 0))));
        assert(unstaged_line(spec_lines[i as int]) == (change_line(l) && marks_change(column(l, 1))));
        if t.len() > 0 {
            any_entry = true;
            let untracked = line.len() >= 2 && line[0] == '?' && line[1] == '?';
            assert(untracked == has_prefix(l, seq!['?', '?'])) by {
                if line.len() >= 2 {
                    if has_prefix(l, seq!['?', '?']) {
                        assert(l.take(2)[0] == '?' && l.take(2)[1] == '?');
                    }
                    if untracked {
                        assert(l.take(2) =~= seq!['?', '?']);
                    }
                }
            }
            assert(change_line(spec_lines[i as int]) == !untracked);
            if !untracked {
                any_change = true;
                let index = column_of(line, 0);
                let worktree = column_of(line, 1);
                if index != ' ' && index != '?' {
                    has_staged = true;
                }
                if worktree != ' ' && worktree != '?' {
                    has_unstaged = true;
                }
            }
        } else {
            assert(!change_line(spec_lines[i as int]));
        }
        i = i + 1;
    }
    if !any_entry {
        return GitState::Clean;
    }
    if !any_change {
        return GitState::Untracked;
    }
    if has_staged && !has_unstaged {
        return GitState::Staged;
    }
    GitState::Modified
}

/// What one Git command printed and whether it succeeded.
#[derive(Debug, Clone)]
pub struct CommandOutput {
    pub success: bool,
    pub stdout: String,
}

/// The branch shown outside a Git work tree.
pub const NO_BRANCH: &'static str = "—";

/// Branch and state from `git rev-parse --is-inside-work-tree`, then
/// `git rev-parse --abbrev-ref HEAD`, then `git status --porcelain`; a command
/// that was not run (`None`) counts as failed.
pub open spec fn git_summary_spec(
    inside: CommandOutput,
    branch: Option<CommandOutput>,
    status: Option<CommandOutput>,
) -> (Seq<char>, GitState) {
    if !inside.success || trim(inside.stdout@) != "true"@ {
        (NO_BRANCH@, GitState::NoRepo)
    } else {
        match branch {
            Some(b) if b.success => {
                let name = trim(b.stdout@);
                match status {
                    Some(s) if s.success => (name, porcelain_state(s.stdout@)),
                    _ => (name, GitState::NoRepo),
                }
            },
            _ => (NO_BRANCH@, GitState::NoRepo),
        }
    }
}

/// Whether the first command showed a Git work tree, so that the branch is
/// worth asking for.
pub fn inside_work_tree(inside: &CommandOutput) -> (res: bool)
    ensures
        res == (inside.success && trim(inside.stdout@) == "true"@),
{
    if !inside.success {
        return false;
    }
    let cs = chars_of(inside.stdout.as_str());
    let t = trim_chars(cs.as_slice());
    let s = string_from_chars(&t);
    str_eq(s.as_str(), "true")
}

/// The branch and state the status line shows.
pub fn git_summary(inside: &CommandOutput, branch: &Option<CommandOutput>, status: &Option<CommandOutput>) -> (res:
    (String, GitState))
    ensures
        (res.0@, res.1) == git_summary_spec(*inside, *branch, *status),
{
    if !inside_work_tree(inside) {
        return (string_of(NO_BRANCH), GitState::NoRepo);
    }
    let b = match branch {
        Some(b) if b.success => b,
        _ => {
            return (string_of(NO_BRANCH), GitState::NoRepo);
        },
    };
    let bc = chars_of(b.stdout.as_str());
    let name = string_from_chars(&trim_chars(bc.as_slice()));
    match status {
        Some(s) if s.success => {
            let state = classify_porcelain(s.stdout.as_str());
            (name, state)
        },
        _ => (name, GitState::NoRepo),
    }
}

// ---------------------------------------------------------------------------
// The environment label
// ---------------------------------------------------------------------------

/// The short name shown for an environment: a custom or configured
/// selection's path, `<project>/.venv` for a `.venv`, else the file name of
/// the path (the whole path when it has none).
pub open spec fn short_venv_name_spec(display_name: Seq<char>, path: Seq<char>) -> Seq<char> {
    if has_prefix(display_name, "Custom: "@) {
        display_name.skip(8)
    } else if has_prefix(display_name, "Configured: "@) {
        display_name.skip(12)
    } else if file_name_of(path) == Some(".venv"@) && parent_file_name_of(path) is Some {
        parent_file_name_of(path)->0 + "/.venv"@
    } else {
        match file_name_of(path) {
            Some(n) => n,
            None => path,
        }
    }
}

fn strip_literal(s: &Vec<char>, p: &str) -> (res: Option<String>)
    ensures
        match res {
            Some(r) => has_prefix(s@, p@) && r@ == s@.skip(p@.len() as int),
            None => !has_prefix(s@, p@),
        },
{
    let pc = chars_of(p);
    if matches_at(s.as_slice(), 0, pc.as_slice()) {
        assert(s@.skip(0) =~= s@);
        let rest = slice_chars(s.as_slice(), pc.len(), s.len());
        Some(string_from_chars(&rest))
    } else {
        assert(s@.skip(0) =~= s@);
        None
    }
}

/// Shortens an environment's display name for the status line.
pub fn short_venv_name(display_name: &str, path: &str) -> (res: String)
    ensures
        res@ == short_venv_name_spec(display_name@, path@),
{
    proof {
        reveal_strlit("Custom: ");
        reveal_strlit("Configured: ");
    }
    let dn = chars_of(display_name);
    match strip_literal(&dn, "Custom: ") {
        Some(r) => {
            return r;
        },
        None => {},
    }
    match strip_literal(&dn, "Configured: ") {
        Some(r) => {
            return r;
        },
        None => {},
    }
    let n = file_name(path);
    let is_venv = match &n {
        Some(s) => str_eq(s.as_str(), ".venv"),
        None => false,
    };
    if is_venv {
        match parent_file_name(path) {
            Some(parent) => {
                let mut out = parent;
                push_str(&mut out, "/.venv");
                return out;
            },
            None => {},
        }
    }
    match n {
        Some(s) => s,
        None => string_of(path),
    }
}

/// The label for the session's environment: none unless the `venv_active`
/// marker exists; then the short name of the saved selection, or `active`
/// when none could be loaded.
pub fn active_venv_label(marker_exists: bool, selection: &Option<SelectableVenv>, home: Option<&str>) -> (res:
    Option<String>)
    ensures
        match res {
            None => !marker_exists,
            Some(l) => marker_exists && l@ == match selection {
                Some(s) => short_venv_name_spec(s.name@, expand_tilde_spec(s.path@, opt_view(home))),
                None => "active"@,
            },
        },
{
    if !marker_exists {
        return None;
    }
    match selection {
        Some(s) => {
            let p = expand_tilde(s.path.as_str(), home);
            Some(short_venv_name(s.name.as_str(), p.as_str()))
        },
        None => Some(string_of("active")),
    }
}

/// The snapshot the status line is drawn from.
pub fn collect_status(
    session_name: &str,
    inside: &CommandOutput,
    branch: &Option<CommandOutput>,
    status: &Option<CommandOutput>,
    venv_label: Option<String>,
) -> (res: StatusBarSnapshot)
    ensures
        res.session_name@ == session_name@,
        (res.branch@, res.git_state) == git_summary_spec(*inside, *branch, *status),
        res.venv_label == venv_label,
{
    let (b, state) = git_summary(inside, branch, status);
    StatusBarSnapshot {
        session_name: string_of(session_name),
        branch: b,
        git_state: state,
        venv_label,
    }
}

// ---------------------------------------------------------------------------
// Rendering
// ---------------------------------------------------------------------------

pub const RESET: &'static str = "\x1b[0m";

/// Separator bars (surface1).
pub const BAR: &'static str = "\x1b[38;2;49;50;68m";

/// Field labels (subtext).
pub const LABEL: &'static str = "\x1b[38;2;166;173;200m";

/// The branch (bold blue).
pub const BRANCH: &'static str = "\x1b[1;38;2;137;180;250m";

pub const CLEAN: &'static str = "\x1b[38;2;166;227;161m";

pub const MODIFIED: &'static str = "\x1b[38;2;250;179;135m";

pub const STAGED: &'static str = "\x1b[38;2;148;226;213m";

pub const UNTRACKED: &'static str = "\x1b[38;2;243;139;168m";

pub const NOGIT: &'static str = "\x1b[38;2;108;112;134m";

/// The session name (mauve).
pub const SESSION: &'static str = "\x1b[38;2;203;166;247m";

/// An active environment (lavender).
pub const VENV: &'static str = "\x1b[38;2;180;190;254m";

pub const VENV_OFF: &'static str = "\x1b[38;2;108;112;134m";

pub open spec fn git_color(s: GitState) -> Seq<char> {
    match s {
        GitState::Clean => CLEAN@,
        GitState::Modified => MODIFIED@,
        GitState::Staged => STAGED@,
        GitState::Untracked => UNTRACKED@,
        GitState::NoRepo => NOGIT@,
    }
}

fn git_color_of(s: GitState) -> (res: &'static str)
    ensures
        res@ == git_color(s),
{
    match s {
        GitState::Clean => CLEAN,
        GitState::Modified => MODIFIED,
        GitState::Staged => STAGED,
        GitState::Untracked => UNTRACKED,
        GitState::NoRepo => NOGIT,
    }
}

pub open spec fn venv_part_spec(label: Option<String>) -> Seq<char> {
    match label {
        Some(n) => VENV@ + n@ + RESET@,
        None => VENV_OFF@ + "none"@ + RESET@,
    }
}

/// One labelled field: `<LABEL>name<RESET> <color>value<RESET>`.
pub open spec fn field(name: Seq<char>, color: Seq<char>, value: Seq<char>) -> Seq<char> {
    LABEL@ + name + RESET@ + " "@ + color + value + RESET@
}

/// The separator between fields: ` <BAR>│<RESET> `.
pub open spec fn separator() -> Seq<char> {
    " "@ + BAR@ + "│"@ + RESET@ + " "@
}

/// The status line: session, branch, Git state and environment, each
/// labelled and coloured, separated by bars.
pub open spec fn status_line_spec(s: StatusBarSnapshot) -> Seq<char> {
    BAR@ + " "@ + field("session"@, SESSION@, s.session_name@) + separator() + field(
        "git"@,
        BRANCH@,
        s.branch@,
    ) + separator() + field("status"@, git_color(s.git_state), state_label(s.git_state))
        + separator() + LABEL@ + "venv"@ + RESET@ + " "@ + venv_part_spec(s.venv_label)
}

fn push_field(out: &mut String, name: &str, color: &str, value: &str)
    ensures
        final(out)@ == old(out)@ + field(name@, color@, value@),
{
    let ghost start = out@;
    push_str(out, LABEL);
    push_str(out, name);
    push_str(out, RESET);
    push_str(out, " ");
    push_str(out, color);
    push_str(out, value);
    push_str(out, RESET);
    assert(out@ =~= start + field(name@, color@, value@));
}

fn push_separator(out: &mut String)
    ensures
        final(out)@ == old(out)@ + separator(),
{
    let ghost start = out@;
    push_str(out, " ");
    push_str(out, BAR);
    push_str(out, "│");
    push_str(out, RESET);
    push_str(out, " ");
    assert(out@ =~= start + separator());
}

/// Renders the status line with ANSI colours.
pub fn format_status_line(snapshot: &StatusBarSnapshot) -> (res: String)
    ensures
        res@ == status_line_spec(*snapshot),
{
    let mut out = string_of(BAR);
    push_str(&mut out, " ");
    push_field(&mut out, "session", SESSION, snapshot.session_name.as_str());
    push_separator(&mut out);
    push_field(&mut out, "git", BRANCH, snapshot.branch.as_str());
    push_separator(&mut out);
    push_field(&mut out, "status", git_color_of(snapshot.git_state), snapshot.git_state.label());
    push_separator(&mut out);
    push_str(&mut out, LABEL);
    push_str(&mut out, "venv");
    push_str(&mut out, RESET);
    push_str(&mut out, " ");
    let ghost before = out@;
    match &snapshot.venv_label {
        Some(n) => {
            push_str(&mut out, VENV);
            push_str(&mut out, n.as_str());
            push_str(&mut out, RESET);
        },
        None => {
            push_str(&mut out, VENV_OFF);
            push_str(&mut out, "none");
            push_str(&mut out, RESET);
        },
    }
    assert(out@ =~= before + venv_part_spec(snapshot.venv_label));
    out
}

} // verus!
