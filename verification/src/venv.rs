//! Python virtual environments: which kind a directory holds, how it is
//! activated, and which stored selections can still be activated.
//!
//! The file system is read by the caller; the functions here take what it
//! showed as plain values ([`PathFacts`], [`DirMarkers`], [`EnvProbe`]).

use crate::config::{expand_tilde, expand_tilde_spec, VenvConfig};
use crate::paths::{file_name, file_name_of, join_path, path_join, same_path, same_path_spec};
use crate::text::{
    chars_of, contains_str, contains_text, escape_quotes, opt_view, push_char, push_escaped, push_str, str_eq, string_from_chars,
    string_of, trim, trim_chars,
};
use vstd::prelude::*;

verus! {

/// Transient handoff files used only while the selector is open.
pub const VENV_SELECTOR_OUTPUT: &'static str = "venv_selector_output";

pub const VENV_SELECTOR_SELECTION: &'static str = "venv_selector_selection.json";

pub const VENV_SELECTOR_CUSTOM_PATH: &'static str = "venv_selector_custom_path";

/// Marker written to [`VENV_SELECTOR_OUTPUT`] when the user made a selection.
pub const VENV_SELECTOR_DONE: &'static str = "OK";

/// An environment found in a project directory.
#[derive(Debug, Clone)]
pub struct DetectedVenv {
    pub path: String,
    pub venv_type: String,
}

/// An environment offered for selection.
#[derive(Debug, Clone)]
pub struct SelectableVenv {
    pub name: String,
    pub path: String,
    pub venv_type: String,
}

/// All saved environments (detected and custom).
#[derive(Debug, Clone)]
pub struct VenvCollection {
    pub environments: Vec<SelectableVenv>,
}

/// Name, path and type of a selectable environment.
pub open spec fn venv_view(v: SelectableVenv) -> (Seq<char>, Seq<char>, Seq<char>) {
    (v.name@, v.path@, v.venv_type@)
}

/// How an environment type is activated.
#[derive(Debug, Clone, Copy, PartialEq, Eq, Structural)]
pub enum VenvKind {
    /// `source …/bin/activate` (`uv`, `venv`, `auto` and any other name).
    Script,
    Poetry,
    Conda,
    Pipenv,
}

pub open spec fn kind_of(t: Seq<char>) -> VenvKind {
    if t == "poetry"@ {
        VenvKind::Poetry
    } else if t == "conda"@ {
        VenvKind::Conda
    } else if t == "pipenv"@ {
        VenvKind::Pipenv
    } else {
        VenvKind::Script
    }
}

pub fn venv_kind(venv_type: &str) -> (res: VenvKind)
    ensures
        res == kind_of(venv_type@),
{
    if str_eq(venv_type, "poetry") {
        VenvKind::Poetry
    } else if str_eq(venv_type, "conda") {
        VenvKind::Conda
    } else if str_eq(venv_type, "pipenv") {
        VenvKind::Pipenv
    } else {
        VenvKind::Script
    }
}

// ---------------------------------------------------------------------------
// Errors
// ---------------------------------------------------------------------------

#[derive(Debug, Clone, Copy, PartialEq, Eq, Structural)]
pub enum VenvErrorKind {
    PathRequired,
    PathMissing,
    NoActivateScript,
    NotADirectory,
    NoPyproject,
    NotPoetry,
    NoEnvironmentYml,
    NoPipfile,
    UvWithoutVenv,
    NoEnvironment,
    ReadFailed,
    EmptyCustomPath,
}

/// Why an environment cannot be used, and the path it concerns.
#[derive(Debug, Clone)]
pub struct VenvError {
    pub kind: VenvErrorKind,
    pub path: String,
}

pub type VenvOutcome<T> = Result<T, (VenvErrorKind, Seq<char>)>;

pub open spec fn err_view(e: VenvError) -> (VenvErrorKind, Seq<char>) {
    (e.kind, e.path@)
}

fn venv_error(kind: VenvErrorKind, path: &str) -> (res: VenvError)
    ensures
        res.kind == kind,
        res.path@ == path@,
{
    VenvError { kind, path: string_of(path) }
}

/// The text a [`VenvError`] is reported with.
pub open spec fn error_message(kind: VenvErrorKind, p: Seq<char>) -> Seq<char> {
    match kind {
        VenvErrorKind::PathRequired => "Path required for venv activation"@,
        VenvErrorKind::PathMissing => "Path does not exist: "@ + p,
        VenvErrorKind::NoActivateScript => "No bin/activate at "@ + p + " or "@ + p + "/.venv"@,
        VenvErrorKind::NotADirectory => "Path is not a directory: "@ + p,
        VenvErrorKind::NoPyproject => "No pyproject.toml found at "@ + p,
        VenvErrorKind::NotPoetry => "pyproject.toml is not a Poetry project at "@ + p,
        VenvErrorKind::NoEnvironmentYml => "No environment.yml found at "@ + p,
        VenvErrorKind::NoPipfile => "No Pipfile found at "@ + p,
        VenvErrorKind::UvWithoutVenv => "No .venv at "@ + p
            + ". Run `uv sync` or enter the .venv directory."@,
        VenvErrorKind::NoEnvironment => "No virtual environment found at "@ + p,
        VenvErrorKind::ReadFailed => "Failed to read pyproject.toml for "@ + p,
        VenvErrorKind::EmptyCustomPath => "Custom virtual environment path is empty"@,
    }
}

impl VenvError {
    pub fn message(&self) -> (res: String)
        ensures
            res@ == error_message(self.kind, self.path@),
    {
        let p = self.path.as_str();
        let mut out = String::new();
        match self.kind {
            VenvErrorKind::PathRequired => push_str(&mut out, "Path required for venv activation"),
            VenvErrorKind::PathMissing => {
                push_str(&mut out, "Path does not exist: ");
                push_str(&mut out, p);
            },
            VenvErrorKind::NoActivateScript => {
                push_str(&mut out, "No bin/activate at ");
                push_str(&mut out, p);
                push_str(&mut out, " or ");
                push_str(&mut out, p);
                push_str(&mut out, "/.venv");
            },
            VenvErrorKind::NotADirectory => {
                push_str(&mut out, "Path is not a directory: ");
                push_str(&mut out, p);
            },
            VenvErrorKind::NoPyproject => {
                push_str(&mut out, "No pyproject.toml found at ");
                push_str(&mut out, p);
            },
            VenvErrorKind::NotPoetry => {
                push_str(&mut out, "pyproject.toml is not a Poetry project at ");
                push_str(&mut out, p);
            },
            VenvErrorKind::NoEnvironmentYml => {
                push_str(&mut out, "No environment.yml found at ");
                push_str(&mut out, p);
            },
            VenvErrorKind::NoPipfile => {
                push_str(&mut out, "No Pipfile found at ");
                push_str(&mut out, p);
            },
            VenvErrorKind::UvWithoutVenv => {
                push_str(&mut out, "No .venv at ");
                push_str(&mut out, p);
                push_str(&mut out, ". Run `uv sync` or enter the .venv directory.");
            },
            VenvErrorKind::NoEnvironment => {
                push_str(&mut out, "No virtual environment found at ");
                push_str(&mut out, p);
            },
            VenvErrorKind::ReadFailed => {
                push_str(&mut out, "Failed to read pyproject.toml for ");
                push_str(&mut out, p);
            },
            VenvErrorKind::EmptyCustomPath => push_str(
                &mut out,
                "Custom virtual environment path is empty",
            ),
        }
        out
    }
}

// ---------------------------------------------------------------------------
// What the file system shows
// ---------------------------------------------------------------------------

/// A file that may be read.
#[derive(Debug, Clone)]
pub enum FileState {
    Missing,
    /// It exists but is no regular file (a directory, say).
    NotAFile,
    /// A regular file that could not be read as text.
    Unreadable,
    Text(String),
}

pub open spec fn file_contains(f: FileState, needle: Seq<char>) -> bool {
    match f {
        FileState::Text(c) => contains_text(c@, needle),
        _ => false,
    }
}

/// What the file system shows at one path `P`.
#[derive(Debug, Clone)]
pub struct PathFacts {
    /// `P` exists.
    pub exists: bool,
    /// `P` is a directory.
    pub is_dir: bool,
    /// `P/bin/activate` or `P/Scripts/activate` is a regular file.
    pub has_activate: bool,
    /// `P/.venv` is a directory.
    pub nested_is_dir: bool,
    /// `P/.venv/bin/activate` or `P/.venv/Scripts/activate` is a regular file.
    pub nested_has_activate: bool,
    /// `P/pyproject.toml`.
    pub pyproject: FileState,
    /// `P/environment.yml` is a regular file.
    pub environment_yml: bool,
    /// `P/Pipfile` is a regular file.
    pub pipfile: bool,
    /// `P/.python-version` is a regular file.
    pub python_version: bool,
    /// `pyproject.toml` in the parent directory of `P`.
    pub parent_pyproject: FileState,
}

pub open spec fn home_view(home: Option<&str>) -> Option<Seq<char>> {
    opt_view(home)
}

// ---------------------------------------------------------------------------
// Activation roots and validation
// ---------------------------------------------------------------------------

/// The directory holding `bin/activate`: the path itself or its `.venv`
/// child.
pub open spec fn activate_root_spec(p: Seq<char>, f: PathFacts) -> VenvOutcome<Seq<char>> {
    if !f.exists {
        Err((VenvErrorKind::PathMissing, p))
    } else if f.has_activate {
        Ok(p)
    } else if f.nested_has_activate {
        Ok(path_join(p, ".venv"@))
    } else {
        Err((VenvErrorKind::NoActivateScript, p))
    }
}

pub open spec fn string_outcome(r: Result<String, VenvError>) -> VenvOutcome<Seq<char>> {
    match r {
        Ok(s) => Ok(s@),
        Err(e) => Err(err_view(e)),
    }
}

pub open spec fn unit_outcome(r: Result<(), VenvError>) -> VenvOutcome<()> {
    match r {
        Ok(_) => Ok(()),
        Err(e) => Err(err_view(e)),
    }
}

/// The directory that contains `bin/activate` for `path` (after `~/` is
/// expanded); `facts` describe that expanded path.
pub fn resolve_activate_root(path: &str, home: Option<&str>, facts: &PathFacts) -> (res: Result<
    String,
    VenvError,
>)
    ensures
        string_outcome(res) == activate_root_spec(expand_tilde_spec(path@, home_view(home)), *facts),
{
    let p = expand_tilde(path, home);
    if !facts.exists {
        return Err(venv_error(VenvErrorKind::PathMissing, p.as_str()));
    }
    if facts.has_activate {
        return Ok(p);
    }
    if facts.nested_has_activate {
        return Ok(join_path(p.as_str(), ".venv"));
    }
    Err(venv_error(VenvErrorKind::NoActivateScript, p.as_str()))
}

/// Poetry needs a directory whose `pyproject.toml` has a `[tool.poetry]`
/// table.
pub open spec fn poetry_spec(p: Seq<char>, f: PathFacts) -> VenvOutcome<()> {
    if !f.is_dir {
        Err((VenvErrorKind::NotADirectory, p))
    } else {
        match f.pyproject {
            FileState::Text(c) => if contains_text(c@, "[tool.poetry]"@) {
                Ok(())
            } else {
                Err((VenvErrorKind::NotPoetry, p))
            },
            FileState::Unreadable => Err((VenvErrorKind::ReadFailed, p)),
            _ => Err((VenvErrorKind::NoPyproject, p)),
        }
    }
}

pub open spec fn conda_spec(p: Seq<char>, f: PathFacts) -> VenvOutcome<()> {
    if !f.is_dir {
        Err((VenvErrorKind::NotADirectory, p))
    } else if f.environment_yml {
        Ok(())
    } else {
        Err((VenvErrorKind::NoEnvironmentYml, p))
    }
}

pub open spec fn pipenv_spec(p: Seq<char>, f: PathFacts) -> VenvOutcome<()> {
    if !f.is_dir {
        Err((VenvErrorKind::NotADirectory, p))
    } else if f.pipfile {
        Ok(())
    } else {
        Err((VenvErrorKind::NoPipfile, p))
    }
}

fn validate_poetry(p: &str, f: &PathFacts) -> (res: Result<(), VenvError>)
    ensures
        unit_outcome(res) == poetry_spec(p@, *f),
{
    if !f.is_dir {
        return Err(venv_error(VenvErrorKind::NotADirectory, p));
    }
    match &f.pyproject {
        FileState::Text(c) => if contains_str(c.as_str(), "[tool.poetry]") {
            Ok(())
        } else {
            Err(venv_error(VenvErrorKind::NotPoetry, p))
        },
        FileState::Unreadable => Err(venv_error(VenvErrorKind::ReadFailed, p)),
        _ => Err(venv_error(VenvErrorKind::NoPyproject, p)),
    }
}

fn validate_conda(p: &str, f: &PathFacts) -> (res: Result<(), VenvError>)
    ensures
        unit_outcome(res) == conda_spec(p@, *f),
{
    if !f.is_dir {
        Err(venv_error(VenvErrorKind::NotADirectory, p))
    } else if f.environment_yml {
        Ok(())
    } else {
        Err(venv_error(VenvErrorKind::NoEnvironmentYml, p))
    }
}

fn validate_pipenv(p: &str, f: &PathFacts) -> (res: Result<(), VenvError>)
    ensures
        unit_outcome(res) == pipenv_spec(p@, *f),
{
    if !f.is_dir {
        Err(venv_error(VenvErrorKind::NotADirectory, p))
    } else if f.pipfile {
        Ok(())
    } else {
        Err(venv_error(VenvErrorKind::NoPipfile, p))
    }
}

/// What the file system shows for one stored environment `env`.
#[derive(Debug, Clone)]
pub struct EnvProbe {
    /// Facts at `expand_tilde(env.path)`.
    pub expanded: PathFacts,
    /// Facts at `expand_tilde(expand_tilde(env.path))`, where the activation
    /// check of a script environment looks.
    pub reexpanded: PathFacts,
    /// `canonicalize(expand_tilde(n.path))` for the environment `n` that
    /// `env` normalizes to, when that succeeds.
    pub canonical: Option<String>,
}

pub open spec fn validate_spec(
    v: (Seq<char>, Seq<char>, Seq<char>),
    home: Option<Seq<char>>,
    probe: EnvProbe,
) -> VenvOutcome<()> {
    let p = expand_tilde_spec(v.1, home);
    match kind_of(v.2) {
        VenvKind::Script => match activate_root_spec(expand_tilde_spec(p, home), probe.reexpanded) {
            Ok(_) => Ok(()),
            Err(e) => Err(e),
        },
        VenvKind::Poetry => poetry_spec(p, probe.expanded),
        VenvKind::Conda => conda_spec(p, probe.expanded),
        VenvKind::Pipenv => pipenv_spec(p, probe.expanded),
    }
}

/// Checks that a stored selection's path and type can be activated.
pub fn validate_selection_activatable(env: &SelectableVenv, home: Option<&str>, probe: &EnvProbe) -> (res:
    Result<(), VenvError>)
    ensures
        unit_outcome(res) == validate_spec(venv_view(*env), home_view(home), *probe),
{
    let p = expand_tilde(env.path.as_str(), home);
    match venv_kind(env.venv_type.as_str()) {
        VenvKind::Script => match resolve_activate_root(p.as_str(), home, &probe.reexpanded) {
            Ok(_) => Ok(()),
            Err(e) => Err(e),
        },
        VenvKind::Poetry => validate_poetry(p.as_str(), &probe.expanded),
        VenvKind::Conda => validate_conda(p.as_str(), &probe.expanded),
        VenvKind::Pipenv => validate_pipenv(p.as_str(), &probe.expanded),
    }
}

pub open spec fn venv_outcome(r: Result<SelectableVenv, VenvError>) -> VenvOutcome<
    (Seq<char>, Seq<char>, Seq<char>),
> {
    match r {
        Ok(v) => Ok(venv_view(v)),
        Err(e) => Err(err_view(e)),
    }
}

/// Script environments are normalized to the directory holding
/// `bin/activate` and to the type `venv`; the others stay as they are.
pub open spec fn normalize_spec(
    v: (Seq<char>, Seq<char>, Seq<char>),
    home: Option<Seq<char>>,
    probe: EnvProbe,
) -> VenvOutcome<(Seq<char>, Seq<char>, Seq<char>)> {
    match validate_spec(v, home, probe) {
        Err(e) => Err(e),
        Ok(_) => match kind_of(v.2) {
            VenvKind::Script => match activate_root_spec(expand_tilde_spec(v.1, home), probe.expanded) {
                Ok(root) => Ok((v.0, root, "venv"@)),
                Err(e) => Err(e),
            },
            _ => Ok(v),
        },
    }
}

/// A file system, given as the facts at each path, is coherent when a path
/// with an activation script exists, and a path whose `.venv` holds an
/// activation script has a `.venv` child with one.
pub open spec fn coherent_fs(fs: spec_fn(Seq<char>) -> PathFacts) -> bool {
    &&& forall|p: Seq<char>| (#[trigger] fs(p)).has_activate ==> fs(p).exists
    &&& forall|p: Seq<char>|
        (#[trigger] fs(p)).nested_has_activate ==> fs(path_join(p, ".venv"@)).has_activate
}

/// What the file system `fs` shows for an environment stored at `path`.
pub open spec fn probe_in(fs: spec_fn(Seq<char>) -> PathFacts, path: Seq<char>, home: Option<Seq<char>>) -> EnvProbe {
    EnvProbe {
        expanded: fs(expand_tilde_spec(path, home)),
        reexpanded: fs(expand_tilde_spec(expand_tilde_spec(path, home), home)),
        canonical: None,
    }
}

proof fn lemma_expand_keeps(x: Seq<char>, home: Option<Seq<char>>)
    requires
        home is None || !crate::text::has_prefix(x, "~/"@),
    ensures
        expand_tilde_spec(x, home) == x,
{
}

/// `P/.venv` begins with `~/` only when `P` does or is `~`.
proof fn lemma_join_venv_keeps(p: Seq<char>)
    requires
        !crate::text::has_prefix(p, "~/"@),
        p != "~"@,
    ensures
        !crate::text::has_prefix(path_join(p, ".venv"@), "~/"@),
{
    let r = path_join(p, ".venv"@);
    reveal_strlit(".venv");
    reveal_strlit("~/");
    reveal_strlit("~");
    if crate::text::has_prefix(r, "~/"@) {
        assert(r.take(2) == "~/"@);
        assert(r.take(2)[0] == r[0] && r.take(2)[1] == r[1]);
        assert(r[0] == '~' && r[1] == '/');
        if p.len() == 0 {
            assert(r =~= ".venv"@);
        } else if p.len() == 1 {
            assert(r[0] == p[0]);
            assert(p =~= "~"@);
        } else {
            assert(r[0] == p[0] && r[1] == p[1]);
            assert(p.take(2) =~= "~/"@);
        }
    }
}

/// Whether the activation root of an expanded path stays put under a second
/// expansion: it does not begin with `~/`, nor is it `~` whose root would be
/// `~/.venv`.
pub open spec fn root_keeps_expansion(p: Seq<char>, home: Option<Seq<char>>, f: PathFacts) -> bool {
    home is None || (!crate::text::has_prefix(p, "~/"@) && (p == "~"@ ==> f.has_activate))
}

/// The activation root found for an expanded path has its own script there.
proof fn lemma_root_is_stable(p: Seq<char>, home: Option<Seq<char>>, fs: spec_fn(Seq<char>) -> PathFacts)
    requires
        coherent_fs(fs),
        activate_root_spec(p, fs(p)) is Ok,
        root_keeps_expansion(p, home, fs(p)),
    ensures
        activate_root_spec(p, fs(p)) matches Ok(r) && activate_root_spec(r, fs(r)) == Ok::<
            Seq<char>,
            (VenvErrorKind, Seq<char>),
        >(r) && expand_tilde_spec(r, home) == r,
{
    lemma_expand_keeps(p, home);
    if !fs(p).has_activate {
        let r = path_join(p, ".venv"@);
        assert(fs(r).has_activate);
        if home is Some {
            lemma_join_venv_keeps(p);
        }
        lemma_expand_keeps(r, home);
    }
}

/// On an unchanged, coherent file system, a normalized environment
/// normalizes to itself. (Left out, for script environments with a home
/// directory: an expanded path that still begins with `~/`, or is `~` with
/// the script under `~/.venv`, where a second expansion moves the root.)
pub proof fn lemma_normalized_is_fixed_point(
    v: (Seq<char>, Seq<char>, Seq<char>),
    home: Option<Seq<char>>,
    fs: spec_fn(Seq<char>) -> PathFacts,
)
    requires
        coherent_fs(fs),
        normalize_spec(v, home, probe_in(fs, v.1, home)) is Ok,
        kind_of(v.2) == VenvKind::Script ==> root_keeps_expansion(
            expand_tilde_spec(v.1, home),
            home,
            fs(expand_tilde_spec(v.1, home)),
        ),
    ensures
        normalize_spec(v, home, probe_in(fs, v.1, home)) matches Ok(n) && normalize_spec(
            n,
            home,
            probe_in(fs, n.1, home),
        ) == Ok::<(Seq<char>, Seq<char>, Seq<char>), (VenvErrorKind, Seq<char>)>(n),
{
    let p = expand_tilde_spec(v.1, home);
    if kind_of(v.2) == VenvKind::Script {
        lemma_root_is_stable(p, home, fs);
        reveal_strlit("venv");
        reveal_strlit("poetry");
        reveal_strlit("conda");
        reveal_strlit("pipenv");
        assert("venv"@.len() == 4 && "poetry"@.len() == 6 && "conda"@.len() == 5 && "pipenv"@.len() == 6);
        assert("venv"@ != "poetry"@ && "venv"@ != "conda"@ && "venv"@ != "pipenv"@);
        assert(kind_of("venv"@) == VenvKind::Script);
    }
}

/// Normalizes paths and types so that activation uses `source …/bin/activate`
/// where it can.
pub fn normalize_selectable_venv(env: SelectableVenv, home: Option<&str>, probe: &EnvProbe) -> (res:
    Result<SelectableVenv, VenvError>)
    ensures
        venv_outcome(res) == normalize_spec(venv_view(env), home_view(home), *probe),
{
    match validate_selection_activatable(&env, home, probe) {
        Err(e) => {
            return Err(e);
        },
        Ok(_) => {},
    }
    match venv_kind(env.venv_type.as_str()) {
        VenvKind::Script => {
            match resolve_activate_root(env.path.as_str(), home, &probe.expanded) {
                Ok(root) => Ok(SelectableVenv { name: env.name, path: root, venv_type: string_of("venv") }),
                Err(e) => Err(e),
            }
        },
        _ => Ok(env),
    }
}

/// Whether the stored selection can be activated as it is.
pub fn is_selection_activatable(env: &SelectableVenv, home: Option<&str>, probe: &EnvProbe) -> (res: bool)
    ensures
        res == normalize_spec(venv_view(*env), home_view(home), *probe) is Ok,
{
    let copy = SelectableVenv {
        name: env.name.clone(),
        path: env.path.clone(),
        venv_type: env.venv_type.clone(),
    };
    normalize_selectable_venv(copy, home, probe).is_ok()
}

// ---------------------------------------------------------------------------
// Activation commands
// ---------------------------------------------------------------------------

pub open spec fn shell_special(c: char) -> bool {
    c == '\'' || c == '"' || c == '$' || c == '`' || c == ' '
}

pub open spec fn needs_shell_quote(s: Seq<char>) -> bool {
    exists|i: int| 0 <= i < s.len() && shell_special(#[trigger] s[i])
}

/// A path as it is put into a shell command: in double quotes, with
/// backslashes and double quotes escaped, when it holds a quote, `$`, a
/// backquote or a space; otherwise as it is.
pub open spec fn shell_quote_spec(s: Seq<char>) -> Seq<char> {
    if needs_shell_quote(s) {
        seq!['"'] + escape_quotes(s) + seq!['"']
    } else {
        s
    }
}

/// Quotes a path for use in a shell command.
pub fn shell_quote(path: &str) -> (res: String)
    ensures
        res@ == shell_quote_spec(path@),
{
    let cs = chars_of(path);
    let mut i: usize = 0;
    let mut special = false;
    while i < cs.len()
        invariant
            i <= cs.len(),
            cs@ == path@,
            special == exists|j: int| 0 <= j < i && shell_special(#[trigger] path@[j]),
        decreases cs.len() - i,
    {
        let c = cs[i];
        if c == '\'' || c == '"' || c == '$' || c == '`' || c == ' ' {
            special = true;
        }
        i = i + 1;
    }
    if !special {
        return string_of(path);
    }
    let mut out = String::new();
    push_char(&mut out, '"');
    push_escaped(&mut out, path);
    push_char(&mut out, '"');
    out
}

/// The text after the last `/` (all of it when there is none).
pub open spec fn last_segment(s: Seq<char>) -> Seq<char>
    decreases s.len(),
{
    if s.len() == 0 {
        s
    } else if s.last() == '/' {
        Seq::empty()
    } else {
        last_segment(s.drop_last()).push(s.last())
    }
}

/// The shell's name from the value of `SHELL` (`/bin/sh` when it is unset):
/// its last path segment.
pub fn shell_name(shell_var: Option<&str>) -> (res: String)
    ensures
        res@ == last_segment(
            match shell_var {
                Some(s) => s@,
                None => "/bin/sh"@,
            },
        ),
{
    let s = match shell_var {
        Some(s) => s,
        None => "/bin/sh",
    };
    let cs = chars_of(s);
    let mut start: usize = cs.len();
    assert(cs@.take(cs.len() as int) =~= cs@);
    assert(cs@.skip(cs.len() as int) =~= Seq::<char>::empty());
    while start > 0 && cs[start - 1] != '/'
        invariant
            start <= cs.len(),
            cs@ == s@,
            last_segment(s@) == last_segment(cs@.take(start as int)) + cs@.skip(start as int),
        decreases start,
    {
        let ghost t = cs@.take(start as int);
        assert(t.drop_last() =~= cs@.take(start - 1));
        assert(t.last() == cs@[start - 1]);
        assert(last_segment(t) == last_segment(cs@.take(start - 1)).push(cs@[start - 1]));
        assert(cs@.skip(start - 1) =~= seq![cs@[start - 1]] + cs@.skip(start as int));
        assert(last_segment(cs@.take(start - 1)).push(cs@[start - 1]) + cs@.skip(start as int)
            =~= last_segment(cs@.take(start - 1)) + cs@.skip(start - 1));
        start = start - 1;
    }
    let mut out = String::new();
    let mut i: usize = start;
    while i < cs.len()
        invariant
            start <= i <= cs.len(),
            out@ == cs@.subrange(start as int, i as int),
        decreases cs.len() - i,
    {
        push_char(&mut out, cs[i]);
        i = i + 1;
        assert(out@ =~= cs@.subrange(start as int, i as int));
    }
    assert(last_segment(cs@.take(start as int)) =~= Seq::<char>::empty()) by {
        if start > 0 {
            assert(cs@.take(start as int).last() == '/');
        }
    }
    assert(cs@.skip(start as int) =~= cs@.subrange(start as int, cs.len() as int));
    assert(cs@.take(cs.len() as int) =~= cs@);
    out
}

/// The conda environment name: the name of the working directory, or `base`.
pub fn conda_env_name(cwd: Option<&str>) -> (res: String)
    ensures
        res@ == match cwd {
            Some(d) => match file_name_of(d@) {
                Some(n) => n,
                None => "base"@,
            },
            None => "base"@,
        },
{
    match cwd {
        Some(d) => match file_name(d) {
            Some(n) => n,
            None => string_of("base"),
        },
        None => string_of("base"),
    }
}

pub const POETRY_ACTIVATE: &'static str = "poetry shell";

pub const PIPENV_ACTIVATE: &'static str = "pipenv shell";

pub const SUBSHELL_DEACTIVATE: &'static str = "exit";

pub const CONDA_ACTIVATE_TAIL: &'static str = " 2>/dev/null || conda activate base 2>/dev/null || echo 'No conda env'";

pub const CONDA_DEACTIVATE: &'static str = "conda deactivate 2>/dev/null || true";

pub const FISH_DEACTIVATE: &'static str = "conda deactivate 2>/dev/null; deactivate 2>/dev/null; set -gx VIRTUAL_ENV";

pub const SH_DEACTIVATE: &'static str = "deactivate 2>/dev/null || true";

pub open spec fn commands_outcome(r: Result<(String, String), VenvError>) -> VenvOutcome<
    (Seq<char>, Seq<char>),
> {
    match r {
        Ok((a, d)) => Ok((a@, d@)),
        Err(e) => Err(err_view(e)),
    }
}

/// `source <root>/bin/activate`, and the matching deactivation for the shell.
pub open spec fn script_commands_spec(
    path: Option<Seq<char>>,
    home: Option<Seq<char>>,
    f: PathFacts,
    shell: Seq<char>,
) -> VenvOutcome<(Seq<char>, Seq<char>)> {
    match path {
        None => Err((VenvErrorKind::PathRequired, ""@)),
        Some(p) => match activate_root_spec(expand_tilde_spec(p, home), f) {
            Err(e) => Err(e),
            Ok(root) => Ok(
                (
                    "source "@ + shell_quote_spec(path_join(path_join(root, "bin"@), "activate"@)),
                    if shell == "fish"@ {
                        FISH_DEACTIVATE@
                    } else {
                        SH_DEACTIVATE@
                    },
                ),
            ),
        },
    }
}

pub open spec fn commands_spec(
    venv_type: Seq<char>,
    path: Option<Seq<char>>,
    home: Option<Seq<char>>,
    f: PathFacts,
    shell: Seq<char>,
    conda_env: Seq<char>,
) -> VenvOutcome<(Seq<char>, Seq<char>)> {
    match kind_of(venv_type) {
        VenvKind::Script => script_commands_spec(path, home, f, shell),
        VenvKind::Poetry => Ok((POETRY_ACTIVATE@, SUBSHELL_DEACTIVATE@)),
        VenvKind::Conda => Ok(("conda activate "@ + conda_env + CONDA_ACTIVATE_TAIL@, CONDA_DEACTIVATE@)),
        VenvKind::Pipenv => Ok((PIPENV_ACTIVATE@, SUBSHELL_DEACTIVATE@)),
    }
}

fn activate_via_script(path: Option<&str>, home: Option<&str>, facts: &PathFacts, shell: &str) -> (res:
    Result<(String, String), VenvError>)
    ensures
        commands_outcome(res) == script_commands_spec(opt_view(path), home_view(home), *facts, shell@),
{
    let p = match path {
        Some(p) => p,
        None => {
            return Err(venv_error(VenvErrorKind::PathRequired, ""));
        },
    };
    let root = match resolve_activate_root(p, home, facts) {
        Ok(r) => r,
        Err(e) => {
            return Err(e);
        },
    };
    let bin = join_path(root.as_str(), "bin");
    let script = join_path(bin.as_str(), "activate");
    let mut activate = string_of("source ");
    let quoted = shell_quote(script.as_str());
    push_str(&mut activate, quoted.as_str());
    let deactivate = if str_eq(shell, "fish") {
        string_of(FISH_DEACTIVATE)
    } else {
        string_of(SH_DEACTIVATE)
    };
    Ok((activate, deactivate))
}

/// Activation and deactivation commands for an environment type. Script
/// types need the environment's path; `facts` describe that path after `~/`
/// is expanded, `shell` is the shell's name and `conda_env` the conda
/// environment's name.
pub fn generate_commands(
    venv_type: &str,
    path: Option<&str>,
    home: Option<&str>,
    facts: &PathFacts,
    shell: &str,
    conda_env: &str,
) -> (res: Result<(String, String), VenvError>)
    ensures
        commands_outcome(res) == commands_spec(
            venv_type@,
            opt_view(path),
            home_view(home),
            *facts,
            shell@,
            conda_env@,
        ),
{
    match venv_kind(venv_type) {
        VenvKind::Script => activate_via_script(path, home, facts, shell),
        VenvKind::Poetry => Ok((string_of(POETRY_ACTIVATE), string_of(SUBSHELL_DEACTIVATE))),
        VenvKind::Conda => {
            let mut activate = string_of("conda activate ");
            push_str(&mut activate, conda_env);
            push_str(&mut activate, CONDA_ACTIVATE_TAIL);
            Ok((activate, string_of(CONDA_DEACTIVATE)))
        },
        VenvKind::Pipenv => Ok((string_of(PIPENV_ACTIVATE), string_of(SUBSHELL_DEACTIVATE))),
    }
}

// ---------------------------------------------------------------------------
// Environment types and custom paths
// ---------------------------------------------------------------------------

/// The type of the environment at `p`: `uv` for a `.venv` whose project
/// declares `[tool.uv]`, `venv` for any other `.venv`, `auto` otherwise.
/// `parent_pyproject` is the `pyproject.toml` next to `p`.
pub open spec fn venv_type_spec(p: Seq<char>, parent_pyproject: FileState) -> VenvOutcome<Seq<char>> {
    if file_name_of(p) == Some(".venv"@) {
        match parent_pyproject {
            FileState::Missing => Ok("venv"@),
            FileState::Text(c) => if contains_text(c@, "[tool.uv]"@) {
                Ok("uv"@)
            } else {
                Ok("venv"@)
            },
            _ => Err((VenvErrorKind::ReadFailed, p)),
        }
    } else {
        Ok("auto"@)
    }
}

fn is_dot_venv(n: &Option<String>) -> (res: bool)
    ensures
        res == (match n {
            Some(s) => s@ == ".venv"@,
            None => false,
        }),
{
    match n {
        Some(s) => str_eq(s.as_str(), ".venv"),
        None => false,
    }
}

/// Detects the type of the environment at `path`.
pub fn detect_venv_type(path: &str, parent_pyproject: &FileState) -> (res: Result<String, VenvError>)
    ensures
        string_outcome(res) == venv_type_spec(path@, *parent_pyproject),
{
    let n = file_name(path);
    if is_dot_venv(&n) {
        match parent_pyproject {
            FileState::Missing => Ok(string_of("venv")),
            FileState::Text(c) => if contains_str(c.as_str(), "[tool.uv]") {
                Ok(string_of("uv"))
            } else {
                Ok(string_of("venv"))
            },
            _ => Err(venv_error(VenvErrorKind::ReadFailed, path)),
        }
    } else {
        Ok(string_of("auto"))
    }
}

pub open spec fn type_or_venv(r: VenvOutcome<Seq<char>>) -> Seq<char> {
    match r {
        Ok(t) => t,
        Err(_) => "venv"@,
    }
}

pub open spec fn custom_entry_spec(p: Seq<char>, t: Seq<char>) -> (Seq<char>, Seq<char>, Seq<char>) {
    ("Custom: "@ + p, p, t)
}

fn custom_venv_entry(path: String, venv_type: String) -> (res: SelectableVenv)
    ensures
        venv_view(res) == custom_entry_spec(path@, venv_type@),
{
    let mut name = string_of("Custom: ");
    push_str(&mut name, path.as_str());
    SelectableVenv { name, path, venv_type }
}

/// A project that uses uv: `[tool.uv]` in `pyproject.toml` or a
/// `.python-version` file.
pub open spec fn uv_markers_spec(f: PathFacts) -> bool {
    file_contains(f.pyproject, "[tool.uv]"@) || f.python_version
}

/// How a user-typed path (already expanded, with its facts) becomes a
/// selection: an environment at the path, one in its `.venv`, a Poetry,
/// conda or Pipenv project, in that order.
pub open spec fn custom_path_spec(p: Seq<char>, f: PathFacts) -> VenvOutcome<
    (Seq<char>, Seq<char>, Seq<char>),
> {
    if !f.exists {
        Err((VenvErrorKind::PathMissing, p))
    } else if f.has_activate {
        Ok(custom_entry_spec(p, type_or_venv(venv_type_spec(p, f.parent_pyproject))))
    } else if f.nested_is_dir && f.nested_has_activate {
        let nested = path_join(p, ".venv"@);
        Ok(custom_entry_spec(nested, type_or_venv(venv_type_spec(nested, f.pyproject))))
    } else if poetry_spec(p, f) is Ok {
        Ok(custom_entry_spec(p, "poetry"@))
    } else if conda_spec(p, f) is Ok {
        Ok(custom_entry_spec(p, "conda"@))
    } else if pipenv_spec(p, f) is Ok {
        Ok(custom_entry_spec(p, "pipenv"@))
    } else if f.is_dir && uv_markers_spec(f) {
        Err((VenvErrorKind::UvWithoutVenv, p))
    } else {
        Err((VenvErrorKind::NoEnvironment, p))
    }
}

fn type_or_default(r: Result<String, VenvError>) -> (res: String)
    ensures
        res@ == type_or_venv(string_outcome(r)),
{
    match r {
        Ok(t) => t,
        Err(_) => string_of("venv"),
    }
}

/// Resolves and validates a user-typed path into a storable selection;
/// `facts` describe the path after `~/` is expanded.
pub fn resolve_custom_venv_path(path: &str, home: Option<&str>, facts: &PathFacts) -> (res: Result<
    SelectableVenv,
    VenvError,
>)
    ensures
        venv_outcome(res) == custom_path_spec(expand_tilde_spec(path@, home_view(home)), *facts),
{
    let p = expand_tilde(path, home);
    if !facts.exists {
        return Err(venv_error(VenvErrorKind::PathMissing, p.as_str()));
    }
    if facts.has_activate {
        let t = type_or_default(detect_venv_type(p.as_str(), &facts.parent_pyproject));
        return Ok(custom_venv_entry(p, t));
    }
    if facts.nested_is_dir && facts.nested_has_activate {
        let nested = join_path(p.as_str(), ".venv");
        let t = type_or_default(detect_venv_type(nested.as_str(), &facts.pyproject));
        return Ok(custom_venv_entry(nested, t));
    }
    if validate_poetry(p.as_str(), facts).is_ok() {
        return Ok(custom_venv_entry(p, string_of("poetry")));
    }
    if validate_conda(p.as_str(), facts).is_ok() {
        return Ok(custom_venv_entry(p, string_of("conda")));
    }
    if validate_pipenv(p.as_str(), facts).is_ok() {
        return Ok(custom_venv_entry(p, string_of("pipenv")));
    }
    let uv = match &facts.pyproject {
        FileState::Text(c) => contains_str(c.as_str(), "[tool.uv]"),
        _ => false,
    } || facts.python_version;
    if facts.is_dir && uv {
        return Err(venv_error(VenvErrorKind::UvWithoutVenv, p.as_str()));
    }
    Err(venv_error(VenvErrorKind::NoEnvironment, p.as_str()))
}

/// Strict validation of a user-typed path.
pub fn validate_custom_venv_path(path: &str, home: Option<&str>, facts: &PathFacts) -> (res: Result<
    (),
    VenvError,
>)
    ensures
        unit_outcome(res) == match custom_path_spec(expand_tilde_spec(path@, home_view(home)), *facts) {
            Ok(_) => Ok(()),
            Err(e) => Err(e),
        },
{
    match resolve_custom_venv_path(path, home, facts) {
        Ok(_) => Ok(()),
        Err(e) => Err(e),
    }
}

// ---------------------------------------------------------------------------
// Environments in a project directory
// ---------------------------------------------------------------------------

/// What the file system shows in a project directory `D`.
#[derive(Debug, Clone)]
pub struct DirMarkers {
    /// `D/.venv` exists.
    pub dot_venv_exists: bool,
    /// `D/.venv` is a directory.
    pub dot_venv_is_dir: bool,
    /// `D/.venv/bin/activate` exists.
    pub dot_venv_activate: bool,
    /// `D/pyproject.toml`.
    pub pyproject: FileState,
    /// `D/environment.yml` exists.
    pub environment_yml: bool,
    /// `D/Pipfile` exists.
    pub pipfile: bool,
}

pub open spec fn detected_outcome(r: Result<Option<DetectedVenv>, VenvError>) -> VenvOutcome<
    Option<(Seq<char>, Seq<char>)>,
> {
    match r {
        Ok(Some(d)) => Ok(Some((d.path@, d.venv_type@))),
        Ok(None) => Ok(None),
        Err(e) => Err(err_view(e)),
    }
}

/// Conda and Pipenv projects, checked after the others.
pub open spec fn other_projects_spec(d: Seq<char>, m: DirMarkers) -> Option<(Seq<char>, Seq<char>)> {
    if m.environment_yml {
        Some((d, "conda"@))
    } else if m.pipfile {
        Some((d, "pipenv"@))
    } else {
        None
    }
}

/// The environment a project directory holds: its `.venv`, then a uv or
/// Poetry project, then a conda or Pipenv project.
pub open spec fn auto_detect_spec(d: Seq<char>, m: DirMarkers) -> VenvOutcome<
    Option<(Seq<char>, Seq<char>)>,
> {
    let dot_venv = path_join(d, ".venv"@);
    if m.dot_venv_exists && m.dot_venv_is_dir && m.dot_venv_activate {
        Ok(Some((dot_venv, "venv"@)))
    } else {
        match m.pyproject {
            FileState::Missing => Ok(other_projects_spec(d, m)),
            FileState::Text(c) => if contains_text(c@, "[tool.uv]"@) && m.dot_venv_exists
                && m.dot_venv_activate {
                Ok(Some((dot_venv, "venv"@)))
            } else if contains_text(c@, "[tool.poetry]"@) {
                Ok(Some((d, "poetry"@)))
            } else {
                Ok(other_projects_spec(d, m))
            },
            _ => Err((VenvErrorKind::ReadFailed, d)),
        }
    }
}

/// Without a usable `.venv`, a `pyproject.toml` that names neither a usable
/// uv `.venv` nor `[tool.poetry]` decides nothing: the project is a conda one
/// when `environment.yml` exists, else a Pipenv one when a `Pipfile` does,
/// else none, exactly as when there is no `pyproject.toml`.
pub proof fn lemma_plain_pyproject_decides_nothing(d: Seq<char>, m: DirMarkers)
    requires
        !(m.dot_venv_exists && m.dot_venv_is_dir && m.dot_venv_activate),
        match m.pyproject {
            FileState::Missing => true,
            FileState::Text(c) => !(contains_text(c@, "[tool.uv]"@) && m.dot_venv_exists
                && m.dot_venv_activate) && !contains_text(c@, "[tool.poetry]"@),
            _ => false,
        },
    ensures
        auto_detect_spec(d, m) == Ok::<Option<(Seq<char>, Seq<char>)>, (VenvErrorKind, Seq<char>)>(
            if m.environment_yml {
                Some((d, "conda"@))
            } else if m.pipfile {
                Some((d, "pipenv"@))
            } else {
                None
            },
        ),
        auto_detect_spec(d, m) == auto_detect_spec(d, DirMarkers { pyproject: FileState::Missing, ..m }),
{
}

fn detected(path: String, venv_type: &str) -> (res: Option<DetectedVenv>)
    ensures
        res matches Some(d) && d.path@ == path@ && d.venv_type@ == venv_type@,
{
    Some(DetectedVenv { path, venv_type: string_of(venv_type) })
}

fn other_projects(dir: &str, m: &DirMarkers) -> (res: Option<DetectedVenv>)
    ensures
        match res {
            Some(d) => other_projects_spec(dir@, *m) == Some((d.path@, d.venv_type@)),
            None => other_projects_spec(dir@, *m) is None,
        },
{
    if m.environment_yml {
        detected(string_of(dir), "conda")
    } else if m.pipfile {
        detected(string_of(dir), "pipenv")
    } else {
        None
    }
}

/// Detects the environment of the project directory `dir`.
pub fn auto_detect_venv(dir: &str, markers: &DirMarkers) -> (res: Result<Option<DetectedVenv>, VenvError>)
    ensures
        detected_outcome(res) == auto_detect_spec(dir@, *markers),
{
    let m = markers;
    if m.dot_venv_exists && m.dot_venv_is_dir && m.dot_venv_activate {
        return Ok(detected(join_path(dir, ".venv"), "venv"));
    }
    match &m.pyproject {
        FileState::Missing => Ok(other_projects(dir, m)),
        FileState::Text(c) => {
            if contains_str(c.as_str(), "[tool.uv]") && m.dot_venv_exists && m.dot_venv_activate {
                Ok(detected(join_path(dir, ".venv"), "venv"))
            } else if contains_str(c.as_str(), "[tool.poetry]") {
                Ok(detected(string_of(dir), "poetry"))
            } else {
                Ok(other_projects(dir, m))
            }
        },
        _ => Err(venv_error(VenvErrorKind::ReadFailed, dir)),
    }
}

pub open spec fn entry_if(b: bool, e: (Seq<char>, Seq<char>, Seq<char>)) -> Seq<
    (Seq<char>, Seq<char>, Seq<char>),
> {
    if b {
        seq![e]
    } else {
        Seq::empty()
    }
}

/// Every environment the project directory offers, in the order `.venv`,
/// Poetry, conda, Pipenv.
pub open spec fn selectable_in_spec(d: Seq<char>, m: DirMarkers) -> Seq<
    (Seq<char>, Seq<char>, Seq<char>),
> {
    entry_if(
        m.dot_venv_exists && m.dot_venv_is_dir && m.dot_venv_activate,
        (".venv"@, path_join(d, ".venv"@), "venv"@),
    ) + entry_if(file_contains(m.pyproject, "[tool.poetry]"@), ("poetry (pyproject.toml)"@, d, "poetry"@))
        + entry_if(m.environment_yml, ("conda (environment.yml)"@, d, "conda"@)) + entry_if(
        m.pipfile,
        ("pipenv (Pipfile)"@, d, "pipenv"@),
    )
}

fn selectable(name: &str, path: String, venv_type: &str) -> (res: SelectableVenv)
    ensures
        venv_view(res) == (name@, path@, venv_type@),
{
    SelectableVenv { name: string_of(name), path, venv_type: string_of(venv_type) }
}

/// Lists the environments found in the project directory `dir`.
pub fn list_selectable_venvs(dir: &str, markers: &DirMarkers) -> (res: Vec<SelectableVenv>)
    ensures
        res@.map_values(|v: SelectableVenv| venv_view(v)) == selectable_in_spec(dir@, *markers),
{
    let m = markers;
    let mut out: Vec<SelectableVenv> = Vec::new();
    let ghost d = dir@;
    let ghost a = entry_if(
        m.dot_venv_exists && m.dot_venv_is_dir && m.dot_venv_activate,
        (".venv"@, path_join(d, ".venv"@), "venv"@),
    );
    let ghost b = entry_if(file_contains(m.pyproject, "[tool.poetry]"@), ("poetry (pyproject.toml)"@, d, "poetry"@));
    let ghost cc = entry_if(m.environment_yml, ("conda (environment.yml)"@, d, "conda"@));
    let ghost e = entry_if(m.pipfile, ("pipenv (Pipfile)"@, d, "pipenv"@));
    if m.dot_venv_exists && m.dot_venv_is_dir && m.dot_venv_activate {
        out.push(selectable(".venv", join_path(dir, ".venv"), "venv"));
    }
    assert(out@.map_values(|v: SelectableVenv| venv_view(v)) =~= a);
    let poetry = match &m.pyproject {
        FileState::Text(c) => contains_str(c.as_str(), "[tool.poetry]"),
        _ => false,
    };
    if poetry {
        out.push(selectable("poetry (pyproject.toml)", string_of(dir), "poetry"));
    }
    assert(out@.map_values(|v: SelectableVenv| venv_view(v)) =~= a + b);
    if m.environment_yml {
        out.push(selectable("conda (environment.yml)", string_of(dir), "conda"));
    }
    assert(out@.map_values(|v: SelectableVenv| venv_view(v)) =~= a + b + cc);
    if m.pipfile {
        out.push(selectable("pipenv (Pipfile)", string_of(dir), "pipenv"));
    }
    assert(out@.map_values(|v: SelectableVenv| venv_view(v)) =~= a + b + cc + e);
    out
}

// ---------------------------------------------------------------------------
// Lists of environments
// ---------------------------------------------------------------------------

/// Two paths name the same environment when they are equal after `~/` is
/// expanded, or when both canonical forms are known and equal.
pub open spec fn same_venv_spec(
    a: Seq<char>,
    b: Seq<char>,
    home: Option<Seq<char>>,
    canon_a: Option<Seq<char>>,
    canon_b: Option<Seq<char>>,
) -> bool {
    ||| same_path_spec(expand_tilde_spec(a, home), expand_tilde_spec(b, home))
    ||| (canon_a is Some && canon_b is Some && same_path_spec(canon_a->0, canon_b->0))
}

/// Whether two paths refer to the same environment; `canon_a` and `canon_b`
/// are the canonical forms of the expanded paths, where they could be had.
pub fn same_venv_path(
    a: &str,
    b: &str,
    home: Option<&str>,
    canon_a: Option<&str>,
    canon_b: Option<&str>,
) -> (res: bool)
    ensures
        res == same_venv_spec(a@, b@, home_view(home), opt_view(canon_a), opt_view(canon_b)),
{
    let ea = expand_tilde(a, home);
    let eb = expand_tilde(b, home);
    if same_path(ea.as_str(), eb.as_str()) {
        return true;
    }
    match (canon_a, canon_b) {
        (Some(x), Some(y)) => same_path(x, y),
        _ => false,
    }
}

fn copy_venv(v: &SelectableVenv) -> (res: SelectableVenv)
    ensures
        venv_view(res) == venv_view(*v),
{
    SelectableVenv { name: v.name.clone(), path: v.path.clone(), venv_type: v.venv_type.clone() }
}

pub open spec fn path_listed(m: Seq<(Seq<char>, Seq<char>, Seq<char>)>, p: Seq<char>) -> bool {
    exists|k: int| 0 <= k < m.len() && same_path_spec(#[trigger] m[k].1, p)
}

/// `base` followed by the environments of `extra` whose path is not yet
/// listed, in order.
pub open spec fn merged_spec(
    base: Seq<(Seq<char>, Seq<char>, Seq<char>)>,
    extra: Seq<(Seq<char>, Seq<char>, Seq<char>)>,
    j: int,
) -> Seq<(Seq<char>, Seq<char>, Seq<char>)>
    decreases j,
{
    if j <= 0 {
        base
    } else {
        let m = merged_spec(base, extra, j - 1);
        if path_listed(m, extra[j - 1].1) {
            m
        } else {
            m.push(extra[j - 1])
        }
    }
}

pub open spec fn views(v: Seq<SelectableVenv>) -> Seq<(Seq<char>, Seq<char>, Seq<char>)> {
    v.map_values(|e: SelectableVenv| venv_view(e))
}

fn path_listed_in(out: &Vec<SelectableVenv>, p: &str) -> (res: bool)
    ensures
        res == path_listed(views(out@), p@),
{
    let mut k: usize = 0;
    while k < out.len()
        invariant
            k <= out.len(),
            forall|j: int| 0 <= j < k ==> !same_path_spec(#[trigger] views(out@)[j].1, p@),
        decreases out.len() - k,
    {
        if same_path(out[k].path.as_str(), p) {
            assert(same_path_spec(views(out@)[k as int].1, p@));
            return true;
        }
        k = k + 1;
    }
    false
}

/// Appends to `base` the environments of `extra` whose path (compared as
/// `PathBuf`s) is not listed yet.
pub fn merge_environments(base: Vec<SelectableVenv>, extra: Vec<SelectableVenv>) -> (res: Vec<
    SelectableVenv,
>)
    ensures
        views(res@) == merged_spec(views(base@), views(extra@), extra@.len() as int),
{
    let mut out = base;
    let mut j: usize = 0;
    while j < extra.len()
        invariant
            j <= extra.len(),
            views(out@) == merged_spec(views(base@), views(extra@), j as int),
        decreases extra.len() - j,
    {
        let e = &extra[j];
        if !path_listed_in(&out, e.path.as_str()) {
            let ghost before = out@;
            out.push(copy_venv(e));
            assert(views(out@) =~= views(before).push(views(extra@)[j as int]));
        }
        j = j + 1;
    }
    out
}

pub open spec fn canon_view(c: Option<String>) -> Option<Seq<char>> {
    match c {
        Some(s) => Some(s@),
        None => None,
    }
}

pub open spec fn duplicate_of_kept(
    kept: Seq<((Seq<char>, Seq<char>, Seq<char>), Option<Seq<char>>)>,
    p: Seq<char>,
    home: Option<Seq<char>>,
    canon: Option<Seq<char>>,
) -> bool {
    exists|k: int|
        0 <= k < kept.len() && same_venv_spec(#[trigger] kept[k].0.1, p, home, kept[k].1, canon)
}

/// The normalized environments kept from the first `i`, each with its
/// canonical path: those that normalize, without a second one for the same
/// environment.
pub open spec fn kept_spec(
    envs: Seq<(Seq<char>, Seq<char>, Seq<char>)>,
    probes: Seq<EnvProbe>,
    home: Option<Seq<char>>,
    i: int,
) -> Seq<((Seq<char>, Seq<char>, Seq<char>), Option<Seq<char>>)>
    decreases i,
{
    if i <= 0 {
        Seq::empty()
    } else {
        let prev = kept_spec(envs, probes, home, i - 1);
        let canon = canon_view(probes[i - 1].canonical);
        match normalize_spec(envs[i - 1], home, probes[i - 1]) {
            Ok(n) => if duplicate_of_kept(prev, n.1, home, canon) {
                prev
            } else {
                prev.push((n, canon))
            },
            Err(_) => prev,
        }
    }
}

pub open spec fn filtered_spec(
    envs: Seq<(Seq<char>, Seq<char>, Seq<char>)>,
    probes: Seq<EnvProbe>,
    home: Option<Seq<char>>,
) -> Seq<(Seq<char>, Seq<char>, Seq<char>)> {
    kept_spec(envs, probes, home, envs.len() as int).map_values(
        |x: ((Seq<char>, Seq<char>, Seq<char>), Option<Seq<char>>)| x.0,
    )
}

fn option_str(o: &Option<String>) -> (res: Option<&str>)
    ensures
        opt_view(res) == canon_view(*o),
{
    match o {
        Some(s) => Some(s.as_str()),
        None => None,
    }
}

fn duplicate_in(
    out: &Vec<SelectableVenv>,
    canons: &Vec<Option<String>>,
    p: &str,
    home: Option<&str>,
    canon: Option<&str>,
    kept: Ghost<Seq<((Seq<char>, Seq<char>, Seq<char>), Option<Seq<char>>)>>,
) -> (res: bool)
    requires
        out@.len() == kept@.len(),
        canons@.len() == kept@.len(),
        forall|k: int| 0 <= k < kept@.len() ==> venv_view(#[trigger] out@[k]) == kept@[k].0,
        forall|k: int| 0 <= k < kept@.len() ==> canon_view(#[trigger] canons@[k]) == kept@[k].1,
    ensures
        res == duplicate_of_kept(kept@, p@, home_view(home), opt_view(canon)),
{
    let mut k: usize = 0;
    while k < out.len()
        invariant
            k <= out.len(),
            out@.len() == kept@.len(),
            canons@.len() == kept@.len(),
            forall|j: int| 0 <= j < kept@.len() ==> venv_view(#[trigger] out@[j]) == kept@[j].0,
            forall|j: int| 0 <= j < kept@.len() ==> canon_view(#[trigger] canons@[j]) == kept@[j].1,
            forall|j: int|
                0 <= j < k ==> !same_venv_spec(
                    #[trigger] kept@[j].0.1,
                    p@,
                    home_view(home),
                    kept@[j].1,
                    opt_view(canon),
                ),
        decreases out.len() - k,
    {
        assert(venv_view(out@[k as int]) == kept@[k as int].0);
        assert(canon_view(canons@[k as int]) == kept@[k as int].1);
        if same_venv_path(out[k].path.as_str(), p, home, option_str(&canons[k]), canon) {
            assert(same_venv_spec(kept@[k as int].0.1, p@, home_view(home), kept@[k as int].1, opt_view(canon)));
            return true;
        }
        k = k + 1;
    }
    false
}

/// Keeps the environments that can be activated, normalized, dropping a
/// second one for the same environment. `probes[i]` describes `envs[i]`.
pub fn filter_activatable_environments(
    envs: Vec<SelectableVenv>,
    probes: &Vec<EnvProbe>,
    home: Option<&str>,
) -> (res: Vec<SelectableVenv>)
    requires
        probes@.len() == envs@.len(),
    ensures
        views(res@) == filtered_spec(views(envs@), probes@, home_view(home)),
{
    let ghost ev = views(envs@);
    let mut out: Vec<SelectableVenv> = Vec::new();
    let mut canons: Vec<Option<String>> = Vec::new();
    let mut i: usize = 0;
    while i < envs.len()
        invariant
            i <= envs.len(),
            probes@.len() == envs@.len(),
            ev == views(envs@),
            out@.len() == kept_spec(ev, probes@, home_view(home), i as int).len(),
            canons@.len() == out@.len(),
            forall|k: int|
                0 <= k < out@.len() ==> venv_view(#[trigger] out@[k]) == kept_spec(
                    ev,
                    probes@,
                    home_view(home),
                    i as int,
                )[k].0,
            forall|k: int|
                0 <= k < out@.len() ==> canon_view(#[trigger] canons@[k]) == kept_spec(
                    ev,
                    probes@,
                    home_view(home),
                    i as int,
                )[k].1,
        decreases envs.len() - i,
    {
        let ghost prev = kept_spec(ev, probes@, home_view(home), i as int);
        let probe = &probes[i];
        assert(ev[i as int] == venv_view(envs@[i as int]));
        match normalize_selectable_venv(copy_venv(&envs[i]), home, probe) {
            Ok(n) => {
                let canon = option_str(&probe.canonical);
                if !duplicate_in(&out, &canons, n.path.as_str(), home, canon, Ghost(prev)) {
                    out.push(n);
                    canons.push(probe.canonical.clone());
                }
            },
            Err(_) => {},
        }
        i = i + 1;
    }
    assert(views(out@) =~= filtered_spec(ev, probes@, home_view(home)));
    out
}

/// All environments: the saved ones followed by the newly detected ones not
/// saved yet, filtered; with nothing saved, the detected ones as they are.
/// `probes[i]` describes the `i`-th merged environment.
pub fn get_all_available_venvs(
    saved: Option<VenvCollection>,
    detected: Vec<SelectableVenv>,
    probes: &Vec<EnvProbe>,
    home: Option<&str>,
) -> (res: Vec<SelectableVenv>)
    requires
        saved matches Some(s) ==> probes@.len() == merged_spec(
            views(s.environments@),
            views(detected@),
            detected@.len() as int,
        ).len(),
    ensures
        views(res@) == match saved {
            Some(s) => filtered_spec(
                merged_spec(views(s.environments@), views(detected@), detected@.len() as int),
                probes@,
                home_view(home),
            ),
            None => views(detected@),
        },
{
    match saved {
        Some(s) => {
            let merged = merge_environments(s.environments, detected);
            filter_activatable_environments(merged, probes, home)
        },
        None => detected,
    }
}

/// The path of the environment active in a session: none unless the
/// session's `venv_active` marker exists, then the saved selection's path
/// with `~/` expanded.
pub fn active_venv_path(marker_exists: bool, selection: &Option<SelectableVenv>, home: Option<&str>) -> (res:
    Option<String>)
    ensures
        match res {
            Some(p) => marker_exists && (selection matches Some(s) && p@ == expand_tilde_spec(
                s.path@,
                home_view(home),
            )),
            None => !marker_exists || selection is None,
        },
{
    if !marker_exists {
        return None;
    }
    match selection {
        Some(s) => Some(expand_tilde(s.path.as_str(), home)),
        None => None,
    }
}

// ---------------------------------------------------------------------------
// Configured environments and selector handoff
// ---------------------------------------------------------------------------

/// The environment named in the configuration, if any: its path with `~/`
/// expanded, its type (detected when the configuration says `auto`;
/// `parent_pyproject` is the `pyproject.toml` next to that path) and the
/// name `Configured: <path>`.
pub fn configured_venv_entry(config: &VenvConfig, home: Option<&str>, parent_pyproject: &FileState) -> (res:
    Result<Option<SelectableVenv>, VenvError>)
    ensures
        match config.path {
            None => res matches Ok(None),
            Some(p) => {
                let resolved = expand_tilde_spec(p@, home_view(home));
                let t = if config.venv_type@ == "auto"@ {
                    venv_type_spec(resolved, *parent_pyproject)
                } else {
                    Ok(config.venv_type@)
                };
                match t {
                    Ok(t) => res matches Ok(Some(v)) && venv_view(v) == (
                        "Configured: "@ + resolved,
                        resolved,
                        t,
                    ),
                    Err(e) => res matches Err(x) && err_view(x) == e,
                }
            },
        },
{
    match &config.path {
        None => Ok(None),
        Some(p) => {
            let resolved = expand_tilde(p.as_str(), home);
            let t = if str_eq(config.venv_type.as_str(), "auto") {
                match detect_venv_type(resolved.as_str(), parent_pyproject) {
                    Ok(t) => t,
                    Err(e) => {
                        return Err(e);
                    },
                }
            } else {
                config.venv_type.clone()
            };
            let mut name = string_of("Configured: ");
            push_str(&mut name, resolved.as_str());
            Ok(Some(SelectableVenv { name, path: resolved, venv_type: t }))
        },
    }
}

/// Which type and path the activation commands are generated for: the
/// configured path, else (with auto-detection on) the environment detected
/// in the project, else the configured type alone. The configured type wins
/// over a detected one unless it is `auto`.
pub fn venv_command_target(
    config: &VenvConfig,
    home: Option<&str>,
    parent_pyproject: &FileState,
    detected: Option<DetectedVenv>,
) -> (res: Result<(String, Option<String>), VenvError>)
    ensures
        match config.path {
            Some(p) => {
                let resolved = expand_tilde_spec(p@, home_view(home));
                let t = if config.venv_type@ == "auto"@ {
                    venv_type_spec(resolved, *parent_pyproject)
                } else {
                    Ok(config.venv_type@)
                };
                match t {
                    Ok(t) => res matches Ok((rt, Some(rp))) && rt@ == t && rp@ == resolved,
                    Err(e) => res matches Err(x) && err_view(x) == e,
                }
            },
            None => match detected {
                Some(d) if config.auto_detection => res matches Ok((rt, Some(rp))) && rp@ == d.path@
                    && rt@ == (if config.venv_type@ == "auto"@ {
                    d.venv_type@
                } else {
                    config.venv_type@
                }),
                _ => res matches Ok((rt, None)) && rt@ == config.venv_type@,
            },
        },
{
    match &config.path {
        Some(p) => {
            let resolved = expand_tilde(p.as_str(), home);
            let t = if str_eq(config.venv_type.as_str(), "auto") {
                match detect_venv_type(resolved.as_str(), parent_pyproject) {
                    Ok(t) => t,
                    Err(e) => {
                        return Err(e);
                    },
                }
            } else {
                config.venv_type.clone()
            };
            Ok((t, Some(resolved)))
        },
        None => {
            if config.auto_detection {
                match detected {
                    Some(d) => {
                        let t = if str_eq(config.venv_type.as_str(), "auto") {
                            d.venv_type
                        } else {
                            config.venv_type.clone()
                        };
                        return Ok((t, Some(d.path)));
                    },
                    None => {},
                }
            }
            Ok((config.venv_type.clone(), None))
        },
    }
}

/// The path typed into the selector, trimmed; an empty one is refused.
pub fn custom_path_line(line: &str) -> (res: Result<String, VenvError>)
    ensures
        match res {
            Ok(p) => p@ == trim(line@) && trim(line@).len() > 0,
            Err(e) => trim(line@).len() == 0 && err_view(e) == (VenvErrorKind::EmptyCustomPath, ""@),
        },
{
    let cs = chars_of(line);
    let t = trim_chars(cs.as_slice());
    if t.len() == 0 {
        return Err(venv_error(VenvErrorKind::EmptyCustomPath, ""));
    }
    Ok(string_from_chars(&t))
}

// ---------------------------------------------------------------------------
// Laws
// ---------------------------------------------------------------------------

/// No two environments kept by the filter are the same environment.
pub proof fn lemma_kept_distinct(
    envs: Seq<(Seq<char>, Seq<char>, Seq<char>)>,
    probes: Seq<EnvProbe>,
    home: Option<Seq<char>>,
    i: int,
)
    ensures
        forall|a: int, b: int|
            0 <= a < b < kept_spec(envs, probes, home, i).len() ==> !same_venv_spec(
                #[trigger] kept_spec(envs, probes, home, i)[a].0.1,
                #[trigger] kept_spec(envs, probes, home, i)[b].0.1,
                home,
                kept_spec(envs, probes, home, i)[a].1,
                kept_spec(envs, probes, home, i)[b].1,
            ),
    decreases i,
{
    if i > 0 {
        lemma_kept_distinct(envs, probes, home, i - 1);
        let prev = kept_spec(envs, probes, home, i - 1);
        let cur = kept_spec(envs, probes, home, i);
        assert forall|a: int, b: int| 0 <= a < b < cur.len() implies !same_venv_spec(
            #[trigger] cur[a].0.1,
            #[trigger] cur[b].0.1,
            home,
            cur[a].1,
            cur[b].1,
        ) by {
            if cur.len() > prev.len() && b == prev.len() {
                assert(cur[a] == prev[a]);
                assert(!same_venv_spec(prev[a].0.1, cur[b].0.1, home, prev[a].1, cur[b].1));
            } else if cur.len() > prev.len() {
                assert(cur[a] == prev[a] && cur[b] == prev[b]);
            }
        }
    }
}

/// The environments the filter returns are pairwise distinct environments.
pub proof fn lemma_filtered_distinct(
    envs: Seq<(Seq<char>, Seq<char>, Seq<char>)>,
    probes: Seq<EnvProbe>,
    home: Option<Seq<char>>,
)
    ensures
        forall|a: int, b: int|
            0 <= a < b < filtered_spec(envs, probes, home).len() ==> !same_venv_spec(
                #[trigger] filtered_spec(envs, probes, home)[a].1,
                #[trigger] filtered_spec(envs, probes, home)[b].1,
                home,
                kept_spec(envs, probes, home, envs.len() as int)[a].1,
                kept_spec(envs, probes, home, envs.len() as int)[b].1,
            ),
{
    lemma_kept_distinct(envs, probes, home, envs.len() as int);
    let k = kept_spec(envs, probes, home, envs.len() as int);
    assert forall|a: int, b: int| 0 <= a < b < filtered_spec(envs, probes, home).len() implies !same_venv_spec(
        #[trigger] filtered_spec(envs, probes, home)[a].1,
        #[trigger] filtered_spec(envs, probes, home)[b].1,
        home,
        k[a].1,
        k[b].1,
    ) by {
        assert(filtered_spec(envs, probes, home)[a] == k[a].0);
        assert(filtered_spec(envs, probes, home)[b] == k[b].0);
        assert(!same_venv_spec(k[a].0.1, k[b].0.1, home, k[a].1, k[b].1));
    }
}

/// Merging keeps the base list in front and leaves every path of the extra
/// list listed.
pub proof fn lemma_merge_covers(
    base: Seq<(Seq<char>, Seq<char>, Seq<char>)>,
    extra: Seq<(Seq<char>, Seq<char>, Seq<char>)>,
    j: int,
)
    requires
        0 <= j <= extra.len(),
    ensures
        merged_spec(base, extra, j).len() >= base.len(),
        forall|k: int| 0 <= k < base.len() ==> #[trigger] merged_spec(base, extra, j)[k] == base[k],
        forall|k: int| 0 <= k < j ==> path_listed(merged_spec(base, extra, j), #[trigger] extra[k].1),
    decreases j,
{
    if j > 0 {
        lemma_merge_covers(base, extra, j - 1);
        let m = merged_spec(base, extra, j - 1);
        let cur = merged_spec(base, extra, j);
        assert forall|k: int| 0 <= k < j implies path_listed(cur, #[trigger] extra[k].1) by {
            if k < j - 1 {
                let w = choose|w: int| 0 <= w < m.len() && same_path_spec(#[trigger] m[w].1, extra[k].1);
                assert(cur[w] == m[w]);
            } else if !path_listed(m, extra[k].1) {
                assert(cur[m.len() as int] == extra[k]);
                assert(same_path_spec(cur[m.len() as int].1, extra[k].1));
            } else {
                let w = choose|w: int| 0 <= w < m.len() && same_path_spec(#[trigger] m[w].1, extra[k].1);
                assert(cur[w] == m[w]);
            }
        }
    }
}

} // verus!
