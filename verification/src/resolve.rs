//! Turning a configured tool name into an executable path. Zellij panes do
//! not load shell aliases, so a bare name like `hx` is resolved before it is
//! written into a layout or key binding. The lookups themselves (`PATH`, the
//! login shell, the file system) are made by the caller.

use crate::paths::{dot_dot, is_absolute, path_components, path_parts};
use crate::text::{
    chars_of, contains_text, is_ascii_alnum, is_ascii_alphanumeric, lines, push_str, split_lines,
    string_from_chars, string_of, trim, trim_chars,
};
use vstd::prelude::*;

verus! {

/// Snap apps are symlinks under `/snap/bin/` to `/usr/bin/snap`; resolving
/// them would lose the app's identity.
pub open spec fn snap_wrapper_spec(p: Seq<char>) -> bool {
    let ps = path_parts(p);
    is_absolute(p) && ps.len() >= 2 && ps[0] == "snap"@ && ps[1] == "bin"@
}

/// Whether the path lies under `/snap/bin` (compared by components, as
/// `Path::starts_with` does).
pub fn is_snap_wrapper(path: &str) -> (res: bool)
    ensures
        res == snap_wrapper_spec(path@),
{
    proof {
        reveal_strlit("snap");
        reveal_strlit("bin");
    }
    let cs = chars_of(path);
    if !(cs.len() > 0 && cs[0] == '/') {
        return false;
    }
    let ps = path_components(path);
    if ps.len() < 2 {
        return false;
    }
    let a = &ps[0];
    let b = &ps[1];
    let first = a.len() == 4 && a[0] == 's' && a[1] == 'n' && a[2] == 'a' && a[3] == 'p';
    let second = b.len() == 3 && b[0] == 'b' && b[1] == 'i' && b[2] == 'n';
    assert(first == (a@ == "snap"@)) by {
        if first {
            assert(a@ =~= "snap"@);
        }
    }
    assert(second == (b@ == "bin"@)) by {
        if second {
            assert(b@ =~= "bin"@);
        }
    }
    first && second
}

pub open spec fn safe_name_char(c: char) -> bool {
    is_ascii_alnum(c) || c == '-' || c == '_' || c == '.'
}

/// A name that can be handed to the login shell's `command -v`: not empty,
/// ASCII letters, digits, `-`, `_` and `.` only.
pub open spec fn safe_command_spec(s: Seq<char>) -> bool {
    s.len() > 0 && forall|i: int| 0 <= i < s.len() ==> safe_name_char(#[trigger] s[i])
}

pub fn is_safe_command_name(command: &str) -> (res: bool)
    ensures
        res == safe_command_spec(command@),
{
    let cs = chars_of(command);
    if cs.len() == 0 {
        return false;
    }
    let mut i: usize = 0;
    while i < cs.len()
        invariant
            i <= cs.len(),
            cs@ == command@,
            forall|j: int| 0 <= j < i ==> safe_name_char(#[trigger] command@[j]),
        decreases cs.len() - i,
    {
        let c = cs[i];
        if !(is_ascii_alphanumeric(c) || c == '-' || c == '_' || c == '.') {
            assert(!safe_name_char(command@[i as int]));
            return false;
        }
        i = i + 1;
    }
    true
}

/// A relative path, or one with a `..` component, is canonicalized; any
/// other is used as it is.
pub open spec fn needs_canonicalize_spec(p: Seq<char>) -> bool {
    !is_absolute(p) || path_parts(p).contains(dot_dot())
}

pub fn needs_canonicalize(path: &str) -> (res: bool)
    ensures
        res == needs_canonicalize_spec(path@),
{
    let cs = chars_of(path);
    if !(cs.len() > 0 && cs[0] == '/') {
        return true;
    }
    let ps = path_components(path);
    let mut i: usize = 0;
    while i < ps.len()
        invariant
            i <= ps.len(),
            ps@.len() == path_parts(path@).len(),
            forall|k: int| 0 <= k < ps@.len() ==> (#[trigger] ps@[k])@ == path_parts(path@)[k],
            forall|k: int| 0 <= k < i ==> path_parts(path@)[k] != dot_dot(),
        decreases ps.len() - i,
    {
        let p = &ps[i];
        if p.len() == 2 && p[0] == '.' && p[1] == '.' {
            assert(p@ =~= dot_dot());
            assert(path_parts(path@)[i as int] == dot_dot());
            return true;
        }
        assert(p@ != dot_dot()) by {
            if p@ == dot_dot() {
                assert(p@.len() == 2 && p@[0] == '.' && p@[1] == '.');
            }
        }
        i = i + 1;
    }
    false
}

/// What the file system must show about a path before it is used.
#[derive(Debug, Clone, Copy, PartialEq, Eq, Structural)]
pub enum PathCheck {
    /// It must exist; it is kept as it is.
    Exists,
    /// It is replaced by its canonical form.
    Canonicalize,
}

pub open spec fn path_check_spec(p: Seq<char>) -> PathCheck {
    if snap_wrapper_spec(p) {
        PathCheck::Exists
    } else if needs_canonicalize_spec(p) {
        PathCheck::Canonicalize
    } else {
        PathCheck::Exists
    }
}

pub fn path_check(path: &str) -> (res: PathCheck)
    ensures
        res == path_check_spec(path@),
{
    if is_snap_wrapper(path) {
        PathCheck::Exists
    } else if needs_canonicalize(path) {
        PathCheck::Canonicalize
    } else {
        PathCheck::Exists
    }
}

pub open spec fn missing_message(p: Seq<char>) -> Seq<char> {
    "Cannot find executable '"@ + p + "'"@
}

pub fn missing_executable(path: &str) -> (res: String)
    ensures
        res@ == missing_message(path@),
{
    let mut out = string_of("Cannot find executable '");
    push_str(&mut out, path);
    push_str(&mut out, "'");
    out
}

/// A usable executable location: a snap wrapper or a plain absolute path
/// when it exists, anything else through its canonical form. `exists` and
/// `canonical` are what the file system showed for `path`.
pub fn normalize_executable_path(path: &str, exists: bool, canonical: Option<&str>) -> (res: Result<
    String,
    String,
>)
    ensures
        match path_check_spec(path@) {
            PathCheck::Exists => if exists {
                res matches Ok(p) && p@ == path@
            } else {
                res matches Err(m) && m@ == missing_message(path@)
            },
            PathCheck::Canonicalize => match canonical {
                Some(c) => res matches Ok(p) && p@ == c@,
                None => res matches Err(m) && m@ == missing_message(path@),
            },
        },
{
    match path_check(path) {
        PathCheck::Exists => if exists {
            Ok(string_of(path))
        } else {
            Err(missing_executable(path))
        },
        PathCheck::Canonicalize => match canonical {
            Some(c) => Ok(string_of(c)),
            None => Err(missing_executable(path)),
        },
    }
}

/// A command with a `/` in it (or an absolute one) is a path; any other
/// name is looked up.
pub fn is_path_like(command: &str) -> (res: bool)
    ensures
        res == (is_absolute(command@) || contains_text(command@, seq!['/'])),
{
    let cs = chars_of(command);
    let mut i: usize = 0;
    while i < cs.len()
        invariant
            i <= cs.len(),
            cs@ == command@,
            forall|j: int| 0 <= j < i ==> command@[j] != '/',
        decreases cs.len() - i,
    {
        if cs[i] == '/' {
            assert(command@.skip(i as int).take(1) =~= seq!['/']);
            assert(crate::text::has_prefix(command@.skip(i as int), seq!['/']));
            return true;
        }
        i = i + 1;
    }
    assert(!contains_text(command@, seq!['/'])) by {
        if contains_text(command@, seq!['/']) {
            let k = choose|k: int| 0 <= k <= command@.len() && #[trigger] crate::text::has_prefix(
                command@.skip(k),
                seq!['/'],
            );
            assert(command@.skip(k).take(1)[0] == '/');
            assert(command@[k] == '/');
        }
    }
    false
}

/// The login shell's query for a name, when the name is safe to hand over.
pub fn login_shell_query(command: &str) -> (res: Option<String>)
    ensures
        match res {
            Some(q) => safe_command_spec(command@) && q@ == "command -v "@ + command@,
            None => !safe_command_spec(command@),
        },
{
    if !is_safe_command_name(command) {
        return None;
    }
    let mut q = string_of("command -v ");
    push_str(&mut q, command);
    Some(q)
}

/// The path the login shell printed: its first line, trimmed; nothing when
/// that is empty.
pub open spec fn shell_answer_spec(stdout: Seq<char>) -> Option<Seq<char>> {
    let ls = lines(stdout);
    let first = if ls.len() > 0 {
        trim(ls[0])
    } else {
        Seq::empty()
    };
    if first.len() == 0 {
        None
    } else {
        Some(first)
    }
}

pub fn shell_answer(stdout: &str) -> (res: Option<String>)
    ensures
        match res {
            Some(p) => shell_answer_spec(stdout@) == Some(p@),
            None => shell_answer_spec(stdout@) is None,
        },
{
    let cs = chars_of(stdout);
    let ls = split_lines(cs.as_slice());
    if ls.len() == 0 {
        return None;
    }
    let t = trim_chars(ls[0].as_slice());
    if t.len() == 0 {
        return None;
    }
    Some(string_from_chars(&t))
}

/// The message when a name is found nowhere.
pub fn not_found_message(command: &str) -> (res: String)
    ensures
        res@ == "Cannot find executable '"@ + command@
            + "'. If it is a shell alias, set an absolute path in your sat-hx-ide config."@,
{
    let mut out = string_of("Cannot find executable '");
    push_str(&mut out, command);
    push_str(&mut out, "'. If it is a shell alias, set an absolute path in your sat-hx-ide config.");
    out
}

} // verus!
