//! Unix paths held as text: joining, components and file names.

use crate::text::{chars_of, push_char, push_str, seq_eq, string_from_chars, string_of};
use vstd::prelude::*;

verus! {

/// `PathBuf::join` on Unix: an absolute component replaces the base;
/// otherwise a separator is inserted unless the base is empty or already
/// ends with one.
pub open spec fn path_join(base: Seq<char>, c: Seq<char>) -> Seq<char> {
    if c.len() > 0 && c[0] == '/' {
        c
    } else if base.len() == 0 || base.last() == '/' {
        base + c
    } else {
        base + seq!['/'] + c
    }
}

pub fn join_path(base: &str, c: &str) -> (res: String)
    ensures
        res@ == path_join(base@, c@),
{
    let cs = chars_of(c);
    let bs = chars_of(base);
    if cs.len() > 0 && cs[0] == '/' {
        return string_of(c);
    }
    let mut out = string_of(base);
    if !(bs.len() == 0 || bs[bs.len() - 1] == '/') {
        push_char(&mut out, '/');
    }
    push_str(&mut out, c);
    out
}

pub open spec fn is_absolute(p: Seq<char>) -> bool {
    p.len() > 0 && p[0] == '/'
}

/// A piece between separators that names something: neither empty nor `.`.
pub open spec fn keep_part(p: Seq<char>) -> bool {
    p.len() > 0 && p != seq!['.']
}

pub open spec fn parts_scan(s: Seq<char>, i: int) -> (Seq<Seq<char>>, Seq<char>)
    decreases i,
{
    if i <= 0 {
        (Seq::empty(), Seq::empty())
    } else {
        let (done, cur) = parts_scan(s, i - 1);
        if s[i - 1] == '/' {
            if keep_part(cur) {
                (done.push(cur), Seq::empty())
            } else {
                (done, Seq::empty())
            }
        } else {
            (done, cur.push(s[i - 1]))
        }
    }
}

/// The components of a path after the root, as `Path::components` yields
/// them: separators collapse and `.` components vanish.
pub open spec fn path_parts(s: Seq<char>) -> Seq<Seq<char>> {
    let (done, cur) = parts_scan(s, s.len() as int);
    if keep_part(cur) {
        done.push(cur)
    } else {
        done
    }
}

pub open spec fn dot_dot() -> Seq<char> {
    seq!['.', '.']
}

/// `Path::file_name`: the last component unless it is `..`.
pub open spec fn file_name_of(s: Seq<char>) -> Option<Seq<char>> {
    let ps = path_parts(s);
    if ps.len() > 0 && ps.last() != dot_dot() {
        Some(ps.last())
    } else {
        None
    }
}

/// `Path::parent` followed by `Path::file_name`.
pub open spec fn parent_file_name_of(s: Seq<char>) -> Option<Seq<char>> {
    let ps = path_parts(s);
    if ps.len() >= 2 && ps[ps.len() - 2] != dot_dot() {
        Some(ps[ps.len() - 2])
    } else {
        None
    }
}

fn is_dot(p: &Vec<char>) -> (res: bool)
    ensures
        res == (p@ == seq!['.']),
{
    if p.len() == 1 && p[0] == '.' {
        assert(p@ =~= seq!['.']);
        true
    } else {
        false
    }
}

fn is_dot_dot(p: &Vec<char>) -> (res: bool)
    ensures
        res == (p@ == dot_dot()),
{
    if p.len() == 2 && p[0] == '.' && p[1] == '.' {
        assert(p@ =~= dot_dot());
        true
    } else {
        false
    }
}

/// The components of the path `s`.
pub fn path_components(s: &str) -> (res: Vec<Vec<char>>)
    ensures
        res@.len() == path_parts(s@).len(),
        forall|k: int| 0 <= k < res@.len() ==> (#[trigger] res@[k])@ == path_parts(s@)[k],
{
    let cs = chars_of(s);
    let mut done: Vec<Vec<char>> = Vec::new();
    let mut cur: Vec<char> = Vec::new();
    let mut i: usize = 0;
    while i < cs.len()
        invariant
            i <= cs.len(),
            cs@ == s@,
            done@.len() == parts_scan(s@, i as int).0.len(),
            forall|k: int|
                0 <= k < done@.len() ==> (#[trigger] done@[k])@ == parts_scan(s@, i as int).0[k],
            cur@ == parts_scan(s@, i as int).1,
        decreases cs.len() - i,
    {
        let c = cs[i];
        if c == '/' {
            if cur.len() > 0 && !is_dot(&cur) {
                let finished = cur;
                done.push(finished);
            }
            cur = Vec::new();
        } else {
            cur.push(c);
        }
        i = i + 1;
    }
    if cur.len() > 0 && !is_dot(&cur) {
        done.push(cur);
    }
    done
}

/// `Path::file_name`.
pub fn file_name(s: &str) -> (res: Option<String>)
    ensures
        res matches Some(n) ==> file_name_of(s@) == Some(n@),
        res is None ==> file_name_of(s@) is None,
{
    let ps = path_components(s);
    let n = ps.len();
    if n > 0 && !is_dot_dot(&ps[n - 1]) {
        Some(string_from_chars(&ps[n - 1]))
    } else {
        None
    }
}

/// The file name of `Path::parent`.
pub fn parent_file_name(s: &str) -> (res: Option<String>)
    ensures
        res matches Some(n) ==> parent_file_name_of(s@) == Some(n@),
        res is None ==> parent_file_name_of(s@) is None,
{
    let ps = path_components(s);
    let n = ps.len();
    if n >= 2 && !is_dot_dot(&ps[n - 2]) {
        Some(string_from_chars(&ps[n - 2]))
    } else {
        None
    }
}

/// Whether a relative path starts with a `.` component, which
/// `Path::components` keeps in front.
pub open spec fn leading_cur_dir(s: Seq<char>) -> bool {
    s.len() > 0 && s[0] == '.' && (s.len() == 1 || s[1] == '/')
}

/// `Path == Path`: the same root, the same leading `.` and the same
/// components.
pub open spec fn same_path_spec(a: Seq<char>, b: Seq<char>) -> bool {
    &&& is_absolute(a) == is_absolute(b)
    &&& leading_cur_dir(a) == leading_cur_dir(b)
    &&& path_parts(a) == path_parts(b)
}

fn leading_cur_dir_of(cs: &Vec<char>) -> (res: bool)
    ensures
        res == leading_cur_dir(cs@),
{
    cs.len() > 0 && cs[0] == '.' && (cs.len() == 1 || cs[1] == '/')
}

/// Path equality as `PathBuf` compares paths.
pub fn same_path(a: &str, b: &str) -> (res: bool)
    ensures
        res == same_path_spec(a@, b@),
{
    let ac = chars_of(a);
    let bc = chars_of(b);
    let a_abs = ac.len() > 0 && ac[0] == '/';
    let b_abs = bc.len() > 0 && bc[0] == '/';
    if a_abs != b_abs {
        return false;
    }
    if leading_cur_dir_of(&ac) != leading_cur_dir_of(&bc) {
        return false;
    }
    let ap = path_components(a);
    let bp = path_components(b);
    if ap.len() != bp.len() {
        return false;
    }
    let mut i: usize = 0;
    while i < ap.len()
        invariant
            i <= ap.len(),
            ap.len() == bp.len(),
            ap@.len() == path_parts(a@).len(),
            bp@.len() == path_parts(b@).len(),
            forall|k: int| 0 <= k < ap@.len() ==> (#[trigger] ap@[k])@ == path_parts(a@)[k],
            forall|k: int| 0 <= k < bp@.len() ==> (#[trigger] bp@[k])@ == path_parts(b@)[k],
            forall|k: int| 0 <= k < i ==> path_parts(a@)[k] == path_parts(b@)[k],
        decreases ap.len() - i,
    {
        if !seq_eq(&ap[i], &bp[i]) {
            assert(ap@[i as int]@ != bp@[i as int]@);
            return false;
        }
        i = i + 1;
    }
    assert(path_parts(a@) =~= path_parts(b@));
    true
}

} // verus!
