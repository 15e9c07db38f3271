//! Reading `zellij list-sessions --no-formatting`.

use crate::text::{
    chars_of, contains_chars, contains_text, has_prefix, lines, matches_at, seq_eq, slice_chars, split_lines, string_from_chars,
    string_of, trim, trim_chars,
};
use vstd::prelude::*;

verus! {

#[derive(Debug, Clone, Copy, PartialEq, Eq, Structural)]
pub enum SessionStatus {
    NotFound,
    Active,
    Exited,
}

/// The Zellij executable that sessions are created and attached with.
pub struct ZellijClient {
    pub path: String,
}

impl ZellijClient {
    pub fn new(path: String) -> (res: Self)
        ensures
            res.path == path,
    {
        ZellijClient { path }
    }
}

pub open spec fn is_name_end(c: char) -> bool {
    c == ' ' || c == '['
}

/// Index of the first space or `[`.
pub open spec fn name_end(t: Seq<char>) -> Option<int>
    decreases t.len(),
{
    if t.len() == 0 {
        None
    } else if is_name_end(t[0]) {
        Some(0)
    } else {
        match name_end(t.drop_first()) {
            Some(i) => Some(i + 1),
            None => None,
        }
    }
}


/// One listing line: the session name (up to the first space or `[`) and
/// whether Zellij marks it `(EXITED`. Blank lines and the "no sessions"
/// message carry no session.
pub open spec fn parse_session_line_spec(line: Seq<char>) -> Option<(Seq<char>, SessionStatus)> {
    let t = trim(line);
    if t.len() == 0 || has_prefix(t, "No active zellij sessions"@) {
        None
    } else {
        match name_end(t) {
            None => None,
            Some(b) => Some(
                (
                    t.take(b),
                    if contains_text(t, "(EXITED"@) {
                        SessionStatus::Exited
                    } else {
                        SessionStatus::Active
                    },
                ),
            ),
        }
    }
}

fn find_name_end(t: &[char]) -> (res: Option<usize>)
    ensures
        match res {
            Some(i) => name_end(t@) == Some(i as int) && i < t.len(),
            None => name_end(t@) is None,
        },
{
    let mut i: usize = 0;
    assert(t@.skip(0) =~= t@);
    while i < t.len()
        invariant
            i <= t.len(),
            name_end(t@) == match name_end(t@.skip(i as int)) {
                Some(k) => Some(k + i),
                None => None,
            },
        decreases t.len() - i,
    {
        if t[i] == ' ' || t[i] == '[' {
            return Some(i);
        }
        assert(t@.skip(i as int).drop_first() =~= t@.skip(i + 1));
        i = i + 1;
    }
    None
}

/// Parses one `zellij list-sessions --no-formatting` line.
pub fn parse_session_line(line: &str) -> (res: Option<(String, SessionStatus)>)
    ensures
        match res {
            Some((name, status)) => parse_session_line_spec(line@) == Some((name@, status)),
            None => parse_session_line_spec(line@) is None,
        },
{
    let raw = chars_of(line);
    let t = trim_chars(&raw);
    let none_msg = chars_of("No active zellij sessions");
    if t.len() == 0 || matches_at(&t, 0, &none_msg) {
        assert(t@.skip(0) =~= t@);
        return None;
    }
    assert(t@.skip(0) =~= t@);
    match find_name_end(&t) {
        None => None,
        Some(b) => {
            let name = string_from_chars(&slice_chars(&t, 0, b));
            assert(t@.subrange(0, b as int) =~= t@.take(b as int));
            let exited = chars_of("(EXITED");
            let status = if contains_chars(&t, &exited) {
                SessionStatus::Exited
            } else {
                SessionStatus::Active
            };
            Some((name, status))
        },
    }
}

/// Status of the first listed session called `name`.
pub open spec fn status_in(ls: Seq<Seq<char>>, name: Seq<char>) -> SessionStatus
    decreases ls.len(),
{
    if ls.len() == 0 {
        SessionStatus::NotFound
    } else {
        match parse_session_line_spec(ls[0]) {
            Some((n, st)) => if n == name {
                st
            } else {
                status_in(ls.drop_first(), name)
            },
            None => status_in(ls.drop_first(), name),
        }
    }
}

/// A session is found only under its exact name: a status other than
/// `NotFound` is that of a listed line whose session name is exactly `name`,
/// and the first such line decides it; when no line names exactly `name`,
/// the session is not found.
pub proof fn lemma_status_by_exact_name(ls: Seq<Seq<char>>, name: Seq<char>)
    ensures
        status_in(ls, name) != SessionStatus::NotFound ==> exists|k: int|
            0 <= k < ls.len() && #[trigger] parse_session_line_spec(ls[k]) == Some(
                (name, status_in(ls, name)),
            ) && forall|j: int|
                0 <= j < k ==> !(parse_session_line_spec(#[trigger] ls[j]) matches Some((n, _))
                    && n == name),
        (forall|k: int|
            0 <= k < ls.len() ==> !(parse_session_line_spec(#[trigger] ls[k]) matches Some((n, _))
                && n == name)) ==> status_in(ls, name) == SessionStatus::NotFound,
    decreases ls.len(),
{
    if ls.len() > 0 {
        let rest = ls.drop_first();
        lemma_status_by_exact_name(rest, name);
        assert forall|k: int| 0 <= k < rest.len() implies #[trigger] rest[k] == ls[k + 1] by {}
        match parse_session_line_spec(ls[0]) {
            Some((n, st)) => {
                if n != name && status_in(ls, name) != SessionStatus::NotFound {
                    let k = choose|k: int|
                        0 <= k < rest.len() && #[trigger] parse_session_line_spec(rest[k]) == Some(
                            (name, status_in(rest, name)),
                        ) && forall|j: int|
                            0 <= j < k ==> !(parse_session_line_spec(#[trigger] rest[j]) matches Some(
                                (n, _),
                            ) && n == name);
                    assert(parse_session_line_spec(ls[k + 1]) == Some((name, status_in(ls, name))));
                    assert forall|j: int| 0 <= j < k + 1 implies !(parse_session_line_spec(
                        #[trigger] ls[j],
                    ) matches Some((n2, _)) && n2 == name) by {
                        if j > 0 {
                            assert(ls[j] == rest[j - 1]);
                        }
                    }
                }
                if (forall|k: int|
                    0 <= k < ls.len() ==> !(parse_session_line_spec(#[trigger] ls[k]) matches Some(
                        (n2, _),
                    ) && n2 == name)) {
                    assert forall|k: int| 0 <= k < rest.len() implies !(parse_session_line_spec(
                        #[trigger] rest[k],
                    ) matches Some((n2, _)) && n2 == name) by {
                        assert(rest[k] == ls[k + 1]);
                    }
                }
            },
            None => {
                if status_in(ls, name) != SessionStatus::NotFound {
                    let k = choose|k: int|
                        0 <= k < rest.len() && #[trigger] parse_session_line_spec(rest[k]) == Some(
                            (name, status_in(rest, name)),
                        ) && forall|j: int|
                            0 <= j < k ==> !(parse_session_line_spec(#[trigger] rest[j]) matches Some(
                                (n, _),
                            ) && n == name);
                    assert(parse_session_line_spec(ls[k + 1]) == Some((name, status_in(ls, name))));
                    assert forall|j: int| 0 <= j < k + 1 implies !(parse_session_line_spec(
                        #[trigger] ls[j],
                    ) matches Some((n2, _)) && n2 == name) by {
                        if j > 0 {
                            assert(ls[j] == rest[j - 1]);
                        }
                    }
                }
                if (forall|k: int|
                    0 <= k < ls.len() ==> !(parse_session_line_spec(#[trigger] ls[k]) matches Some(
                        (n2, _),
                    ) && n2 == name)) {
                    assert forall|k: int| 0 <= k < rest.len() implies !(parse_session_line_spec(
                        #[trigger] rest[k],
                    ) matches Some((n2, _)) && n2 == name) by {
                        assert(rest[k] == ls[k + 1]);
                    }
                }
            },
        }
    }
}

/// The status of session `name` in the output of `zellij list-sessions
/// --no-formatting` (Zellij exits non-zero when there are no sessions, so
/// only the output matters).
pub fn session_status_from_listing(listing: &str, name: &str) -> (res: SessionStatus)
    ensures
        res == status_in(lines(listing@), name@),
{
    let all = chars_of(listing);
    let ls = split_lines(&all);
    let want = chars_of(name);
    let ghost lsv = lines(listing@);
    let mut i: usize = 0;
    assert(lsv.skip(0) =~= lsv);
    while i < ls.len()
        invariant
            i <= ls.len(),
            ls@.len() == lsv.len(),
            forall|k: int| 0 <= k < ls@.len() ==> (#[trigger] ls@[k])@ == lsv[k],
            status_in(lsv, name@) == status_in(lsv.skip(i as int), name@),
            want@ == name@,
            lsv == lines(listing@),
        decreases ls.len() - i,
    {
        let line = string_from_chars(&ls[i]);
        let parsed = parse_session_line(line.as_str());
        assert(line@ == lsv[i as int]);
        assert(lsv.skip(i as int).len() > 0);
        assert(lsv.skip(i as int)[0] == lsv[i as int]);
        assert(lsv.skip(i as int).drop_first() =~= lsv.skip(i + 1));
        match parsed {
            Some((n, st)) => {
                let nc = chars_of(n.as_str());
                if seq_eq(&nc, &want) {
                    assert(status_in(lsv.skip(i as int), name@) == st);
                    return st;
                }
            },
            None => {},
        }
        i = i + 1;
    }
    SessionStatus::NotFound
}

} // verus!
