//! Where the session daemon listens: socket and PID file paths derived from
//! the project directory (or, failing that, the session name).

use crate::paths::{join_path, path_join};
use crate::text::{chars_of, decimal, has_suffix, push_str, string_from_chars, string_of, u64_to_decimal};
use vstd::prelude::*;
use vstd::string::{StrSliceExecFns, StringSliceAdditionalSpecFns};

verus! {

/// The hash of a byte string: starting from 0, each byte `b` turns `h` into
/// `h * 31 + b`, wrapping at 2^64.
pub open spec fn fold_hash(bytes: Seq<u8>) -> u64
    decreases bytes.len(),
{
    if bytes.len() == 0 {
        0
    } else {
        fold_hash(bytes.drop_last()).wrapping_mul(31).wrapping_add(bytes.last() as u64)
    }
}

/// The hash of a text's UTF-8 bytes.
pub fn text_hash(text: &str) -> (res: u64)
    ensures
        res == fold_hash(text.spec_bytes()),
{
    let bytes = text.as_bytes_vec();
    let mut h: u64 = 0;
    let mut i: usize = 0;
    while i < bytes.len()
        invariant
            i <= bytes.len(),
            bytes@ == text.spec_bytes(),
            h == fold_hash(bytes@.take(i as int)),
        decreases bytes.len() - i,
    {
        assert(bytes@.take(i + 1).drop_last() =~= bytes@.take(i as int));
        h = h.wrapping_mul(31).wrapping_add(bytes[i] as u64);
        i = i + 1;
    }
    assert(bytes@.take(bytes.len() as int) =~= bytes@);
    h
}

pub open spec fn socket_name(hash: u64) -> Seq<char> {
    "sat-hx-ide-"@ + decimal(hash as nat) + ".sock"@
}

fn socket_file_name(hash: u64) -> (res: String)
    ensures
        res@ == socket_name(hash),
{
    let mut out = string_of("sat-hx-ide-");
    let digits = u64_to_decimal(hash);
    push_str(&mut out, digits.as_str());
    push_str(&mut out, ".sock");
    out
}

/// The daemon socket of a project: `sat-hx-ide-<hash>.sock` in the runtime
/// directory, hashed from the project directory's path.
pub fn socket_path(project_dir: &str, runtime_dir: &str) -> (res: String)
    ensures
        res@ == path_join(runtime_dir@, socket_name(fold_hash(project_dir.spec_bytes()))),
{
    let name = socket_file_name(text_hash(project_dir));
    join_path(runtime_dir, name.as_str())
}

/// The socket named after a session instead of a project directory.
pub fn session_socket_path(session_name: &str, runtime_dir: &str) -> (res: String)
    ensures
        res@ == path_join(runtime_dir@, socket_name(fold_hash(session_name.spec_bytes()))),
{
    socket_path(session_name, runtime_dir)
}

/// The socket of the current session: that of the working directory when it
/// is known, else that of the session name (`default` when unset).
pub fn current_socket_path(cwd: Option<&str>, session_name: Option<&str>, runtime_dir: &str) -> (res:
    String)
    ensures
        res@ == match cwd {
            Some(d) => path_join(runtime_dir@, socket_name(fold_hash(d.spec_bytes()))),
            None => match session_name {
                Some(s) => path_join(runtime_dir@, socket_name(fold_hash(s.spec_bytes()))),
                None => path_join(runtime_dir@, socket_name(fold_hash("default".spec_bytes()))),
            },
        },
{
    match cwd {
        Some(d) => socket_path(d, runtime_dir),
        None => match session_name {
            Some(s) => session_socket_path(s, runtime_dir),
            None => session_socket_path("default", runtime_dir),
        },
    }
}

/// The daemon's PID file beside its socket: a trailing `.sock` becomes
/// `.pid`; without one, `.pid` is added.
pub open spec fn pid_path_spec(socket: Seq<char>) -> Seq<char> {
    if has_suffix(socket, ".sock"@) {
        socket.take(socket.len() - 5) + ".pid"@
    } else {
        socket + ".pid"@
    }
}

pub fn pid_path(socket: &str) -> (res: String)
    ensures
        res@ == pid_path_spec(socket@),
{
    proof {
        reveal_strlit(".sock");
    }
    let cs = chars_of(socket);
    let n = cs.len();
    let sock = n >= 5 && cs[n - 5] == '.' && cs[n - 4] == 's' && cs[n - 3] == 'o' && cs[n - 2] == 'c'
        && cs[n - 1] == 'k';
    assert(sock == has_suffix(socket@, ".sock"@)) by {
        if n >= 5 {
            let t = socket@.skip(n - 5);
            if sock {
                assert(t =~= ".sock"@);
            }
            if has_suffix(socket@, ".sock"@) {
                assert(t[0] == '.' && t[1] == 's' && t[2] == 'o' && t[3] == 'c' && t[4] == 'k');
            }
        }
    }
    if sock {
        let mut stem: Vec<char> = Vec::new();
        let mut i: usize = 0;
        while i < n - 5
            invariant
                n == cs.len(),
                n >= 5,
                i <= n - 5,
                stem@ == cs@.take(i as int),
            decreases n - 5 - i,
        {
            stem.push(cs[i]);
            i = i + 1;
            assert(stem@ =~= cs@.take(i as int));
        }
        let mut out = string_from_chars(&stem);
        push_str(&mut out, ".pid");
        out
    } else {
        let mut out = string_of(socket);
        push_str(&mut out, ".pid");
        out
    }
}

/// Sockets with different paths have different PID files.
pub proof fn lemma_pid_paths_distinct(a: Seq<char>, b: Seq<char>)
    requires
        has_suffix(a, ".sock"@),
        has_suffix(b, ".sock"@),
        a != b,
    ensures
        pid_path_spec(a) != pid_path_spec(b),
{
    reveal_strlit(".sock");
    reveal_strlit(".pid");
    if pid_path_spec(a) == pid_path_spec(b) {
        let sa = a.take(a.len() - 5);
        let sb = b.take(b.len() - 5);
        assert(".pid"@.len() == 4);
        assert(".sock"@.len() == 5);
        assert(pid_path_spec(a).len() == sa.len() + 4);
        assert(pid_path_spec(b).len() == sb.len() + 4);
        assert(sa.len() == sb.len());
        assert(sa =~= pid_path_spec(a).take(sa.len() as int));
        assert(sb =~= pid_path_spec(b).take(sb.len() as int));
        assert(a =~= sa + ".sock"@);
        assert(b =~= sb + ".sock"@);
    }
}

} // verus!
