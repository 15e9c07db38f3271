//! The private Zellij configuration of a session: the user's configuration
//! with the session's name, serialization off, and one key binding per
//! helper action. Reading, parsing and writing the KDL document is left to
//! the caller; this module decides the bindings and checks for conflicts.

use crate::config::KeybindingConfig;
use crate::text::{
    chars_of, debug_quote, debug_str, join_with, lower_char, lower_seq, push_char, push_str,
    split_whitespace, to_ascii_lower, words,
};
use vstd::prelude::*;

verus! {

/// What the runtime configuration is built from.
pub struct RuntimeConfigInput<'a> {
    /// The user's Zellij configuration, if there is one to merge.
    pub source: Option<&'a str>,
    /// Where the private copy is written.
    pub destination: &'a str,
    pub session_name: &'a str,
    pub keys: &'a KeybindingConfig,
    /// This program, run by the bindings.
    pub executable: &'a str,
    /// The application configuration the bindings pass on with `--config`.
    pub app_config: &'a str,
    pub git_command: &'a str,
    pub git_args: &'a [String],
    /// The working directory of the helper panes.
    pub project_dir: &'a str,
    pub float_width: &'a str,
    pub float_height: &'a str,
}

// ---------------------------------------------------------------------------
// Keys
// ---------------------------------------------------------------------------

/// A key as Zellij compares it: its words, lowercased (ASCII), joined by
/// single spaces.
pub open spec fn normalize_key_spec(key: Seq<char>) -> Seq<char> {
    join_with(words(key).map_values(|w: Seq<char>| lower_seq(w)), seq![' '])
}

pub fn normalize_key(key: &str) -> (res: String)
    ensures
        res@ == normalize_key_spec(key@),
{
    let cs = chars_of(key);
    let ws = split_whitespace(cs.as_slice());
    let ghost lowered = words(key@).map_values(|w: Seq<char>| lower_seq(w));
    let mut out = String::new();
    let mut i: usize = 0;
    while i < ws.len()
        invariant
            i <= ws.len(),
            cs@ == key@,
            ws@.len() == words(key@).len(),
            forall|k: int| 0 <= k < ws@.len() ==> (#[trigger] ws@[k])@ == words(key@)[k],
            lowered == words(key@).map_values(|w: Seq<char>| lower_seq(w)),
            out@ == join_with(lowered.take(i as int), seq![' ']),
        decreases ws.len() - i,
    {
        let ghost before = out@;
        if i > 0 {
            push_char(&mut out, ' ');
        }
        let w = &ws[i];
        let ghost mid = out@;
        let mut j: usize = 0;
        while j < w.len()
            invariant
                j <= w.len(),
                out@ == mid + lower_seq(w@.take(j as int)),
            decreases w.len() - j,
        {
            push_char(&mut out, to_ascii_lower(w[j]));
            j = j + 1;
            assert(lower_seq(w@.take(j as int)) =~= lower_seq(w@.take(j - 1)).push(lower_char(w@[j - 1])));
            assert(out@ =~= mid + lower_seq(w@.take(j as int)));
        }
        assert(w@.take(w.len() as int) =~= w@);
        assert(lowered.take(i + 1).drop_last() =~= lowered.take(i as int));
        assert(lowered.take(i + 1).last() == lower_seq(w@));
        i = i + 1;
        assert(out@ =~= join_with(lowered.take(i as int), seq![' ']));
    }
    assert(lowered.take(ws.len() as int) =~= lowered);
    out
}

/// The keys the helper actions are bound to, with the action each one
/// serves, in the order they are checked for conflicts.
pub open spec fn requested_keys(k: KeybindingConfig) -> Seq<(Seq<char>, Seq<char>)> {
    seq![
        (k.file_manager@, "file manager"@),
        (k.file_manager_dock@, "file-manager dock toggle"@),
        (k.git@, "Git client"@),
        (k.review@, "Review"@),
        (k.workflow@, "Workflow"@),
        (k.terminal@, "terminal toggle"@),
        (k.terminal_zoom@, "terminal zoom toggle"@),
        (k.mindmap@, "mind map toggle"@),
        (k.mindmap_zoom@, "mind map zoom toggle"@),
    ]
}

fn requested_key(k: &KeybindingConfig, i: usize) -> (res: (&str, &'static str))
    requires
        i < 9,
    ensures
        (res.0@, res.1@) == requested_keys(*k)[i as int],
{
    match i {
        0 => (k.file_manager.as_str(), "file manager"),
        1 => (k.file_manager_dock.as_str(), "file-manager dock toggle"),
        2 => (k.git.as_str(), "Git client"),
        3 => (k.review.as_str(), "Review"),
        4 => (k.workflow.as_str(), "Workflow"),
        5 => (k.terminal.as_str(), "terminal toggle"),
        6 => (k.terminal_zoom.as_str(), "terminal zoom toggle"),
        7 => (k.mindmap.as_str(), "mind map toggle"),
        _ => (k.mindmap_zoom.as_str(), "mind map zoom toggle"),
    }
}

/// Whether `key` is among the keys already bound (compared normalized).
pub open spec fn key_bound(bound: Seq<String>, key: Seq<char>) -> bool {
    exists|j: int|
        0 <= j < bound.len() && normalize_key_spec(#[trigger] bound[j]@) == normalize_key_spec(key)
}

/// The first requested key from position `i` on that is already bound.
pub open spec fn first_conflict(k: KeybindingConfig, bound: Seq<String>, i: int) -> Option<int>
    decreases 9 - i,
{
    if i >= 9 || i < 0 {
        None
    } else if key_bound(bound, requested_keys(k)[i].0) {
        Some(i)
    } else {
        first_conflict(k, bound, i + 1)
    }
}

/// A requested key that the user's configuration binds already.
#[derive(Debug, Clone)]
pub struct KeyConflict {
    pub key: String,
    pub action: &'static str,
}

pub open spec fn conflict_message(key: Seq<char>, action: Seq<char>) -> Seq<char> {
    "Zellij key '"@ + key + "' is already bound; choose another [keybindings] value for the sat-hx-ide "@
        + action + " action"@
}

impl KeyConflict {
    pub fn message(&self) -> (res: String)
        ensures
            res@ == conflict_message(self.key@, self.action@),
    {
        let mut out = String::new();
        push_str(&mut out, "Zellij key '");
        push_str(&mut out, self.key.as_str());
        push_str(&mut out, "' is already bound; choose another [keybindings] value for the sat-hx-ide ");
        push_str(&mut out, self.action);
        push_str(&mut out, " action");
        out
    }
}

fn is_bound(bound: &Vec<String>, key: &str) -> (res: bool)
    ensures
        res == key_bound(bound@, key@),
{
    let want = normalize_key(key);
    let mut j: usize = 0;
    while j < bound.len()
        invariant
            j <= bound.len(),
            want@ == normalize_key_spec(key@),
            forall|m: int|
                0 <= m < j ==> normalize_key_spec(#[trigger] bound@[m]@) != normalize_key_spec(key@),
        decreases bound.len() - j,
    {
        let have = normalize_key(bound[j].as_str());
        if crate::text::str_eq(have.as_str(), want.as_str()) {
            assert(normalize_key_spec(bound@[j as int]@) == normalize_key_spec(key@));
            return true;
        }
        j = j + 1;
    }
    false
}

/// The first requested key that is already bound in the user's
/// `keybinds` section; `bound` holds the string arguments of every `bind`
/// node found there, at any depth.
pub fn find_key_conflict(keys: &KeybindingConfig, bound: &Vec<String>) -> (res: Option<KeyConflict>)
    ensures
        match first_conflict(*keys, bound@, 0) {
            Some(i) => res matches Some(c) && (c.key@, c.action@) == requested_keys(*keys)[i],
            None => res is None,
        },
{
    let mut i: usize = 0;
    while i < 9
        invariant
            i <= 9,
            first_conflict(*keys, bound@, 0) == first_conflict(*keys, bound@, i as int),
        decreases 9 - i,
    {
        let (key, action) = requested_key(keys, i);
        if is_bound(bound, key) {
            return Some(KeyConflict { key: crate::text::string_of(key), action });
        }
        i = i + 1;
    }
    None
}

// ---------------------------------------------------------------------------
// Bindings
// ---------------------------------------------------------------------------

/// The arguments, each preceded by a space and in Debug notation.
pub open spec fn debug_args(args: Seq<Seq<char>>) -> Seq<char>
    decreases args.len(),
{
    if args.len() == 0 {
        Seq::empty()
    } else {
        debug_args(args.drop_last()) + " "@ + debug_str(args.last())
    }
}

/// A binding that runs this program with `args` in a floating pane. Visible
/// helpers get the configured size; the others a borderless 1x1 pane, as
/// they only drive Zellij and exit.
pub open spec fn helper_snippet(
    key: Seq<char>,
    exe: Seq<char>,
    config: Seq<char>,
    args: Seq<Seq<char>>,
    width: Seq<char>,
    height: Seq<char>,
    pane_name: Seq<char>,
    cwd: Seq<char>,
    visible: bool,
) -> Seq<char> {
    let w = if visible {
        width
    } else {
        "1"@
    };
    let h = if visible {
        height
    } else {
        "1"@
    };
    let borderless = if visible {
        ""@
    } else {
        "\nborderless true"@
    };
    "bind "@ + debug_str(key) + " {\n    Run "@ + debug_str(exe) + " \"--config\" "@ + debug_str(config)
        + debug_args(args) + " {\n        floating true\n        close_on_exit true\n        x \"0%\"\n        y \"0%\"\n        width "@
        + debug_str(w) + "\n        height "@ + debug_str(h) + borderless + "\n        name "@
        + debug_str(pane_name) + "\n        cwd "@ + debug_str(cwd) + "\n    }\n}"@
}

/// The helper bindings, in the order they are added: key, arguments, pane
/// name and whether the pane is visible.
pub open spec fn binding_table(k: KeybindingConfig) -> Seq<
    (Seq<char>, Seq<Seq<char>>, Seq<char>, bool),
> {
    seq![
        (k.file_manager@, seq!["__file-manager"@, "open"@], "sat-file-manager-request"@, true),
        (k.file_manager_dock@, seq!["__file-manager"@, "toggle-dock"@], "sat-file-manager-toggle"@, false),
        (k.terminal@, seq!["__terminal"@, "toggle"@], "sat-terminal-toggle"@, false),
        (k.terminal_zoom@, seq!["__terminal"@, "zoom"@], "sat-terminal-zoom"@, false),
        (k.mindmap@, seq!["__mindmap"@, "toggle"@], "sat-mindmap-toggle"@, false),
        (k.mindmap_zoom@, seq!["__mindmap"@, "zoom"@], "sat-mindmap-zoom"@, false),
        (k.git@, seq!["__git"@, "open"@], "sat-git-open"@, false),
        (k.review@, seq!["__review"@, "open"@], "sat-review-open"@, false),
        (k.workflow@, seq!["__workflow"@, "open"@], "sat-workflow-open"@, false),
    ]
}

pub open spec fn binding_spec(input: RuntimeConfigInput, i: int) -> Seq<char> {
    let b = binding_table(*input.keys)[i];
    helper_snippet(
        b.0,
        input.executable@,
        input.app_config@,
        b.1,
        input.float_width@,
        input.float_height@,
        b.2,
        input.project_dir@,
        b.3,
    )
}

fn binding_row(k: &KeybindingConfig, i: usize) -> (res: (&str, &'static str, &'static str, &'static str, bool))
    requires
        i < 9,
    ensures
        ({
            let b = binding_table(*k)[i as int];
            &&& res.0@ == b.0
            &&& b.1 == seq![res.1@, res.2@]
            &&& res.3@ == b.2
            &&& res.4 == b.3
        }),
{
    match i {
        0 => (k.file_manager.as_str(), "__file-manager", "open", "sat-file-manager-request", true),
        1 => (k.file_manager_dock.as_str(), "__file-manager", "toggle-dock", "sat-file-manager-toggle", false),
        2 => (k.terminal.as_str(), "__terminal", "toggle", "sat-terminal-toggle", false),
        3 => (k.terminal_zoom.as_str(), "__terminal", "zoom", "sat-terminal-zoom", false),
        4 => (k.mindmap.as_str(), "__mindmap", "toggle", "sat-mindmap-toggle", false),
        5 => (k.mindmap_zoom.as_str(), "__mindmap", "zoom", "sat-mindmap-zoom", false),
        6 => (k.git.as_str(), "__git", "open", "sat-git-open", false),
        7 => (k.review.as_str(), "__review", "open", "sat-review-open", false),
        _ => (k.workflow.as_str(), "__workflow", "open", "sat-workflow-open", false),
    }
}

fn push_debug(out: &mut String, s: &str)
    ensures
        final(out)@ == old(out)@ + debug_str(s@),
{
    let q = debug_quote(s);
    push_str(out, q.as_str());
}

/// The KDL text of one helper binding.
pub fn helper_binding(input: &RuntimeConfigInput, key: &str, arg0: &str, arg1: &str, pane_name: &str, visible: bool) -> (res:
    String)
    ensures
        res@ == helper_snippet(
            key@,
            input.executable@,
            input.app_config@,
            seq![arg0@, arg1@],
            input.float_width@,
            input.float_height@,
            pane_name@,
            input.project_dir@,
            visible,
        ),
{
    let (w, h, borderless) = if visible {
        (input.float_width, input.float_height, "")
    } else {
        ("1", "1", "\nborderless true")
    };
    let mut out = String::new();
    push_str(&mut out, "bind ");
    push_debug(&mut out, key);
    push_str(&mut out, " {\n    Run ");
    push_debug(&mut out, input.executable);
    push_str(&mut out, " \"--config\" ");
    push_debug(&mut out, input.app_config);
    let ghost before_args = out@;
    push_str(&mut out, " ");
    push_debug(&mut out, arg0);
    push_str(&mut out, " ");
    push_debug(&mut out, arg1);
    let ghost one = seq![arg0@];
    let ghost two = seq![arg0@, arg1@];
    assert(two.drop_last() =~= one);
    assert(one.drop_last() =~= Seq::<Seq<char>>::empty());
    assert(debug_args(one) == debug_args(Seq::<Seq<char>>::empty()) + " "@ + debug_str(arg0@));
    assert(debug_args(two) == debug_args(one) + " "@ + debug_str(arg1@));
    assert(debug_args(one) =~= " "@ + debug_str(arg0@));
    assert(out@ =~= before_args + debug_args(seq![arg0@, arg1@]));
    push_str(
        &mut out,
        " {\n        floating true\n        close_on_exit true\n        x \"0%\"\n        y \"0%\"\n        width ",
    );
    push_debug(&mut out, w);
    push_str(&mut out, "\n        height ");
    push_debug(&mut out, h);
    push_str(&mut out, borderless);
    push_str(&mut out, "\n        name ");
    push_debug(&mut out, pane_name);
    push_str(&mut out, "\n        cwd ");
    push_debug(&mut out, input.project_dir);
    push_str(&mut out, "\n    }\n}");
    out
}

/// The helper bindings added to the shared section of the key bindings.
pub fn runtime_bindings(input: &RuntimeConfigInput) -> (res: Vec<String>)
    ensures
        res@.len() == 9,
        forall|i: int| 0 <= i < 9 ==> (#[trigger] res@[i])@ == binding_spec(*input, i),
{
    let mut out: Vec<String> = Vec::new();
    let mut i: usize = 0;
    while i < 9
        invariant
            i <= 9,
            out@.len() == i,
            forall|j: int| 0 <= j < i ==> (#[trigger] out@[j])@ == binding_spec(*input, j),
        decreases 9 - i,
    {
        let (key, a0, a1, name, visible) = binding_row(input.keys, i);
        let b = helper_binding(input, key, a0, a1, name, visible);
        out.push(b);
        i = i + 1;
    }
    out
}

/// The `session_name` node of the runtime configuration.
pub fn session_name_node(session_name: &str) -> (res: String)
    ensures
        res@ == "session_name "@ + debug_str(session_name@) + "\n"@,
{
    let mut out = crate::text::string_of("session_name ");
    push_debug(&mut out, session_name);
    push_str(&mut out, "\n");
    out
}

/// Serialization is switched off, so that an exited session is recreated
/// from the layout rather than resurrected.
pub const SESSION_SERIALIZATION_NODE: &'static str = "session_serialization false\n";

/// The `keybinds` node added when the configuration has none.
pub const KEYBINDS_NODE: &'static str = "keybinds {\n}\n";

/// The section the helper bindings go into, added when missing.
pub const SHARED_EXCEPT_LOCKED_NODE: &'static str = "shared_except \"locked\" {\n}\n";

/// When no conflict is found, none of the requested keys is bound yet.
pub proof fn lemma_no_conflict_means_free(k: KeybindingConfig, bound: Seq<String>, from: int)
    requires
        0 <= from <= 9,
        first_conflict(k, bound, from) is None,
    ensures
        forall|i: int| from <= i < 9 ==> !key_bound(bound, #[trigger] requested_keys(k)[i].0),
    decreases 9 - from,
{
    if from < 9 {
        lemma_no_conflict_means_free(k, bound, from + 1);
    }
}

/// A reported conflict names a requested key that is bound, and every key
/// checked before it is free.
pub proof fn lemma_conflict_is_first(k: KeybindingConfig, bound: Seq<String>, from: int, i: int)
    requires
        0 <= from <= 9,
        first_conflict(k, bound, from) == Some(i),
    ensures
        from <= i < 9,
        key_bound(bound, requested_keys(k)[i].0),
        forall|j: int| from <= j < i ==> !key_bound(bound, #[trigger] requested_keys(k)[j].0),
    decreases 9 - from,
{
    if from < 9 && !key_bound(bound, requested_keys(k)[from].0) {
        lemma_conflict_is_first(k, bound, from + 1, i);
    }
}

// ---------------------------------------------------------------------------
// Where the nodes go
// ---------------------------------------------------------------------------

/// A node of the user's configuration as far as placing the bindings needs
/// it: its name and its string arguments.
#[derive(Debug, Clone)]
pub struct NodeOutline {
    pub name: String,
    pub strings: Vec<String>,
}

/// Top-level nodes that the runtime copy replaces with its own.
pub open spec fn replaced_node_spec(name: Seq<char>) -> bool {
    name == "session_name"@ || name == "session_serialization"@
}

pub fn is_replaced_node(name: &str) -> (res: bool)
    ensures
        res == replaced_node_spec(name@),
{
    crate::text::str_eq(name, "session_name") || crate::text::str_eq(name, "session_serialization")
}

/// The first index, from `i` on, of the name `want`.
pub open spec fn first_named(names: Seq<Seq<char>>, want: Seq<char>, i: int) -> Option<int>
    decreases names.len() - i,
{
    if i < 0 || i >= names.len() {
        None
    } else if names[i] == want {
        Some(i)
    } else {
        first_named(names, want, i + 1)
    }
}

/// The `keybinds` node the bindings go under: the first one.
pub fn keybinds_index(names: &Vec<String>) -> (res: Option<usize>)
    ensures
        match res {
            Some(i) => first_named(names@.map_values(|n: String| n@), "keybinds"@, 0) == Some(i as int),
            None => first_named(names@.map_values(|n: String| n@), "keybinds"@, 0) is None,
        },
{
    let ghost ns = names@.map_values(|n: String| n@);
    let mut i: usize = 0;
    while i < names.len()
        invariant
            i <= names.len(),
            ns == names@.map_values(|n: String| n@),
            first_named(ns, "keybinds"@, 0) == first_named(ns, "keybinds"@, i as int),
        decreases names.len() - i,
    {
        if crate::text::str_eq(names[i].as_str(), "keybinds") {
            assert(ns[i as int] == names@[i as int]@);
            return Some(i);
        }
        assert(ns[i as int] == names@[i as int]@);
        i = i + 1;
    }
    None
}

/// A `shared_except` section that names the `locked` mode.
pub open spec fn is_shared_locked(n: NodeOutline) -> bool {
    n.name@ == "shared_except"@ && exists|k: int|
        0 <= k < n.strings@.len() && (#[trigger] n.strings@[k])@ == "locked"@
}

pub open spec fn first_shared_locked(children: Seq<NodeOutline>, i: int) -> Option<int>
    decreases children.len() - i,
{
    if i < 0 || i >= children.len() {
        None
    } else if is_shared_locked(children[i]) {
        Some(i)
    } else {
        first_shared_locked(children, i + 1)
    }
}

fn names_locked(strings: &Vec<String>) -> (res: bool)
    ensures
        res == exists|k: int| 0 <= k < strings@.len() && (#[trigger] strings@[k])@ == "locked"@,
{
    let mut k: usize = 0;
    while k < strings.len()
        invariant
            k <= strings.len(),
            forall|j: int| 0 <= j < k ==> (#[trigger] strings@[j])@ != "locked"@,
        decreases strings.len() - k,
    {
        if crate::text::str_eq(strings[k].as_str(), "locked") {
            return true;
        }
        k = k + 1;
    }
    false
}

/// The section of the key bindings that the helper bindings go into: the
/// first `shared_except "locked"`, so they work in every mode but locked.
pub fn shared_section_index(children: &Vec<NodeOutline>) -> (res: Option<usize>)
    ensures
        match res {
            Some(i) => first_shared_locked(children@, 0) == Some(i as int),
            None => first_shared_locked(children@, 0) is None,
        },
{
    let mut i: usize = 0;
    while i < children.len()
        invariant
            i <= children.len(),
            first_shared_locked(children@, 0) == first_shared_locked(children@, i as int),
        decreases children.len() - i,
    {
        let n = &children[i];
        if crate::text::str_eq(n.name.as_str(), "shared_except") && names_locked(&n.strings) {
            return Some(i);
        }
        i = i + 1;
    }
    None
}

} // verus!
