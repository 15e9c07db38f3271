//! Decisions behind the keybinding helpers: which pane to focus, toggle,
//! respawn or resize, given the panes Zellij reports.

use crate::config::DockPosition;
use crate::text::{
    chars_of, decimal, escape_quotes, lines, parse_u64, parse_u64_spec, push_char, push_str,
    slice_chars, split_lines, string_from_chars, strip_all_prefix, strip_all_prefix_index,
    string_of, str_eq, u64_to_decimal,
};
use vstd::prelude::*;

verus! {

pub const FILE_MANAGER_PANE: &'static str = "file-manager";

pub const EDITOR_PANE: &'static str = "editor";

pub const TERMINAL_PANE: &'static str = "terminal";

/// How long pane listings stay fresh, in milliseconds.
pub const PANE_CACHE_TTL_MS: u64 = 500;

#[derive(Debug, Clone, Copy, PartialEq, Eq, Structural)]
pub enum FileManagerAction {
    Open,
    ToggleDock,
    Run,
}

#[derive(Debug, Clone, Copy, PartialEq, Eq, Structural)]
pub enum TerminalAction {
    /// Hide the terminal behind a fullscreen editor, or bring it back.
    Toggle,
    /// Switch the terminal between its docked size and fullscreen.
    Zoom,
}

#[derive(Debug, Clone, Copy, PartialEq, Eq, Structural)]
pub enum GitAction {
    Open,
}

/// One entry of `zellij action list-panes --json --all`.
#[derive(Debug, Clone)]
pub struct PaneInfo {
    pub id: u64,
    pub is_plugin: bool,
    pub is_floating: bool,
    pub is_fullscreen: bool,
    pub title: String,
    pub tab_id: u64,
    pub pane_columns: usize,
    pub pane_rows: usize,
}

pub open spec fn cli_id_spec(id: u64) -> Seq<char> {
    "terminal_"@ + decimal(id as nat)
}

impl PaneInfo {
    /// The id form Zellij's CLI expects: `terminal_N`.
    pub fn cli_id(&self) -> (res: String)
        ensures
            res@ == cli_id_spec(self.id),
    {
        let mut s = string_of("terminal_");
        let d = u64_to_decimal(self.id);
        push_str(&mut s, d.as_str());
        s
    }

    /// A copy of this pane entry.
    pub fn duplicate(&self) -> (res: PaneInfo)
        ensures
            res == *self,
    {
        PaneInfo {
            id: self.id,
            is_plugin: self.is_plugin,
            is_floating: self.is_floating,
            is_fullscreen: self.is_fullscreen,
            title: self.title.clone(),
            tab_id: self.tab_id,
            pane_columns: self.pane_columns,
            pane_rows: self.pane_rows,
        }
    }
}

/// Whether the daemon can handle this file-manager action without a helper
/// TTY: only focusing a file manager that already exists. Opening or running
/// one renames the helper pane and runs yazi in that process.
pub fn file_manager_ipc_capable(action: FileManagerAction, file_manager_exists: bool) -> (res:
    bool)
    ensures
        res == (action == FileManagerAction::Open && file_manager_exists),
{
    match action {
        FileManagerAction::Open => file_manager_exists,
        _ => false,
    }
}

/// Actions that ask for a file manager (as opposed to running one).
pub fn action_is_request(action: FileManagerAction) -> (res: bool)
    ensures
        res == (action != FileManagerAction::Run),
{
    match action {
        FileManagerAction::Open | FileManagerAction::ToggleDock => true,
        FileManagerAction::Run => false,
    }
}

// ---------------------------------------------------------------------------
// Quoting a path for Helix's command line
// ---------------------------------------------------------------------------

/// `char::is_control`: the Unicode `Cc` category.
pub open spec fn is_control(c: char) -> bool {
    let u = c as u32;
    u <= 0x1f || (0x7f <= u <= 0x9f)
}

/// Error of [`helix_quote`].
#[derive(Debug, Clone, Copy, PartialEq, Eq, Structural)]
pub enum QuoteError {
    /// The selected path contains control characters.
    ControlCharacter,
}

/// A path in double quotes for Helix's `:open`, refusing control characters.
pub fn helix_quote(path: &str) -> (res: Result<String, QuoteError>)
    ensures
        match res {
            Ok(q) => (forall|i: int| 0 <= i < path@.len() ==> !is_control(#[trigger] path@[i]))
                && q@ == seq!['"'] + escape_quotes(path@) + seq!['"'],
            Err(_) => exists|i: int| 0 <= i < path@.len() && is_control(#[trigger] path@[i]),
        },
{
    let cs = chars_of(path);
    let mut out = String::new();
    push_char(&mut out, '"');
    let mut i: usize = 0;
    while i < cs.len()
        invariant
            i <= cs.len(),
            cs@ == path@,
            forall|j: int| 0 <= j < i ==> !is_control(#[trigger] path@[j]),
            out@ == seq!['"'] + escape_quotes(cs@.take(i as int)),
        decreases cs.len() - i,
    {
        let c = cs[i];
        let u = c as u32;
        if u <= 0x1f || (0x7f <= u && u <= 0x9f) {
            assert(is_control(path@[i as int]));
            return Err(QuoteError::ControlCharacter);
        }
        if c == '\\' {
            push_char(&mut out, '\\');
            push_char(&mut out, '\\');
        } else if c == '"' {
            push_char(&mut out, '\\');
            push_char(&mut out, '"');
        } else {
            push_char(&mut out, c);
        }
        assert(cs@.take(i + 1).drop_last() =~= cs@.take(i as int));
        i = i + 1;
        assert(out@ =~= seq!['"'] + escape_quotes(cs@.take(i as int)));
    }
    push_char(&mut out, '"');
    assert(cs@.take(cs.len() as int) =~= cs@);
    Ok(out)
}

// ---------------------------------------------------------------------------
// Pane ids
// ---------------------------------------------------------------------------

/// The number in `terminal_N` or bare `N` (any number of leading
/// `terminal_` prefixes is dropped, as `trim_start_matches` does).
pub open spec fn pane_number(value: Seq<char>) -> Option<u64> {
    parse_u64_spec(strip_all_prefix(value, "terminal_"@))
}

fn pane_number_of(value: &str) -> (res: Option<u64>)
    ensures
        res == pane_number(value@),
{
    let cs = chars_of(value);
    let prefix = chars_of("terminal_");
    let at = strip_all_prefix_index(&cs, &prefix);
    let rest = slice_chars(&cs, at, cs.len());
    assert(rest@ =~= cs@.skip(at as int));
    parse_u64(&rest)
}

/// The id form `cli_id` prints parses back to the pane's id.
pub proof fn lemma_cli_id_round_trip(id: u64)
    ensures
        pane_number(cli_id_spec(id)) == Some(id),
{
    let p = "terminal_"@;
    let d = decimal(id as nat);
    let s = cli_id_spec(id);
    reveal_strlit("terminal_");
    crate::text::lemma_decimal_digits(id as nat);
    assert(s.take(p.len() as int) =~= p);
    assert(s.skip(p.len() as int) =~= d);
    assert(!crate::text::has_prefix(d, p)) by {
        assert(crate::text::is_digit(d[0]));
        if crate::text::has_prefix(d, p) {
            assert(d.take(p.len() as int)[0] == p[0]);
        }
    }
    assert(strip_all_prefix(d, p) == d);
    assert(strip_all_prefix(s, p) == strip_all_prefix(s.skip(p.len() as int), p));
    assert(d[0] != '+') by {
        assert(crate::text::is_digit(d[0]));
    }
    assert(parse_u64_spec(d) == Some(id));
}

pub open spec fn invalid_env_pane_id_message(value: Seq<char>) -> Seq<char> {
    "Invalid ZELLIJ_PANE_ID '"@ + value + "'"@
}

pub open spec fn invalid_pane_id_message(value: Seq<char>) -> Seq<char> {
    "Invalid pane ID returned by Zellij: '"@ + value + "'"@
}

fn quoted_message(head: &str, value: &str) -> (res: String)
    ensures
        res@ == head@ + value@ + "'"@,
{
    let mut m = string_of(head);
    push_str(&mut m, value);
    push_str(&mut m, "'");
    m
}

/// Parses Zellij's `ZELLIJ_PANE_ID` value (`terminal_N` or bare `N`).
pub fn parse_zellij_pane_id(value: &str) -> (res: Result<u64, String>)
    ensures
        match res {
            Ok(n) => pane_number(value@) == Some(n),
            Err(m) => pane_number(value@) is None && m@ == invalid_env_pane_id_message(value@),
        },
{
    match pane_number_of(value) {
        Some(n) => Ok(n),
        None => Err(quoted_message("Invalid ZELLIJ_PANE_ID '", value)),
    }
}

/// Parses a pane id printed by `zellij action new-pane`.
pub fn parse_pane_id(pane_id: &str) -> (res: Result<u64, String>)
    ensures
        match res {
            Ok(n) => pane_number(pane_id@) == Some(n),
            Err(m) => pane_number(pane_id@) is None && m@ == invalid_pane_id_message(pane_id@),
        },
{
    match pane_number_of(pane_id) {
        Some(n) => Ok(n),
        None => Err(quoted_message("Invalid pane ID returned by Zellij: '", pane_id)),
    }
}

// ---------------------------------------------------------------------------
// Finding panes
// ---------------------------------------------------------------------------

pub open spec fn is_titled(p: PaneInfo, title: Seq<char>) -> bool {
    !p.is_plugin && p.title@ == title
}

/// Index of the first terminal pane (not a plugin) with this title.
pub open spec fn first_titled(panes: Seq<PaneInfo>, title: Seq<char>) -> Option<int> {
    if exists|i: int| 0 <= i < panes.len() && is_titled(#[trigger] panes[i], title) {
        Some(
            choose|i: int|
                0 <= i < panes.len() && is_titled(panes[i], title) && (forall|j: int|
                    0 <= j < i ==> !is_titled(#[trigger] panes[j], title)),
        )
    } else {
        None
    }
}

/// The first pane with the given title, if any.
pub fn find_titled(panes: &Vec<PaneInfo>, title: &str) -> (res: Option<usize>)
    ensures
        match res {
            Some(i) => {
                &&& i < panes@.len()
                &&& is_titled(panes@[i as int], title@)
                &&& forall|j: int| 0 <= j < i ==> !is_titled(#[trigger] panes@[j], title@)
            },
            None => forall|j: int| 0 <= j < panes@.len() ==> !is_titled(#[trigger] panes@[j], title@),
        },
        res matches Some(i) ==> first_titled(panes@, title@) == Some(i as int),
        res is None ==> first_titled(panes@, title@) is None,
{
    let mut i: usize = 0;
    while i < panes.len()
        invariant
            i <= panes.len(),
            forall|j: int| 0 <= j < i ==> !is_titled(#[trigger] panes@[j], title@),
        decreases panes.len() - i,
    {
        if !panes[i].is_plugin && str_eq(panes[i].title.as_str(), title) {
            proof {
                let w = choose|k: int|
                    0 <= k < panes@.len() && is_titled(panes@[k], title@) && (forall|j: int|
                        0 <= j < k ==> !is_titled(#[trigger] panes@[j], title@));
                assert(0 <= i < panes@.len() && is_titled(panes@[i as int], title@) && (forall|
                    j: int,
                | 0 <= j < i ==> !is_titled(#[trigger] panes@[j], title@)));
                if w < i {
                    assert(!is_titled(panes@[w], title@));
                }
                if w > i {
                    assert(!is_titled(panes@[i as int], title@));
                }
            }
            return Some(i);
        }
        i = i + 1;
    }
    None
}

pub open spec fn has_pane(panes: Seq<PaneInfo>, id: u64) -> bool {
    exists|i: int| 0 <= i < panes.len() && !(#[trigger] panes[i]).is_plugin && panes[i].id == id
}

/// Index of the first terminal pane with this id.
pub fn find_pane_id(panes: &Vec<PaneInfo>, id: u64) -> (res: Option<usize>)
    ensures
        match res {
            Some(i) => i < panes@.len() && !panes@[i as int].is_plugin && panes@[i as int].id == id,
            None => !has_pane(panes@, id),
        },
{
    let mut i: usize = 0;
    while i < panes.len()
        invariant
            i <= panes.len(),
            forall|j: int| 0 <= j < i ==> !((#[trigger] panes@[j]).is_plugin == false && panes@[j].id == id),
        decreases panes.len() - i,
    {
        if !panes[i].is_plugin && panes[i].id == id {
            return Some(i);
        }
        i = i + 1;
    }
    None
}

/// Whether a terminal pane with this id is listed.
pub fn pane_exists(panes: &Vec<PaneInfo>, id: u64) -> (res: bool)
    ensures
        res == has_pane(panes@, id),
{
    find_pane_id(panes, id).is_some()
}

// ---------------------------------------------------------------------------
// Geometry
// ---------------------------------------------------------------------------

#[derive(Debug, Clone, Copy, PartialEq, Eq, Structural)]
pub enum Axis {
    Columns,
    Rows,
}

pub open spec fn measure_spec(axis: Axis, p: PaneInfo) -> usize {
    match axis {
        Axis::Columns => p.pane_columns,
        Axis::Rows => p.pane_rows,
    }
}

impl Axis {
    pub fn measure(self, pane: &PaneInfo) -> (res: usize)
        ensures
            res == measure_spec(self, *pane),
    {
        match self {
            Axis::Columns => pane.pane_columns,
            Axis::Rows => pane.pane_rows,
        }
    }
}

/// Share of the split (pane + editor) taken by `pane`, as a whole percent
/// rounded down; none when both are empty.
pub open spec fn area_share(a: int, b: int) -> Option<int> {
    if a + b > 0 {
        Some(a * 100 / (a + b))
    } else {
        None
    }
}

pub fn pane_area_share(pane: &PaneInfo, editor: &PaneInfo, axis: Axis) -> (res: Option<usize>)
    requires
        measure_spec(axis, *pane) + measure_spec(axis, *editor) <= usize::MAX,
        measure_spec(axis, *pane) * 100 <= usize::MAX,
    ensures
        match res {
            Some(s) => area_share(
                measure_spec(axis, *pane) as int,
                measure_spec(axis, *editor) as int,
            ) == Some(s as int),
            None => area_share(
                measure_spec(axis, *pane) as int,
                measure_spec(axis, *editor) as int,
            ) is None,
        },
{
    let a = axis.measure(pane);
    let b = axis.measure(editor);
    let total = a + b;
    if total > 0 {
        Some(a * 100 / total)
    } else {
        None
    }
}

// ---------------------------------------------------------------------------
// Pane cache
// ---------------------------------------------------------------------------

/// A listing of panes and when (milliseconds on a monotonic clock) it was taken.
#[derive(Debug)]
pub struct CachedPanes {
    pub timestamp_ms: u64,
    pub panes: Vec<PaneInfo>,
    pub zellij_path: String,
}

/// Pane listings kept for [`PANE_CACHE_TTL_MS`] so that one action does not
/// ask Zellij for the same list over and over.
#[derive(Debug)]
pub struct PaneCache {
    pub data: Option<CachedPanes>,
}

/// Whether a listing taken at `taken` is still fresh at `now` (a clock that
/// reads earlier than the listing counts as no time elapsed).
pub open spec fn is_fresh(taken: u64, now: u64) -> bool {
    now <= taken || now - taken < PANE_CACHE_TTL_MS
}

/// The listing the cache answers with for `zellij` at `now`.
pub open spec fn cache_lookup(data: Option<CachedPanes>, zellij: Seq<char>, now: u64) -> Option<
    Seq<PaneInfo>,
> {
    match data {
        Some(c) => if c.zellij_path@ == zellij && is_fresh(c.timestamp_ms, now) {
            Some(c.panes@)
        } else {
            None
        },
        None => None,
    }
}

/// A copy of a pane listing.
pub fn copy_panes(v: &Vec<PaneInfo>) -> (res: Vec<PaneInfo>)
    ensures
        res@ == v@,
{
    let mut out: Vec<PaneInfo> = Vec::new();
    let mut i: usize = 0;
    while i < v.len()
        invariant
            i <= v.len(),
            out@ == v@.take(i as int),
        decreases v.len() - i,
    {
        out.push(v[i].duplicate());
        i = i + 1;
        assert(out@ =~= v@.take(i as int));
    }
    assert(v@.take(v.len() as int) =~= v@);
    out
}

impl PaneCache {
    pub fn new() -> (res: Self)
        ensures
            res.data is None,
    {
        PaneCache { data: None }
    }

    /// The cached listing for `zellij` if it is still fresh at `now_ms`.
    pub fn lookup(&self, zellij: &str, now_ms: u64) -> (res: Option<Vec<PaneInfo>>)
        ensures
            match res {
                Some(v) => cache_lookup(self.data, zellij@, now_ms) == Some(v@),
                None => cache_lookup(self.data, zellij@, now_ms) is None,
            },
    {
        match &self.data {
            Some(c) => {
                let fresh = now_ms <= c.timestamp_ms || now_ms - c.timestamp_ms
                    < PANE_CACHE_TTL_MS;
                if str_eq(c.zellij_path.as_str(), zellij) && fresh {
                    Some(copy_panes(&c.panes))
                } else {
                    None
                }
            },
            None => None,
        }
    }

    /// Remembers a fresh listing taken at `now_ms`.
    pub fn store(&mut self, zellij: &str, panes: &Vec<PaneInfo>, now_ms: u64)
        ensures
            final(self).data matches Some(c) && c.zellij_path@ == zellij@ && c.panes@ == panes@
                && c.timestamp_ms == now_ms,
    {
        self.data = Some(
            CachedPanes {
                timestamp_ms: now_ms,
                panes: copy_panes(panes),
                zellij_path: string_of(zellij),
            },
        );
    }

    /// Forgets the cached listing.
    pub fn invalidate(&mut self)
        ensures
            final(self).data is None,
    {
        self.data = None;
    }

    pub fn is_empty(&self) -> (res: bool)
        ensures
            res == self.data is None,
    {
        self.data.is_none()
    }
}

/// A listing read back right after it was stored is the stored listing, for
/// the same Zellij binary and within the freshness window; after
/// invalidation nothing is read back.
pub proof fn lemma_cache_read_after_store(
    zellij: Seq<char>,
    panes: Seq<PaneInfo>,
    taken: u64,
    now: u64,
    stored: CachedPanes,
)
    requires
        stored.zellij_path@ == zellij,
        stored.panes@ == panes,
        stored.timestamp_ms == taken,
        is_fresh(taken, now),
    ensures
        cache_lookup(Some(stored), zellij, now) == Some(panes),
        cache_lookup(None, zellij, now) is None,
{
}

// ---------------------------------------------------------------------------
// Terminal toggles
// ---------------------------------------------------------------------------

#[derive(Debug, Clone, Copy, PartialEq, Eq, Structural)]
pub enum TerminalStep {
    /// `zellij action toggle-fullscreen` on the pane with this id.
    ToggleFullscreen(u64),
    /// `zellij action focus-pane-id` on the pane with this id.
    Focus(u64),
}

#[derive(Debug)]
pub enum TerminalPlan {
    /// No editor pane is listed.
    MissingEditor,
    /// The terminal was closed: dock a fresh one beside the editor at this index.
    Respawn(usize),
    /// Run these steps in order.
    Steps(Vec<TerminalStep>),
}

/// The steps of a terminal action when both panes exist. Both actions rely
/// on Zellij fullscreen, which hides the other panes without stopping them.
pub open spec fn terminal_steps_spec(action: TerminalAction, editor: PaneInfo, terminal: PaneInfo) -> Seq<
    TerminalStep,
> {
    let hidden = editor.is_fullscreen;
    let zoomed = terminal.is_fullscreen;
    match action {
        TerminalAction::Toggle => if hidden {
            seq![TerminalStep::ToggleFullscreen(editor.id), TerminalStep::Focus(terminal.id)]
        } else if zoomed {
            seq![TerminalStep::ToggleFullscreen(terminal.id), TerminalStep::ToggleFullscreen(editor.id)]
        } else {
            seq![TerminalStep::ToggleFullscreen(editor.id)]
        },
        TerminalAction::Zoom => if zoomed {
            seq![TerminalStep::ToggleFullscreen(terminal.id)]
        } else if hidden {
            seq![TerminalStep::ToggleFullscreen(editor.id), TerminalStep::ToggleFullscreen(terminal.id)]
        } else {
            seq![TerminalStep::ToggleFullscreen(terminal.id)]
        },
    }
}

/// What a terminal action does with the listed panes.
pub fn terminal_action(panes: &Vec<PaneInfo>, action: TerminalAction) -> (res: TerminalPlan)
    ensures
        match res {
            TerminalPlan::MissingEditor => first_titled(panes@, EDITOR_PANE@) is None,
            TerminalPlan::Respawn(e) => first_titled(panes@, EDITOR_PANE@) == Some(e as int)
                && first_titled(panes@, TERMINAL_PANE@) is None,
            TerminalPlan::Steps(steps) => exists|e: int, t: int|
                first_titled(panes@, EDITOR_PANE@) == Some(e) && first_titled(
                    panes@,
                    TERMINAL_PANE@,
                ) == Some(t) && steps@ == terminal_steps_spec(action, panes@[e], panes@[t]),
        },
{
    let e = match find_titled(panes, EDITOR_PANE) {
        Some(e) => e,
        None => {
            return TerminalPlan::MissingEditor;
        },
    };
    let t = match find_titled(panes, TERMINAL_PANE) {
        Some(t) => t,
        None => {
            return TerminalPlan::Respawn(e);
        },
    };
    let editor = &panes[e];
    let terminal = &panes[t];
    let hidden = editor.is_fullscreen;
    let zoomed = terminal.is_fullscreen;
    let mut steps: Vec<TerminalStep> = Vec::new();
    match action {
        TerminalAction::Toggle => {
            if hidden {
                steps.push(TerminalStep::ToggleFullscreen(editor.id));
                steps.push(TerminalStep::Focus(terminal.id));
            } else {
                if zoomed {
                    steps.push(TerminalStep::ToggleFullscreen(terminal.id));
                }
                steps.push(TerminalStep::ToggleFullscreen(editor.id));
            }
        },
        TerminalAction::Zoom => {
            if zoomed {
                steps.push(TerminalStep::ToggleFullscreen(terminal.id));
            } else {
                if hidden {
                    steps.push(TerminalStep::ToggleFullscreen(editor.id));
                }
                steps.push(TerminalStep::ToggleFullscreen(terminal.id));
            }
        },
    }
    assert(steps@ =~= terminal_steps_spec(action, panes@[e as int], panes@[t as int]));
    TerminalPlan::Steps(steps)
}

/// Fullscreen flags of the editor and the terminal after the steps run.
pub open spec fn apply_terminal_steps(steps: Seq<TerminalStep>, editor_id: u64, terminal_id: u64, state: (
    bool,
    bool,
)) -> (bool, bool)
    decreases steps.len(),
{
    if steps.len() == 0 {
        state
    } else {
        let (e, t) = state;
        let next = match steps[0] {
            TerminalStep::ToggleFullscreen(id) => if id == editor_id {
                (!e, t)
            } else if id == terminal_id {
                (e, !t)
            } else {
                (e, t)
            },
            TerminalStep::Focus(_) => (e, t),
        };
        apply_terminal_steps(steps.drop_first(), editor_id, terminal_id, next)
    }
}

pub proof fn lemma_apply_one(step: TerminalStep, editor_id: u64, terminal_id: u64, state: (bool, bool))
    ensures
        apply_terminal_steps(seq![step], editor_id, terminal_id, state) == match step {
            TerminalStep::ToggleFullscreen(id) => if id == editor_id {
                (!state.0, state.1)
            } else if id == terminal_id {
                (state.0, !state.1)
            } else {
                state
            },
            TerminalStep::Focus(_) => state,
        },
{
    reveal_with_fuel(apply_terminal_steps, 2);
    assert(seq![step].drop_first() =~= Seq::<TerminalStep>::empty());
}

pub proof fn lemma_apply_two(
    a: TerminalStep,
    b: TerminalStep,
    editor_id: u64,
    terminal_id: u64,
    state: (bool, bool),
)
    ensures
        apply_terminal_steps(seq![a, b], editor_id, terminal_id, state) == apply_terminal_steps(
            seq![b],
            editor_id,
            terminal_id,
            apply_terminal_steps(seq![a], editor_id, terminal_id, state),
        ),
{
    lemma_apply_one(a, editor_id, terminal_id, state);
    assert(seq![a, b].drop_first() =~= seq![b]);
}

/// `Alt-t` flips whether the terminal is hidden behind a fullscreen editor
/// and leaves it un-zoomed; `Alt-Shift-t` flips whether the terminal is
/// zoomed and leaves the editor out of fullscreen (README: terminal states).
/// At most one of the two panes is fullscreen, as in a Zellij tab.
pub proof fn lemma_terminal_actions_flip(editor: PaneInfo, terminal: PaneInfo)
    requires
        editor.id != terminal.id,
        !(editor.is_fullscreen && terminal.is_fullscreen),
    ensures
        apply_terminal_steps(
            terminal_steps_spec(TerminalAction::Toggle, editor, terminal),
            editor.id,
            terminal.id,
            (editor.is_fullscreen, terminal.is_fullscreen),
        ) == (!editor.is_fullscreen, false),
        apply_terminal_steps(
            terminal_steps_spec(TerminalAction::Zoom, editor, terminal),
            editor.id,
            terminal.id,
            (editor.is_fullscreen, terminal.is_fullscreen),
        ) == (false, !terminal.is_fullscreen),
{
    let st = (editor.is_fullscreen, terminal.is_fullscreen);
    let fe = TerminalStep::ToggleFullscreen(editor.id);
    let ft = TerminalStep::ToggleFullscreen(terminal.id);
    let fo = TerminalStep::Focus(terminal.id);
    lemma_apply_one(fe, editor.id, terminal.id, st);
    lemma_apply_one(ft, editor.id, terminal.id, st);
    lemma_apply_two(fe, fo, editor.id, terminal.id, st);
    lemma_apply_one(fo, editor.id, terminal.id, (!st.0, st.1));
    lemma_apply_two(ft, fe, editor.id, terminal.id, st);
    lemma_apply_one(fe, editor.id, terminal.id, (st.0, !st.1));
    lemma_apply_two(fe, ft, editor.id, terminal.id, st);
    lemma_apply_one(ft, editor.id, terminal.id, (!st.0, st.1));
}

/// When the terminal has to be respawned: the axis it is sized along and the
/// border of the new pane that grows towards the editor.
pub open spec fn respawn_geometry_spec(position: DockPosition) -> (Axis, Seq<char>) {
    match position {
        DockPosition::Down => (Axis::Rows, "up"@),
        DockPosition::Right => (Axis::Columns, "left"@),
    }
}

pub fn respawn_geometry(position: DockPosition) -> (res: (Axis, &'static str))
    ensures
        res.0 == respawn_geometry_spec(position).0,
        res.1@ == respawn_geometry_spec(position).1,
{
    match position {
        DockPosition::Down => (Axis::Rows, "up"),
        DockPosition::Right => (Axis::Columns, "left"),
    }
}

// ---------------------------------------------------------------------------
// File manager
// ---------------------------------------------------------------------------

#[derive(Debug, Clone, Copy, PartialEq, Eq, Structural)]
pub enum FileManagerPlan {
    /// Close the existing file manager (index `pane`) and reopen it the other
    /// way round (floating or docked left of the editor at index `editor`).
    ToggleExistingDock { pane: usize, editor: usize },
    /// Focus the existing file manager at this index.
    FocusExisting(usize),
    /// Turn the helper pane with this id into the floating file manager.
    BecomeFloating(u64),
    /// Open a file manager on the code tab with this id and wait for it.
    SpawnOnCodeTab(u64),
    /// Rename the helper pane with this id and run the file manager in it.
    RenameAndRun(u64),
    /// Neither a source pane nor `ZELLIJ_PANE_ID` names the helper pane.
    MissingPaneId,
    /// No editor pane is listed.
    MissingEditor,
}

/// What a file-manager key press does. `source_pane_id` comes with a daemon
/// request; `env_pane_id` is the parsed `ZELLIJ_PANE_ID`, used when there is
/// no source pane.
pub open spec fn file_manager_plan_spec(
    panes: Seq<PaneInfo>,
    action: FileManagerAction,
    source_pane_id: Option<u64>,
    env_pane_id: Option<u64>,
) -> FileManagerPlan {
    let existing = first_titled(panes, FILE_MANAGER_PANE@);
    let editor = first_titled(panes, EDITOR_PANE@);
    if action == FileManagerAction::ToggleDock && existing is Some {
        match editor {
            Some(e) => FileManagerPlan::ToggleExistingDock {
                pane: existing->0 as usize,
                editor: e as usize,
            },
            None => FileManagerPlan::MissingEditor,
        }
    } else if action == FileManagerAction::Open && existing is Some {
        FileManagerPlan::FocusExisting(existing->0 as usize)
    } else {
        let current = if source_pane_id is Some {
            source_pane_id
        } else {
            env_pane_id
        };
        match current {
            None => FileManagerPlan::MissingPaneId,
            Some(id) => match editor {
                None => FileManagerPlan::MissingEditor,
                Some(e) => if action == FileManagerAction::ToggleDock {
                    FileManagerPlan::BecomeFloating(id)
                } else if action != FileManagerAction::Run && (exists|i: int|
                    0 <= i < panes.len() && !(#[trigger] panes[i]).is_plugin && panes[i].id == id
                        && (forall|j: int|
                        0 <= j < i ==> !(!(#[trigger] panes[j]).is_plugin && panes[j].id == id))
                        && panes[i].tab_id != panes[e].tab_id) {
                    FileManagerPlan::SpawnOnCodeTab(panes[e].tab_id)
                } else {
                    FileManagerPlan::RenameAndRun(id)
                },
            },
        }
    }
}

/// The pane a file-manager plan acts on is the request's source pane when
/// there is one: `ZELLIJ_PANE_ID` then changes nothing, and a helper pane
/// that is turned into the file manager (or renamed and taken over) is the
/// source pane. Without a source pane, `ZELLIJ_PANE_ID` plays its part.
pub proof fn lemma_source_pane_wins(
    panes: Seq<PaneInfo>,
    action: FileManagerAction,
    source: u64,
    env_a: Option<u64>,
    env_b: Option<u64>,
)
    ensures
        file_manager_plan_spec(panes, action, Some(source), env_a) == file_manager_plan_spec(
            panes,
            action,
            Some(source),
            env_b,
        ),
        file_manager_plan_spec(panes, action, Some(source), env_a) matches FileManagerPlan::BecomeFloating(id)
            ==> id == source,
        file_manager_plan_spec(panes, action, Some(source), env_a) matches FileManagerPlan::RenameAndRun(id)
            ==> id == source,
        file_manager_plan_spec(panes, action, None, Some(source)) == file_manager_plan_spec(
            panes,
            action,
            Some(source),
            None,
        ),
        file_manager_plan_spec(panes, action, Some(source), env_a) != FileManagerPlan::MissingPaneId,
        file_manager_plan_spec(panes, action, Some(source), env_a) matches FileManagerPlan::SpawnOnCodeTab(t)
            ==> exists|i: int|
            0 <= i < panes.len() && !(#[trigger] panes[i]).is_plugin && panes[i].id == source
                && panes[i].tab_id != t,
{
}

/// Index of the first terminal pane with this id (the one the helper runs in).
pub fn find_first_pane_id(panes: &Vec<PaneInfo>, id: u64) -> (res: Option<usize>)
    ensures
        match res {
            Some(i) => i < panes@.len() && !panes@[i as int].is_plugin && panes@[i as int].id == id
                && forall|j: int|
                0 <= j < i ==> !(!(#[trigger] panes@[j]).is_plugin && panes@[j].id == id),
            None => forall|j: int|
                0 <= j < panes@.len() ==> !(!(#[trigger] panes@[j]).is_plugin && panes@[j].id == id),
        },
{
    let mut i: usize = 0;
    while i < panes.len()
        invariant
            i <= panes.len(),
            forall|j: int| 0 <= j < i ==> !(!(#[trigger] panes@[j]).is_plugin && panes@[j].id == id),
        decreases panes.len() - i,
    {
        if !panes[i].is_plugin && panes[i].id == id {
            return Some(i);
        }
        i = i + 1;
    }
    None
}

/// Decides what a file-manager action does with the listed panes.
pub fn file_manager_plan(
    panes: &Vec<PaneInfo>,
    action: FileManagerAction,
    source_pane_id: Option<u64>,
    env_pane_id: Option<u64>,
) -> (res: FileManagerPlan)
    ensures
        res == file_manager_plan_spec(panes@, action, source_pane_id, env_pane_id),
{
    let existing = find_titled(panes, FILE_MANAGER_PANE);
    let editor = find_titled(panes, EDITOR_PANE);
    match action {
        FileManagerAction::ToggleDock => {
            if let Some(p) = existing {
                return match editor {
                    Some(e) => FileManagerPlan::ToggleExistingDock { pane: p, editor: e },
                    None => FileManagerPlan::MissingEditor,
                };
            }
        },
        FileManagerAction::Open => {
            if let Some(p) = existing {
                return FileManagerPlan::FocusExisting(p);
            }
        },
        FileManagerAction::Run => {},
    }
    let current_id = match source_pane_id {
        Some(id) => id,
        None => match env_pane_id {
            Some(id) => id,
            None => {
                return FileManagerPlan::MissingPaneId;
            },
        },
    };
    let e = match editor {
        Some(e) => e,
        None => {
            return FileManagerPlan::MissingEditor;
        },
    };
    if action == FileManagerAction::ToggleDock {
        return FileManagerPlan::BecomeFloating(current_id);
    }
    let current = find_first_pane_id(panes, current_id);
    if action_is_request(action) {
        if let Some(c) = current {
            if panes[c].tab_id != panes[e].tab_id {
                return FileManagerPlan::SpawnOnCodeTab(panes[e].tab_id);
            }
        }
    }
    proof {
        if action != FileManagerAction::Run {
            if exists|i: int|
                0 <= i < panes@.len() && !(#[trigger] panes@[i]).is_plugin && panes@[i].id
                    == current_id && (forall|j: int|
                    0 <= j < i ==> !(!(#[trigger] panes@[j]).is_plugin && panes@[j].id
                        == current_id)) && panes@[i].tab_id != panes@[e as int].tab_id {
                let i = choose|i: int|
                    0 <= i < panes@.len() && !(#[trigger] panes@[i]).is_plugin && panes@[i].id
                        == current_id && (forall|j: int|
                        0 <= j < i ==> !(!(#[trigger] panes@[j]).is_plugin && panes@[j].id
                            == current_id)) && panes@[i].tab_id != panes@[e as int].tab_id;
                let c = current->0 as int;
                if i < c {
                    assert(!(!panes@[i].is_plugin && panes@[i].id == current_id));
                }
                if c < i {
                    assert(!(!panes@[c].is_plugin && panes@[c].id == current_id));
                }
            }
        }
    }
    FileManagerPlan::RenameAndRun(current_id)
}

#[derive(Debug, Clone, Copy, PartialEq, Eq, Structural)]
pub enum DockToggle {
    /// The docked file manager was closed: float a fresh one from the helper pane.
    FloatFromHelper,
    /// The floating file manager was closed: dock a fresh one left of the editor.
    DockLeft,
}

/// `Alt-y`: a docked file manager floats again, a floating one docks left.
pub fn dock_toggle(was_floating: bool) -> (res: DockToggle)
    ensures
        res == (if was_floating {
            DockToggle::DockLeft
        } else {
            DockToggle::FloatFromHelper
        }),
{
    if was_floating {
        DockToggle::DockLeft
    } else {
        DockToggle::FloatFromHelper
    }
}

// ---------------------------------------------------------------------------
// Resizing a dock against the editor
// ---------------------------------------------------------------------------

/// How close (in points) the share must come to the target.
pub const TOLERANCE_PERCENT: usize = 1;

/// Beyond this many points Zellij's coarse `+`/`-` resize is used.
pub const COARSE_THRESHOLD: usize = 8;

/// The most resize rounds attempted.
pub const MAX_RESIZE_STEPS: usize = 100;

pub open spec fn abs_diff(a: int, b: int) -> int {
    if a >= b {
        a - b
    } else {
        b - a
    }
}

#[derive(Debug, Clone, Copy, PartialEq, Eq, Structural)]
pub enum ResizeStep {
    /// `zellij action resize + / -`, about five points at a time.
    Coarse { grow: bool },
    /// `zellij action resize increase / decrease <border>`.
    Fine { grow: bool },
}

/// The next resize towards `target`, or none once within tolerance.
pub open spec fn resize_step_spec(current: int, target: int) -> Option<ResizeStep> {
    let diff = abs_diff(current, target);
    if diff <= TOLERANCE_PERCENT {
        None
    } else if diff > COARSE_THRESHOLD {
        Some(ResizeStep::Coarse { grow: current < target })
    } else {
        Some(ResizeStep::Fine { grow: current < target })
    }
}

pub fn resize_step(current: usize, target: usize) -> (res: Option<ResizeStep>)
    ensures
        res == resize_step_spec(current as int, target as int),
{
    let diff = if current >= target {
        current - target
    } else {
        target - current
    };
    if diff <= TOLERANCE_PERCENT {
        None
    } else if diff > COARSE_THRESHOLD {
        Some(ResizeStep::Coarse { grow: current < target })
    } else {
        Some(ResizeStep::Fine { grow: current < target })
    }
}

pub open spec fn resize_argument_spec(step: ResizeStep) -> Seq<char> {
    match step {
        ResizeStep::Coarse { grow } => if grow {
            "+"@
        } else {
            "-"@
        },
        ResizeStep::Fine { grow } => if grow {
            "increase"@
        } else {
            "decrease"@
        },
    }
}

/// The resize argument Zellij takes for a step.
pub fn resize_argument(step: ResizeStep) -> (res: &'static str)
    ensures
        res@ == resize_argument_spec(step),
{
    match step {
        ResizeStep::Coarse { grow } => if grow {
            "+"
        } else {
            "-"
        },
        ResizeStep::Fine { grow } => if grow {
            "increase"
        } else {
            "decrease"
        },
    }
}

#[derive(Debug, Clone, Copy, PartialEq, Eq, Structural)]
pub enum ResizeOutcome {
    /// Close enough to the target.
    Done,
    /// A fine step moved away from the target: take it back (grow if true) and stop.
    Undo { grow: bool },
    /// Measure again and take another step.
    Continue,
}

/// After a step from `current` gave `after`: stop when within tolerance; a
/// fine step that did not bring the share closer is undone and ends the
/// resize (coarse steps commonly overshoot and are followed by fine ones).
pub open spec fn after_resize_spec(current: int, target: int, after: int, coarse: bool) -> ResizeOutcome {
    let diff = abs_diff(current, target);
    let now = abs_diff(after, target);
    if now <= TOLERANCE_PERCENT {
        ResizeOutcome::Done
    } else if now >= diff && !coarse {
        ResizeOutcome::Undo { grow: current > target }
    } else {
        ResizeOutcome::Continue
    }
}

pub fn after_resize(current: usize, target: usize, after: usize, coarse: bool) -> (res: ResizeOutcome)
    ensures
        res == after_resize_spec(current as int, target as int, after as int, coarse),
{
    let diff = if current >= target {
        current - target
    } else {
        target - current
    };
    let now = if after >= target {
        after - target
    } else {
        target - after
    };
    if now <= TOLERANCE_PERCENT {
        ResizeOutcome::Done
    } else if now >= diff && !coarse {
        ResizeOutcome::Undo { grow: current > target }
    } else {
        ResizeOutcome::Continue
    }
}

/// Every resize step moves towards the target, and an undo moves back the
/// other way than the step it takes back.
pub proof fn lemma_resize_moves_towards_target(current: int, target: int, after: int)
    ensures
        resize_step_spec(current, target) matches Some(ResizeStep::Coarse { grow }) ==> (grow
            <==> current < target),
        resize_step_spec(current, target) matches Some(ResizeStep::Fine { grow }) ==> (grow
            <==> current < target),
        resize_step_spec(current, target) is None <==> abs_diff(current, target) <= TOLERANCE_PERCENT,
        after_resize_spec(current, target, after, false) matches ResizeOutcome::Undo { grow } ==> (
        grow <==> !(current < target)) || current == target,
{
}

/// What the resize loop does next.
#[derive(Debug, Clone, Copy, PartialEq, Eq, Structural)]
pub enum ResizeAction {
    /// List the panes afresh (never from the cache) and report the share.
    Measure,
    /// Take this step; then measure again.
    Resize { step: ResizeStep },
    /// Take back the last fine step (grow if true) and stop.
    Undo { grow: bool },
    /// Stop resizing.
    Stop,
}

/// The state of one resize of a pane against the editor: the share wanted,
/// the steps taken so far (at most [`MAX_RESIZE_STEPS`]), the share measured
/// before the step just taken and whether that step was coarse, and whether
/// the run has ended.
pub struct ResizeRun {
    pub target: usize,
    pub steps_taken: usize,
    pub pending: Option<(usize, bool)>,
    pub finished: bool,
}

impl ResizeRun {
    pub open spec fn well_formed(&self) -> bool {
        &&& self.steps_taken <= MAX_RESIZE_STEPS
        &&& self.pending is Some ==> self.steps_taken >= 1
    }

    /// How many more measurements the run may still ask for: two per step
    /// left (one before it, one after it), one fewer while a step waits for
    /// its measurement after.
    pub open spec fn measures_left(&self) -> int {
        if self.finished {
            0
        } else if self.pending is Some {
            1 + 2 * (MAX_RESIZE_STEPS - self.steps_taken)
        } else {
            2 * (MAX_RESIZE_STEPS - self.steps_taken)
        }
    }

    /// A run towards `target` that has taken no step yet.
    pub fn new(target: usize) -> (res: Self)
        ensures
            res.well_formed(),
            res.target == target,
            res.steps_taken == 0,
            res.pending is None,
            !res.finished,
            res.measures_left() == 2 * MAX_RESIZE_STEPS,
    {
        ResizeRun { target, steps_taken: 0, pending: None, finished: false }
    }

    /// The first action: measure, unless the step budget is spent.
    pub fn begin(&self) -> (res: ResizeAction)
        requires
            self.well_formed(),
        ensures
            res == (if !self.finished && self.pending is None && self.steps_taken < MAX_RESIZE_STEPS {
                ResizeAction::Measure
            } else {
                ResizeAction::Stop
            }),
            res is Measure ==> self.measures_left() > 0,
    {
        if !self.finished && self.pending.is_none() && self.steps_taken < MAX_RESIZE_STEPS {
            ResizeAction::Measure
        } else {
            ResizeAction::Stop
        }
    }

    /// Takes the share just measured (`None` when the subject or the editor
    /// pane is missing or their summed size is zero) and says what to do next.
    /// Before a step: stop when the share is missing or within tolerance,
    /// else take the step of [`resize_step_spec`] and count it. After a step:
    /// stop when the share is missing or within tolerance, undo a fine step
    /// that did not come closer, else measure again while steps are left.
    pub fn on_measure(&mut self, share: Option<usize>) -> (res: ResizeAction)
        requires
            old(self).well_formed(),
            old(self).measures_left() > 0,
        ensures
            final(self).well_formed(),
            final(self).target == old(self).target,
            final(self).measures_left() <= old(self).measures_left() - 1,
            res is Measure || res is Resize ==> final(self).measures_left() > 0,
            res is Resize ==> old(self).steps_taken < MAX_RESIZE_STEPS && final(self).steps_taken
                == old(self).steps_taken + 1,
            !(res is Resize) ==> final(self).steps_taken == old(self).steps_taken,
            res is Undo || res is Stop ==> final(self).finished,
            match old(self).pending {
                None => match share {
                    None => res is Stop,
                    Some(c) => match resize_step_spec(c as int, old(self).target as int) {
                        None => res is Stop,
                        Some(step) => res == ResizeAction::Resize { step } && final(self).pending
                            == Some((c, step is Coarse)),
                    },
                },
                Some((before, coarse)) => match share {
                    None => res is Stop,
                    Some(after) => match after_resize_spec(
                        before as int,
                        old(self).target as int,
                        after as int,
                        coarse,
                    ) {
                        ResizeOutcome::Done => res is Stop,
                        ResizeOutcome::Undo { grow } => res == ResizeAction::Undo { grow },
                        ResizeOutcome::Continue => res == (if old(self).steps_taken
                            < MAX_RESIZE_STEPS {
                            ResizeAction::Measure
                        } else {
                            ResizeAction::Stop
                        }),
                    },
                },
            },
    {
        match self.pending {
            None => {
                match share {
                    None => {
                        self.finished = true;
                        ResizeAction::Stop
                    },
                    Some(c) => match resize_step(c, self.target) {
                        None => {
                            self.finished = true;
                            ResizeAction::Stop
                        },
                        Some(step) => {
                            let coarse = match step {
                                ResizeStep::Coarse { .. } => true,
                                ResizeStep::Fine { .. } => false,
                            };
                            self.pending = Some((c, coarse));
                            self.steps_taken = self.steps_taken + 1;
                            ResizeAction::Resize { step }
                        },
                    },
                }
            },
            Some((before, coarse)) => {
                self.pending = None;
                match share {
                    None => {
                        self.finished = true;
                        ResizeAction::Stop
                    },
                    Some(after) => match after_resize(before, self.target, after, coarse) {
                        ResizeOutcome::Done => {
                            self.finished = true;
                            ResizeAction::Stop
                        },
                        ResizeOutcome::Undo { grow } => {
                            self.finished = true;
                            ResizeAction::Undo { grow }
                        },
                        ResizeOutcome::Continue => {
                            if self.steps_taken < MAX_RESIZE_STEPS {
                                ResizeAction::Measure
                            } else {
                                self.finished = true;
                                ResizeAction::Stop
                            }
                        },
                    },
                }
            },
        }
    }
}

/// A resize run asks for at most `2 * MAX_RESIZE_STEPS` measurements and
/// takes at most `MAX_RESIZE_STEPS` steps: each measurement uses up one of
/// the measurements left, each step one of the steps left, and a run only
/// asks for a measurement while one is left.
pub proof fn lemma_resize_budget(run: ResizeRun)
    requires
        run.well_formed(),
    ensures
        0 <= run.measures_left() <= 2 * MAX_RESIZE_STEPS + 1,
        run.steps_taken == 0 && run.pending is None && !run.finished ==> run.measures_left() == 2
            * MAX_RESIZE_STEPS,
        MAX_RESIZE_STEPS - run.steps_taken >= 0,
{
}

// ---------------------------------------------------------------------------
// Zellij command lines
// ---------------------------------------------------------------------------

pub open spec fn views(v: Seq<String>) -> Seq<Seq<char>> {
    v.map_values(|s: String| s@)
}

fn push_lit(v: &mut Vec<String>, s: &str)
    ensures
        views(final(v)@) == views(old(v)@).push(s@),
{
    v.push(string_of(s));
    assert(views(v@) =~= views(old(v)@).push(s@));
}

fn push_all(v: &mut Vec<String>, more: &Vec<String>)
    ensures
        views(final(v)@) == views(old(v)@) + views(more@),
{
    let ghost start = views(v@);
    let mut i: usize = 0;
    while i < more.len()
        invariant
            i <= more.len(),
            views(v@) == start + views(more@.take(i as int)),
        decreases more.len() - i,
    {
        let c = more[i].clone();
        let ghost before = v@;
        v.push(c);
        assert(views(v@) =~= views(before).push(more@[i as int]@));
        assert(more@.take(i + 1) =~= more@.take(i as int).push(more@[i as int]));
        assert(views(more@.take(i + 1)) =~= views(more@.take(i as int)).push(more@[i as int]@));
        i = i + 1;
        assert(views(v@) =~= start + views(more@.take(i as int)));
    }
    assert(more@.take(more.len() as int) =~= more@);
}

/// Arguments of `zellij` that open the Git client full-screen and floating
/// on the editor's tab.
pub open spec fn git_pane_args_spec(tab_id: u64, git_command: Seq<char>, git_args: Seq<String>) -> Seq<
    Seq<char>,
> {
    seq![
        "action"@,
        "new-pane"@,
        "--close-on-exit"@,
        "--name"@,
        "git"@,
        "--tab-id"@,
        decimal(tab_id as nat),
        "--floating"@,
        "--x"@,
        "0%"@,
        "--y"@,
        "0%"@,
        "--width"@,
        "100%"@,
        "--height"@,
        "100%"@,
        "--"@,
        git_command,
    ] + views(git_args)
}

pub fn git_pane_args(tab_id: u64, git_command: &str, git_args: &Vec<String>) -> (res: Vec<String>)
    ensures
        views(res@) == git_pane_args_spec(tab_id, git_command@, git_args@),
{
    let mut v: Vec<String> = Vec::new();
    push_lit(&mut v, "action");
    push_lit(&mut v, "new-pane");
    push_lit(&mut v, "--close-on-exit");
    push_lit(&mut v, "--name");
    push_lit(&mut v, "git");
    push_lit(&mut v, "--tab-id");
    let tab = u64_to_decimal(tab_id);
    push_lit(&mut v, tab.as_str());
    push_lit(&mut v, "--floating");
    push_lit(&mut v, "--x");
    push_lit(&mut v, "0%");
    push_lit(&mut v, "--y");
    push_lit(&mut v, "0%");
    push_lit(&mut v, "--width");
    push_lit(&mut v, "100%");
    push_lit(&mut v, "--height");
    push_lit(&mut v, "100%");
    push_lit(&mut v, "--");
    push_lit(&mut v, git_command);
    push_all(&mut v, git_args);
    assert(views(v@) =~= git_pane_args_spec(tab_id, git_command@, git_args@));
    v
}

/// Arguments of `zellij` that open a file-manager pane running
/// `sat-hx-ide --config <config> __file-manager run` on a tab, floating at
/// the configured size when asked to.
pub open spec fn file_manager_pane_args_spec(
    tab_id: u64,
    floating: bool,
    float_width: Seq<char>,
    float_height: Seq<char>,
    executable: Seq<char>,
    config_path: Seq<char>,
) -> Seq<Seq<char>> {
    let head = seq![
        "action"@,
        "new-pane"@,
        "--close-on-exit"@,
        "--name"@,
        FILE_MANAGER_PANE@,
        "--tab-id"@,
        decimal(tab_id as nat),
    ];
    let float = if floating {
        seq![
            "--floating"@,
            "--x"@,
            "0%"@,
            "--y"@,
            "0%"@,
            "--width"@,
            float_width,
            "--height"@,
            float_height,
        ]
    } else {
        Seq::empty()
    };
    head + float + seq!["--"@, executable, "--config"@, config_path, "__file-manager"@, "run"@]
}

pub fn file_manager_pane_args(
    tab_id: u64,
    floating: bool,
    float_width: &str,
    float_height: &str,
    executable: &str,
    config_path: &str,
) -> (res: Vec<String>)
    ensures
        views(res@) == file_manager_pane_args_spec(
            tab_id,
            floating,
            float_width@,
            float_height@,
            executable@,
            config_path@,
        ),
{
    let mut v: Vec<String> = Vec::new();
    push_lit(&mut v, "action");
    push_lit(&mut v, "new-pane");
    push_lit(&mut v, "--close-on-exit");
    push_lit(&mut v, "--name");
    push_lit(&mut v, FILE_MANAGER_PANE);
    push_lit(&mut v, "--tab-id");
    let tab = u64_to_decimal(tab_id);
    push_lit(&mut v, tab.as_str());
    if floating {
        push_lit(&mut v, "--floating");
        push_lit(&mut v, "--x");
        push_lit(&mut v, "0%");
        push_lit(&mut v, "--y");
        push_lit(&mut v, "0%");
        push_lit(&mut v, "--width");
        push_lit(&mut v, float_width);
        push_lit(&mut v, "--height");
        push_lit(&mut v, float_height);
    }
    push_lit(&mut v, "--");
    push_lit(&mut v, executable);
    push_lit(&mut v, "--config");
    push_lit(&mut v, config_path);
    push_lit(&mut v, "__file-manager");
    push_lit(&mut v, "run");
    assert(views(v@) =~= file_manager_pane_args_spec(
        tab_id,
        floating,
        float_width@,
        float_height@,
        executable@,
        config_path@,
    ));
    v
}

/// The files chosen in the file manager: the non-empty lines of its chooser
/// file.
pub open spec fn chooser_selections_spec(content: Seq<char>) -> Seq<Seq<char>> {
    lines(content).filter(|l: Seq<char>| l.len() > 0)
}

pub fn chooser_selections(content: &str) -> (res: Vec<String>)
    ensures
        views(res@) == chooser_selections_spec(content@),
{
    let cs = chars_of(content);
    let ls = split_lines(cs.as_slice());
    let ghost all = lines(content@);
    let ghost pred = |l: Seq<char>| l.len() > 0;
    let mut out: Vec<String> = Vec::new();
    let mut i: usize = 0;
    while i < ls.len()
        invariant
            i <= ls.len(),
            cs@ == content@,
            all == lines(content@),
            pred == (|l: Seq<char>| l.len() > 0),
            ls@.len() == all.len(),
            forall|k: int| 0 <= k < ls@.len() ==> (#[trigger] ls@[k])@ == all[k],
            views(out@) == all.take(i as int).filter(pred),
        decreases ls.len() - i,
    {
        reveal_with_fuel(Seq::<_>::filter, 1);
        assert(all.take(i + 1).drop_last() =~= all.take(i as int));
        assert(all.take(i + 1).last() == ls@[i as int]@);
        if ls[i].len() > 0 {
            let ghost before = out@;
            out.push(string_from_chars(&ls[i]));
            assert(views(out@) =~= views(before).push(ls@[i as int]@));
        }
        i = i + 1;
    }
    assert(all.take(ls.len() as int) =~= all);
    out
}

} // verus!
