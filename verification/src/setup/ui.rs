//! The state of the tool selection screen: the selections, the rows shown
//! (a header per category, then its tools), the cursor, and what each key
//! does. Drawing and reading keys is left to the caller.

use crate::setup::catalog::{
    all_categories, all_tools, category_label, method_label, next_method, tool_category, tool_methods,
    tool_name, Category, InstallMethod, ToolId,
};
use crate::text::{pad_right, push_padded, push_str, string_of};
use crate::setup::detect::{method_available_spec, tool_installed, HostInfo};
use crate::setup::config_write::{tool_index, tool_index_of};
use crate::setup::plan::ToolSelection;
use vstd::prelude::*;

verus! {

/// One row of the selection list.
#[derive(Debug, Clone, Copy, PartialEq, Eq, Structural)]
pub enum RowKind {
    Header(Category),
    /// The selection at this index.
    Tool(usize),
}

/// The keys the selection screen reacts to.
#[derive(Debug, Clone, Copy, PartialEq, Eq, Structural)]
pub enum SetupKey {
    /// `q` or Escape.
    Quit,
    /// Enter.
    Confirm,
    /// Up or `k`.
    Up,
    /// Down or `j`.
    Down,
    /// Space.
    Toggle,
    /// `m`.
    CycleMethod,
    /// `a`.
    ToggleCategory,
    Other,
}

#[derive(Debug)]
pub struct SetupApp {
    pub selections: Vec<ToolSelection>,
    pub rows: Vec<RowKind>,
    pub cursor: usize,
    pub dry_run: bool,
    pub confirmed: bool,
    pub quit: bool,
    pub host: HostInfo,
}

pub open spec fn available_spec(host: HostInfo, tool: ToolId) -> Seq<InstallMethod> {
    tool_methods(tool).filter(|m: InstallMethod| method_available_spec(host, tool, m))
}

pub open spec fn is_recommended(t: ToolId) -> bool {
    t == ToolId::Zellij || t == ToolId::Helix || t == ToolId::Yazi || t == ToolId::Lazygit || t
        == ToolId::Revdiff || t == ToolId::GlabTui
}

/// The tool's default method when the host offers it (or offers nothing),
/// else the first method the host offers.
pub open spec fn initial_method(host: HostInfo, tool: ToolId) -> InstallMethod {
    let ms = available_spec(host, tool);
    if ms.contains(tool_methods(tool)[0]) || ms.len() == 0 {
        tool_methods(tool)[0]
    } else {
        ms[0]
    }
}

/// A missing recommended tool starts selected.
pub open spec fn initial_selection(host: HostInfo, tool: ToolId, installed: bool) -> ToolSelection {
    ToolSelection {
        tool,
        method: initial_method(host, tool),
        selected: !installed && is_recommended(tool),
        already_installed: installed,
    }
}

/// The selections for the first `n` catalog tools; Helix only when it is
/// offered. `installed[i]` tells whether catalog tool `i` is installed.
pub open spec fn initial_selections(host: HostInfo, offer_helix: bool, installed: Seq<bool>, n: int) -> Seq<
    ToolSelection,
>
    decreases n,
{
    if n <= 0 {
        Seq::empty()
    } else {
        let prev = initial_selections(host, offer_helix, installed, n - 1);
        let t = all_tools()[n - 1];
        if t == ToolId::Helix && !offer_helix {
            prev
        } else {
            prev.push(initial_selection(host, t, installed[n - 1]))
        }
    }
}

/// Indices of the first `n` selections whose tool is in category `c`.
pub open spec fn indices_in(sels: Seq<ToolSelection>, c: Category, n: int) -> Seq<usize>
    decreases n,
{
    if n <= 0 {
        Seq::empty()
    } else {
        let p = indices_in(sels, c, n - 1);
        if tool_category(sels[n - 1].tool) == c {
            p.push((n - 1) as usize)
        } else {
            p
        }
    }
}

/// A category's header followed by its tools; nothing for an empty category.
pub open spec fn category_rows(sels: Seq<ToolSelection>, c: Category) -> Seq<RowKind> {
    let ix = indices_in(sels, c, sels.len() as int);
    if ix.len() == 0 {
        Seq::empty()
    } else {
        seq![RowKind::Header(c)] + ix.map_values(|i: usize| RowKind::Tool(i))
    }
}

pub open spec fn rows_upto(sels: Seq<ToolSelection>, k: int) -> Seq<RowKind>
    decreases k,
{
    if k <= 0 {
        Seq::empty()
    } else {
        rows_upto(sels, k - 1) + category_rows(sels, all_categories()[k - 1])
    }
}

/// The rows shown for the selections, category by category.
pub open spec fn rows_spec(sels: Seq<ToolSelection>) -> Seq<RowKind> {
    rows_upto(sels, all_categories().len() as int)
}

/// The first tool row at or after `pos`.
pub open spec fn scan_down(rows: Seq<RowKind>, pos: int) -> Option<int>
    decreases rows.len() - pos,
{
    if pos < 0 || pos >= rows.len() {
        None
    } else if rows[pos] is Tool {
        Some(pos)
    } else {
        scan_down(rows, pos + 1)
    }
}

/// The last tool row at or before `pos`.
pub open spec fn scan_up(rows: Seq<RowKind>, pos: int) -> Option<int>
    decreases pos + 1,
{
    if pos < 0 || pos >= rows.len() {
        None
    } else if rows[pos] is Tool {
        Some(pos)
    } else {
        scan_up(rows, pos - 1)
    }
}

pub open spec fn tool_row(r: RowKind) -> Option<usize> {
    match r {
        RowKind::Tool(i) => Some(i),
        RowKind::Header(_) => None,
    }
}

/// The selection a category toggle leaves: with any tool of the category
/// off, all of its tools that can be had are switched on; otherwise all are
/// switched off.
pub open spec fn category_toggled(host: HostInfo, sels: Seq<ToolSelection>, c: Category) -> Seq<
    ToolSelection,
> {
    let any_off = exists|j: int|
        0 <= j < sels.len() && tool_category(#[trigger] sels[j].tool) == c && !sels[j].selected;
    Seq::new(
        sels.len(),
        |i: int|
            {
                let s = sels[i];
                if tool_category(s.tool) != c {
                    s
                } else if any_off {
                    if available_spec(host, s.tool).len() > 0 || s.already_installed {
                        ToolSelection { selected: true, ..s }
                    } else {
                        s
                    }
                } else {
                    ToolSelection { selected: false, ..s }
                }
            },
    )
}

proof fn lemma_indices_bounded(sels: Seq<ToolSelection>, c: Category, n: int)
    requires
        0 <= n <= sels.len(),
    ensures
        forall|k: int| 0 <= k < indices_in(sels, c, n).len() ==> #[trigger] indices_in(sels, c, n)[k] < n,
    decreases n,
{
    if n > 0 {
        lemma_indices_bounded(sels, c, n - 1);
        let p = indices_in(sels, c, n - 1);
        assert forall|k: int| 0 <= k < indices_in(sels, c, n).len() implies #[trigger] indices_in(sels, c, n)[k] < n by {
            if k < p.len() {
                assert(indices_in(sels, c, n)[k] == p[k]);
            }
        }
    }
}

proof fn lemma_rows_bounded(sels: Seq<ToolSelection>, k: int)
    requires
        0 <= k <= all_categories().len(),
    ensures
        forall|j: int|
            0 <= j < rows_upto(sels, k).len() ==> (#[trigger] rows_upto(sels, k)[j] matches RowKind::Tool(i)
                ==> i < sels.len()),
    decreases k,
{
    if k > 0 {
        lemma_rows_bounded(sels, k - 1);
        let c = all_categories()[k - 1];
        lemma_indices_bounded(sels, c, sels.len() as int);
        let prev = rows_upto(sels, k - 1);
        let cr = category_rows(sels, c);
        assert forall|j: int| 0 <= j < rows_upto(sels, k).len() implies (#[trigger] rows_upto(sels, k)[j] matches RowKind::Tool(i)
            ==> i < sels.len()) by {
            if j >= prev.len() {
                let ix = indices_in(sels, c, sels.len() as int);
                let m = j - prev.len();
                if m > 0 {
                    assert(cr[m] == RowKind::Tool(ix[m - 1]));
                }
            }
        }
    }
}

fn contains_method(ms: &Vec<InstallMethod>, m: InstallMethod) -> (res: bool)
    ensures
        res == ms@.contains(m),
{
    let mut i: usize = 0;
    while i < ms.len()
        invariant
            i <= ms.len(),
            forall|j: int| 0 <= j < i ==> ms@[j] != m,
        decreases ms.len() - i,
    {
        if ms[i] == m {
            assert(ms@[i as int] == m);
            return true;
        }
        i = i + 1;
    }
    false
}

/// The first tool row at or after `from`.
fn first_tool_row(rows: &Vec<RowKind>, from: usize) -> (res: Option<usize>)
    ensures
        match res {
            Some(p) => scan_down(rows@, from as int) == Some(p as int) && p < rows@.len(),
            None => scan_down(rows@, from as int) is None,
        },
{
    let mut k: usize = from;
    while k < rows.len()
        invariant
            from <= k,
            scan_down(rows@, from as int) == scan_down(rows@, k as int),
        decreases rows.len() - k,
    {
        if rows[k] matches RowKind::Tool(_) {
            return Some(k);
        }
        k = k + 1;
    }
    None
}

/// The last tool row at or before `from`.
fn last_tool_row(rows: &Vec<RowKind>, from: usize) -> (res: Option<usize>)
    ensures
        match res {
            Some(p) => scan_up(rows@, from as int) == Some(p as int) && p < rows@.len(),
            None => scan_up(rows@, from as int) is None,
        },
{
    if from >= rows.len() {
        return None;
    }
    let mut k: usize = from;
    loop
        invariant
            k <= from < rows.len(),
            scan_up(rows@, from as int) == scan_up(rows@, k as int),
        decreases k,
    {
        if rows[k] matches RowKind::Tool(_) {
            return Some(k);
        }
        if k == 0 {
            return None;
        }
        k = k - 1;
    }
}

impl SetupApp {
    /// Rows refer to existing selections, and the cursor is on a row (or at
    /// zero when there are none).
    pub open spec fn well_formed(&self) -> bool {
        &&& forall|j: int|
            0 <= j < self.rows@.len() ==> (#[trigger] self.rows@[j] matches RowKind::Tool(i)
                ==> i < self.selections@.len())
        &&& if self.rows@.len() > 0 {
            self.cursor < self.rows@.len()
        } else {
            self.cursor == 0
        }
    }

    /// The state for `host`, given whether Helix is offered and, for each
    /// catalog tool, whether it is installed.
    pub fn new_with(host: HostInfo, dry_run: bool, offer_helix: bool, installed: &Vec<bool>) -> (res: Self)
        requires
            installed@.len() == all_tools().len(),
        ensures
            res.well_formed(),
            res.selections@ == initial_selections(host, offer_helix, installed@, all_tools().len() as int),
            res.rows@ == rows_spec(res.selections@),
            res.cursor == match scan_down(res.rows@, 0) {
                Some(p) => p as usize,
                None => 0usize,
            },
            res.dry_run == dry_run,
            !res.confirmed,
            !res.quit,
            res.host == host,
    {
        let tools = crate::setup::catalog::catalog_tools();
        let mut selections: Vec<ToolSelection> = Vec::new();
        let mut i: usize = 0;
        while i < tools.len()
            invariant
                i <= tools.len(),
                tools@ == all_tools(),
                installed@.len() == all_tools().len(),
                selections@ == initial_selections(host, offer_helix, installed@, i as int),
            decreases tools.len() - i,
        {
            let tool = tools[i];
            if !(tool == ToolId::Helix && !offer_helix) {
                let already = installed[i];
                let methods = host.available_methods(tool);
                let default = tool.default_method();
                let method = if contains_method(&methods, default) || methods.len() == 0 {
                    default
                } else {
                    methods[0]
                };
                let selected = !already && tool.recommended();
                selections.push(
                    ToolSelection { tool, method, selected, already_installed: already },
                );
            }
            i = i + 1;
        }
        let mut app = SetupApp {
            selections,
            rows: Vec::new(),
            cursor: 0,
            dry_run,
            confirmed: false,
            quit: false,
            host,
        };
        app.rebuild_rows();
        match first_tool_row(&app.rows, 0) {
            Some(k) => {
                app.cursor = k;
            },
            None => {},
        }
        app
    }

    /// The initial selections when `inst[k]` tells whether catalog tool `k`
    /// was found installed, Helix being offered when it was not.
    pub open spec fn probed_selections(host: HostInfo, inst: Seq<bool>) -> Seq<ToolSelection> {
        initial_selections(host, !inst[tool_index(ToolId::Helix)], inst, all_tools().len() as int)
    }

    /// The state for `host`, with the tools found installed as the search of
    /// `PATH` shows, and Helix offered when it is not among them.
    pub fn new(host: HostInfo, dry_run: bool) -> (res: Self)
        ensures
            res.well_formed(),
            exists|inst: Seq<bool>|
                inst.len() == all_tools().len() && res.selections@ == #[trigger] Self::probed_selections(
                    host,
                    inst,
                ),
            res.rows@ == rows_spec(res.selections@),
            res.cursor == match scan_down(res.rows@, 0) {
                Some(p) => p as usize,
                None => 0usize,
            },
            res.dry_run == dry_run,
            !res.confirmed,
            !res.quit,
            res.host == host,
    {
        let tools = crate::setup::catalog::catalog_tools();
        let mut installed: Vec<bool> = Vec::new();
        let mut i: usize = 0;
        while i < tools.len()
            invariant
                i <= tools.len(),
                tools@ == all_tools(),
                installed@.len() == i,
            decreases tools.len() - i,
        {
            installed.push(tool_installed(tools[i]));
            i = i + 1;
        }
        let helix = tool_index_of(ToolId::Helix);
        assert(installed@.len() == all_tools().len());
        assert(helix < installed@.len());
        let offer_helix = !installed[helix];
        let res = Self::new_with(host, dry_run, offer_helix, &installed);
        assert(res.selections@ == Self::probed_selections(host, installed@));
        res
    }

    /// Rebuilds the rows from the selections, keeping the cursor on a row.
    pub fn rebuild_rows(&mut self)
        ensures
            final(self).rows@ == rows_spec(old(self).selections@),
            final(self).selections == old(self).selections,
            final(self).cursor == if old(self).cursor >= rows_spec(old(self).selections@).len() {
                if rows_spec(old(self).selections@).len() == 0 {
                    0
                } else {
                    (rows_spec(old(self).selections@).len() - 1) as usize
                }
            } else {
                old(self).cursor
            },
            final(self).dry_run == old(self).dry_run,
            final(self).confirmed == old(self).confirmed,
            final(self).quit == old(self).quit,
            final(self).host == old(self).host,
            final(self).well_formed(),
    {
        let cats = Category::all();
        let ghost sels = self.selections@;
        let mut rows: Vec<RowKind> = Vec::new();
        let mut k: usize = 0;
        while k < cats.len()
            invariant
                k <= cats.len(),
                cats@ == all_categories(),
                sels == self.selections@,
                rows@ == rows_upto(sels, k as int),
            decreases cats.len() - k,
        {
            let c = cats[k];
            let mut ix: Vec<usize> = Vec::new();
            let mut j: usize = 0;
            while j < self.selections.len()
                invariant
                    j <= self.selections.len(),
                    sels == self.selections@,
                    ix@ == indices_in(sels, c, j as int),
                decreases self.selections.len() - j,
            {
                if self.selections[j].tool.category() == c {
                    ix.push(j);
                }
                j = j + 1;
            }
            if ix.len() > 0 {
                let ghost before = rows@;
                rows.push(RowKind::Header(c));
                let mut m: usize = 0;
                while m < ix.len()
                    invariant
                        m <= ix.len(),
                        rows@ == before + seq![RowKind::Header(c)] + ix@.take(m as int).map_values(
                            |i: usize| RowKind::Tool(i),
                        ),
                    decreases ix.len() - m,
                {
                    rows.push(RowKind::Tool(ix[m]));
                    m = m + 1;
                    assert(rows@ =~= before + seq![RowKind::Header(c)] + ix@.take(m as int).map_values(
                        |i: usize| RowKind::Tool(i),
                    ));
                }
                assert(ix@.take(ix.len() as int) =~= ix@);
            } else {
                assert(category_rows(sels, c) =~= Seq::<RowKind>::empty());
            }
            k = k + 1;
            assert(rows@ =~= rows_upto(sels, k as int));
        }
        self.rows = rows;
        if self.cursor >= self.rows.len() {
            self.cursor = if self.rows.len() == 0 {
                0
            } else {
                self.rows.len() - 1
            };
        }
        proof {
            lemma_rows_bounded(sels, all_categories().len() as int);
        }
    }

    /// The text of a row: a category heading, or a tool with its mark, its
    /// status and its install method, flagged when no method is available.
    pub open spec fn row_text_spec(&self, row: RowKind) -> Seq<char> {
        match row {
            RowKind::Header(c) => " "@ + category_label(c),
            RowKind::Tool(i) => tool_row_spec(
                self.selections@[i as int],
                available_spec(self.host, self.selections@[i as int].tool).len() > 0,
            ),
        }
    }

    /// The text shown for row `k`.
    pub fn row_text(&self, k: usize) -> (res: String)
        requires
            self.well_formed(),
            k < self.rows@.len(),
        ensures
            res@ == self.row_text_spec(self.rows@[k as int]),
    {
        match self.rows[k] {
            RowKind::Header(c) => {
                let mut out = string_of(" ");
                push_str(&mut out, c.label());
                out
            },
            RowKind::Tool(i) => {
                let sel = &self.selections[i];
                let available = self.host.available_methods(sel.tool).len() > 0;
                tool_row_text(sel, available)
            },
        }
    }

    /// The selection under the cursor, when the cursor is on a tool row.
    pub fn current_tool_index(&self) -> (res: Option<usize>)
        requires
            self.well_formed(),
        ensures
            res == (if self.cursor < self.rows@.len() {
                tool_row(self.rows@[self.cursor as int])
            } else {
                None
            }),
            res matches Some(i) ==> i < self.selections@.len(),
    {
        if self.cursor < self.rows.len() {
            match self.rows[self.cursor] {
                RowKind::Tool(i) => Some(i),
                RowKind::Header(_) => None,
            }
        } else {
            None
        }
    }

    /// Moves the cursor by `delta` rows, on to the nearest tool row in that
    /// direction; it stays where it is when there is none. A zero move keeps
    /// the cursor on its tool row (off a tool row it would search forever).
    pub fn move_cursor(&mut self, delta: isize)
        requires
            old(self).well_formed(),
            delta == 0 ==> old(self).rows@.len() == 0 || old(self).rows@[old(self).cursor as int] is Tool,
        ensures
            final(self).well_formed(),
            final(self).cursor == match (if delta > 0 {
                scan_down(old(self).rows@, old(self).cursor + delta)
            } else {
                scan_up(old(self).rows@, old(self).cursor + delta)
            }) {
                Some(p) => p as usize,
                None => old(self).cursor,
            },
            final(self).rows == old(self).rows,
            final(self).selections == old(self).selections,
            final(self).confirmed == old(self).confirmed,
            final(self).quit == old(self).quit,
            final(self).dry_run == old(self).dry_run,
            final(self).host == old(self).host,
    {
        if self.rows.len() == 0 {
            return;
        }
        let start: i128 = self.cursor as i128 + delta as i128;
        let found = if delta > 0 {
            if start < self.rows.len() as i128 {
                first_tool_row(&self.rows, start as usize)
            } else {
                None
            }
        } else {
            if start >= 0 {
                last_tool_row(&self.rows, start as usize)
            } else {
                None
            }
        };
        match found {
            Some(p) => {
                self.cursor = p;
            },
            None => {},
        }
    }

    /// Space: switches the tool under the cursor on or off, unless it can be
    /// neither installed nor is installed.
    pub fn toggle_current(&mut self)
        requires
            old(self).well_formed(),
        ensures
            final(self).well_formed(),
            final(self).selections@ == match old(self).current_tool_spec() {
                Some(i) => {
                    let s = old(self).selections@[i as int];
                    if available_spec(old(self).host, s.tool).len() == 0 && !s.already_installed {
                        old(self).selections@
                    } else {
                        old(self).selections@.update(i as int, ToolSelection { selected: !s.selected, ..s })
                    }
                },
                None => old(self).selections@,
            },
            final(self).rows == old(self).rows,
            final(self).cursor == old(self).cursor,
            final(self).confirmed == old(self).confirmed,
            final(self).quit == old(self).quit,
            final(self).dry_run == old(self).dry_run,
            final(self).host == old(self).host,
    {
        match self.current_tool_index() {
            Some(i) => {
                let s = self.selections[i];
                let methods = self.host.available_methods(s.tool);
                if methods.len() == 0 && !s.already_installed {
                    return;
                }
                self.selections.set(i, ToolSelection { selected: !s.selected, ..s });
            },
            None => {},
        }
    }

    pub open spec fn current_tool_spec(&self) -> Option<usize> {
        if self.cursor < self.rows@.len() {
            tool_row(self.rows@[self.cursor as int])
        } else {
            None
        }
    }

    /// `m`: the tool under the cursor moves on to the next method the host
    /// offers.
    pub fn cycle_method(&mut self)
        requires
            old(self).well_formed(),
        ensures
            final(self).well_formed(),
            final(self).selections@ == match old(self).current_tool_spec() {
                Some(i) => {
                    let s = old(self).selections@[i as int];
                    let ms = available_spec(old(self).host, s.tool);
                    if ms.len() == 0 {
                        old(self).selections@
                    } else {
                        old(self).selections@.update(
                            i as int,
                            ToolSelection { method: next_method(s.method, ms), ..s },
                        )
                    }
                },
                None => old(self).selections@,
            },
            final(self).rows == old(self).rows,
            final(self).cursor == old(self).cursor,
            final(self).confirmed == old(self).confirmed,
            final(self).quit == old(self).quit,
            final(self).dry_run == old(self).dry_run,
            final(self).host == old(self).host,
    {
        match self.current_tool_index() {
            Some(i) => {
                let s = self.selections[i];
                let methods = self.host.available_methods(s.tool);
                if methods.len() == 0 {
                    return;
                }
                let m = s.method.next(methods.as_slice());
                self.selections.set(i, ToolSelection { method: m, ..s });
            },
            None => {},
        }
    }

    /// `a`: switches the whole category of the tool under the cursor on
    /// (when any of it is off) or off.
    pub fn toggle_category(&mut self)
        requires
            old(self).well_formed(),
        ensures
            final(self).well_formed(),
            final(self).selections@ == match old(self).current_tool_spec() {
                Some(i) => category_toggled(
                    old(self).host,
                    old(self).selections@,
                    tool_category(old(self).selections@[i as int].tool),
                ),
                None => old(self).selections@,
            },
            final(self).rows == old(self).rows,
            final(self).cursor == old(self).cursor,
            final(self).confirmed == old(self).confirmed,
            final(self).quit == old(self).quit,
            final(self).dry_run == old(self).dry_run,
            final(self).host == old(self).host,
    {
        let idx = match self.current_tool_index() {
            Some(i) => i,
            None => {
                return;
            },
        };
        let c = self.selections[idx].tool.category();
        let ghost sels = self.selections@;
        let mut any_off = false;
        let mut j: usize = 0;
        while j < self.selections.len()
            invariant
                j <= self.selections.len(),
                sels == self.selections@,
                any_off == exists|k: int|
                    0 <= k < j && tool_category(#[trigger] sels[k].tool) == c && !sels[k].selected,
            decreases self.selections.len() - j,
        {
            let s = self.selections[j];
            if s.tool.category() == c && !s.selected {
                any_off = true;
            }
            j = j + 1;
        }
        let ghost target = category_toggled(self.host, sels, c);
        let mut k: usize = 0;
        while k < self.selections.len()
            invariant
                k <= self.selections.len(),
                self.selections@.len() == sels.len(),
                target == category_toggled(self.host, sels, c),
                any_off == exists|m: int|
                    0 <= m < sels.len() && tool_category(#[trigger] sels[m].tool) == c && !sels[m].selected,
                forall|m: int| 0 <= m < k ==> self.selections@[m] == target[m],
                forall|m: int| k <= m < sels.len() ==> self.selections@[m] == sels[m],
                self.rows == old(self).rows,
                self.cursor == old(self).cursor,
                self.confirmed == old(self).confirmed,
                self.quit == old(self).quit,
                self.dry_run == old(self).dry_run,
                self.host == old(self).host,
                forall|jj: int|
                    0 <= jj < self.rows@.len() ==> (#[trigger] self.rows@[jj] matches RowKind::Tool(i)
                        ==> i < self.selections@.len()),
                if self.rows@.len() > 0 {
                    self.cursor < self.rows@.len()
                } else {
                    self.cursor == 0
                },
            decreases self.selections.len() - k,
        {
            let s = self.selections[k];
            if s.tool.category() == c {
                if any_off {
                    let methods = self.host.available_methods(s.tool);
                    if methods.len() > 0 || s.already_installed {
                        self.selections.set(k, ToolSelection { selected: true, ..s });
                    }
                } else {
                    self.selections.set(k, ToolSelection { selected: false, ..s });
                }
            }
            k = k + 1;
        }
        assert(self.selections@ =~= target);
    }

    /// What a key does.
    pub fn handle_key(&mut self, key: SetupKey)
        requires
            old(self).well_formed(),
        ensures
            final(self).well_formed(),
            final(self).quit == (old(self).quit || key == SetupKey::Quit),
            final(self).confirmed == (old(self).confirmed || key == SetupKey::Confirm),
            final(self).rows == old(self).rows,
    {
        match key {
            SetupKey::Quit => self.quit = true,
            SetupKey::Confirm => self.confirmed = true,
            SetupKey::Up => self.move_cursor(-1),
            SetupKey::Down => self.move_cursor(1),
            SetupKey::Toggle => self.toggle_current(),
            SetupKey::CycleMethod => self.cycle_method(),
            SetupKey::ToggleCategory => self.toggle_category(),
            SetupKey::Other => {},
        }
    }

    /// The selections once the user confirmed; none after quitting.
    pub fn outcome(&self) -> (res: Option<Vec<ToolSelection>>)
        ensures
            match res {
                Some(v) => !self.quit && self.confirmed && v@ == self.selections@,
                None => self.quit || !self.confirmed,
            },
    {
        if self.quit || !self.confirmed {
            return None;
        }
        let mut v: Vec<ToolSelection> = Vec::new();
        let mut i: usize = 0;
        while i < self.selections.len()
            invariant
                i <= self.selections.len(),
                v@ == self.selections@.take(i as int),
            decreases self.selections.len() - i,
        {
            v.push(self.selections[i]);
            i = i + 1;
            assert(v@ =~= self.selections@.take(i as int));
        }
        assert(self.selections@.take(self.selections.len() as int) =~= self.selections@);
        Some(v)
    }
}

/// A tool row: `[x]` or `[ ]`, the tool's name and its status padded to ten
/// characters, then its install method, marked unavailable when the host
/// offers none.
pub open spec fn tool_row_spec(sel: ToolSelection, available: bool) -> Seq<char> {
    "  "@ + (if sel.selected {
        "[x]"@
    } else {
        "[ ]"@
    }) + " "@ + pad_right(tool_name(sel.tool), 10) + "  "@ + pad_right(
        if sel.already_installed {
            "installed"@
        } else {
            "missing"@
        },
        10,
    ) + "  method: "@ + method_label(sel.method) + if available {
        Seq::<char>::empty()
    } else {
        " (unavailable)"@
    }
}

pub fn tool_row_text(sel: &ToolSelection, available: bool) -> (res: String)
    ensures
        res@ == tool_row_spec(*sel, available),
{
    let mut out = string_of("  ");
    push_str(&mut out, if sel.selected { "[x]" } else { "[ ]" });
    push_str(&mut out, " ");
    push_padded(&mut out, sel.tool.as_str(), 10);
    push_str(&mut out, "  ");
    push_padded(&mut out, if sel.already_installed { "installed" } else { "missing" }, 10);
    push_str(&mut out, "  method: ");
    push_str(&mut out, sel.method.label());
    if !available {
        push_str(&mut out, " (unavailable)");
    }
    assert(out@ =~= tool_row_spec(*sel, available));
    out
}

} // verus!
