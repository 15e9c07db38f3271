//! Which selected tools are written into the sat-hx-ide config after setup.

use crate::config::{is_plain_command, CommandConfig, Config, FileManagerConfig};
use crate::setup::catalog::{
    preference, tool_category, tool_config_command, tool_name, Category, ToolId,
};
use crate::setup::detect::tool_installed;
use crate::setup::plan::ToolSelection;
use crate::text::{push_str, str_eq, string_of};
use vstd::prelude::*;

verus! {

/// Position of a tool in the catalog.
pub open spec fn tool_index(t: ToolId) -> int {
    match t {
        ToolId::Zellij => 0,
        ToolId::Helix => 1,
        ToolId::Yazi => 2,
        ToolId::Lazygit => 3,
        ToolId::Gitui => 4,
        ToolId::Revdiff => 5,
        ToolId::Delta => 6,
        ToolId::Gh => 7,
        ToolId::Glab => 8,
        ToolId::GlabTui => 9,
    }
}

pub fn tool_index_of(t: ToolId) -> (res: usize)
    ensures
        res == tool_index(t),
        res < 10,
{
    match t {
        ToolId::Zellij => 0,
        ToolId::Helix => 1,
        ToolId::Yazi => 2,
        ToolId::Lazygit => 3,
        ToolId::Gitui => 4,
        ToolId::Revdiff => 5,
        ToolId::Delta => 6,
        ToolId::Gh => 7,
        ToolId::Glab => 8,
        ToolId::GlabTui => 9,
    }
}

/// The first selection row of a tool.
pub open spec fn selection_of(sels: Seq<ToolSelection>, t: ToolId) -> Option<ToolSelection>
    decreases sels.len(),
{
    if sels.len() == 0 {
        None
    } else if sels[0].tool == t {
        Some(sels[0])
    } else {
        selection_of(sels.drop_first(), t)
    }
}

/// Whether a selected tool may be written into the config: it has a config
/// command and is installed (just now, before, or found on `PATH`, as
/// `on_path` — indexed by catalog position — records).
pub open spec fn usable_for_config(
    t: ToolId,
    sels: Seq<ToolSelection>,
    installed: Seq<Seq<char>>,
    on_path: Seq<bool>,
) -> bool {
    match selection_of(sels, t) {
        None => false,
        Some(s) => s.selected && tool_config_command(t) is Some && (installed.contains(tool_name(t))
            || s.already_installed || on_path[tool_index(t)]),
    }
}

/// The first usable tool in preference order.
pub open spec fn winner_in(
    prefs: Seq<ToolId>,
    sels: Seq<ToolSelection>,
    installed: Seq<Seq<char>>,
    on_path: Seq<bool>,
) -> Option<ToolId>
    decreases prefs.len(),
{
    if prefs.len() == 0 {
        None
    } else if usable_for_config(prefs[0], sels, installed, on_path) {
        Some(prefs[0])
    } else {
        winner_in(prefs.drop_first(), sels, installed, on_path)
    }
}

pub open spec fn category_winner_spec(
    c: Category,
    sels: Seq<ToolSelection>,
    installed: Seq<Seq<char>>,
    on_path: Seq<bool>,
) -> Option<ToolId> {
    winner_in(preference(c), sels, installed, on_path)
}

pub open spec fn string_views(v: Seq<String>) -> Seq<Seq<char>> {
    v.map_values(|s: String| s@)
}

fn selection_for(sels: &Vec<ToolSelection>, t: ToolId) -> (res: Option<ToolSelection>)
    ensures
        res == selection_of(sels@, t),
{
    let mut i: usize = 0;
    assert(sels@.skip(0) =~= sels@);
    while i < sels.len()
        invariant
            i <= sels.len(),
            selection_of(sels@, t) == selection_of(sels@.skip(i as int), t),
        decreases sels.len() - i,
    {
        assert(sels@.skip(i as int)[0] == sels@[i as int]);
        assert(sels@.skip(i as int).drop_first() =~= sels@.skip(i + 1));
        if sels[i].tool == t {
            return Some(sels[i]);
        }
        i = i + 1;
    }
    None
}

fn contains_name(installed: &Vec<String>, name: &str) -> (res: bool)
    ensures
        res == string_views(installed@).contains(name@),
{
    let mut i: usize = 0;
    while i < installed.len()
        invariant
            i <= installed.len(),
            forall|j: int| 0 <= j < i ==> (#[trigger] installed@[j])@ != name@,
        decreases installed.len() - i,
    {
        if str_eq(installed[i].as_str(), name) {
            assert(string_views(installed@)[i as int] == name@);
            return true;
        }
        i = i + 1;
    }
    assert(!string_views(installed@).contains(name@)) by {
        if string_views(installed@).contains(name@) {
            let k = choose|k: int|
                0 <= k < string_views(installed@).len() && string_views(installed@)[k] == name@;
            assert(installed@[k]@ == name@);
        }
    }
    false
}

pub fn usable(t: ToolId, sels: &Vec<ToolSelection>, installed: &Vec<String>, on_path: &Vec<bool>) -> (res: bool)
    requires
        on_path@.len() == 10,
    ensures
        res == usable_for_config(t, sels@, string_views(installed@), on_path@),
{
    match selection_for(sels, t) {
        None => false,
        Some(s) => s.selected && t.config_command().is_some() && (contains_name(
            installed,
            t.as_str(),
        ) || s.already_installed || on_path[tool_index_of(t)]),
    }
}

/// The tool of this category written into the config, if any.
pub fn category_winner_with(
    category: Category,
    sels: &Vec<ToolSelection>,
    installed: &Vec<String>,
    on_path: &Vec<bool>,
) -> (res: Option<ToolId>)
    requires
        on_path@.len() == 10,
    ensures
        res == category_winner_spec(category, sels@, string_views(installed@), on_path@),
{
    let prefs = crate::setup::catalog::config_preference(category);
    let ghost inst = string_views(installed@);
    let mut i: usize = 0;
    assert(prefs@.skip(0) =~= prefs@);
    while i < prefs.len()
        invariant
            i <= prefs.len(),
            prefs@ == preference(category),
            on_path@.len() == 10,
            inst == string_views(installed@),
            winner_in(prefs@, sels@, inst, on_path@) == winner_in(
                prefs@.skip(i as int),
                sels@,
                inst,
                on_path@,
            ),
        decreases prefs.len() - i,
    {
        assert(prefs@.skip(i as int)[0] == prefs@[i as int]);
        assert(prefs@.skip(i as int).drop_first() =~= prefs@.skip(i + 1));
        if usable(prefs[i], sels, installed, on_path) {
            return Some(prefs[i]);
        }
        i = i + 1;
    }
    None
}

/// `tools.<field> → <command>`, the note of one config change.
pub open spec fn change_note(field: Seq<char>, cmd: Seq<char>) -> Seq<char> {
    "tools."@ + field + " → "@ + cmd
}

fn note(field: &str, cmd: &str) -> (res: String)
    ensures
        res@ == change_note(field@, cmd@),
{
    let mut s = string_of("tools.");
    push_str(&mut s, field);
    push_str(&mut s, " → ");
    push_str(&mut s, cmd);
    s
}

pub open spec fn category_field(c: Category) -> Seq<char> {
    match c {
        Category::FileManager => "file_manager"@,
        Category::Git => "git"@,
        Category::Review => "review"@,
        Category::Workflow => "workflow"@,
        Category::Core => "core"@,
    }
}

/// The notes of a selection applied to the config, in order: Zellij and
/// Helix, then the file manager, Git, review and workflow categories.
pub open spec fn selection_notes(
    sels: Seq<ToolSelection>,
    installed: Seq<Seq<char>>,
    on_path: Seq<bool>,
) -> Seq<Seq<char>> {
    let z = if usable_for_config(ToolId::Zellij, sels, installed, on_path) {
        seq![change_note("zellij"@, "zellij"@)]
    } else {
        Seq::empty()
    };
    let h = if usable_for_config(ToolId::Helix, sels, installed, on_path) {
        seq![change_note("editor"@, "hx"@)]
    } else {
        Seq::empty()
    };
    z + h + category_note(Category::FileManager, sels, installed, on_path) + category_note(
        Category::Git,
        sels,
        installed,
        on_path,
    ) + category_note(Category::Review, sels, installed, on_path) + category_note(
        Category::Workflow,
        sels,
        installed,
        on_path,
    )
}

pub open spec fn category_note(
    c: Category,
    sels: Seq<ToolSelection>,
    installed: Seq<Seq<char>>,
    on_path: Seq<bool>,
) -> Seq<Seq<char>> {
    match category_winner_spec(c, sels, installed, on_path) {
        Some(t) => seq![change_note(category_field(c), tool_config_command(t)->0)],
        None => Seq::empty(),
    }
}

/// The command a category's slot of the config takes after the selection:
/// the winner's command, or the old value.
pub open spec fn slot_after(
    old_slot: CommandConfig,
    new_slot: CommandConfig,
    winner: Option<ToolId>,
) -> bool {
    match winner {
        Some(t) => is_plain_command(new_slot, tool_config_command(t)->0),
        None => new_slot == old_slot,
    }
}

/// Whether `tool` is written into its core slot: the tool itself when it is
/// usable, nothing otherwise.
pub open spec fn core_winner(
    tool: ToolId,
    sels: Seq<ToolSelection>,
    installed: Seq<Seq<char>>,
    on_path: Seq<bool>,
) -> Option<ToolId> {
    if usable_for_config(tool, sels, installed, on_path) {
        Some(tool)
    } else {
        None
    }
}

/// The file manager settings after the selection: the winner's command with
/// the `yazi` adapter, the rest kept; unchanged when there is no winner.
pub open spec fn file_manager_after(
    old_fm: FileManagerConfig,
    new_fm: FileManagerConfig,
    winner: Option<ToolId>,
) -> bool {
    match winner {
        Some(t) => {
            &&& new_fm.command@ == tool_config_command(t)->0
            &&& new_fm.adapter@ == "yazi"@
            &&& new_fm.args == old_fm.args
            &&& new_fm.float_width == old_fm.float_width
            &&& new_fm.float_height == old_fm.float_height
            &&& new_fm.dock_percent == old_fm.dock_percent
        },
        None => new_fm == old_fm,
    }
}

fn push_note(notes: &mut Vec<String>, n: String)
    ensures
        string_views(final(notes)@) == string_views(old(notes)@).push(n@),
{
    let ghost nv = n@;
    notes.push(n);
    assert(string_views(notes@) =~= string_views(old(notes)@).push(nv));
}

/// Zellij and Helix are each written independently when selected and
/// installed.
pub fn apply_core(
    config: &mut Config,
    sels: &Vec<ToolSelection>,
    installed: &Vec<String>,
    on_path: &Vec<bool>,
    notes: &mut Vec<String>,
)
    requires
        on_path@.len() == 10,
    ensures
        slot_after(
            old(config).tools.zellij,
            final(config).tools.zellij,
            if usable_for_config(ToolId::Zellij, sels@, string_views(installed@), on_path@) {
                Some(ToolId::Zellij)
            } else {
                None
            },
        ),
        slot_after(
            old(config).tools.editor,
            final(config).tools.editor,
            if usable_for_config(ToolId::Helix, sels@, string_views(installed@), on_path@) {
                Some(ToolId::Helix)
            } else {
                None
            },
        ),
        final(config).tools.file_manager == old(config).tools.file_manager,
        final(config).tools.git == old(config).tools.git,
        final(config).tools.review == old(config).tools.review,
        final(config).tools.workflow == old(config).tools.workflow,
        final(config).tools.mindmap == old(config).tools.mindmap,
        final(config).tools.ai == old(config).tools.ai,
        final(config).session == old(config).session,
        final(config).terminal == old(config).terminal,
        final(config).mindmap == old(config).mindmap,
        final(config).keybindings == old(config).keybindings,
        final(config).venv == old(config).venv,
        string_views(final(notes)@) == string_views(old(notes)@) + (if usable_for_config(
            ToolId::Zellij,
            sels@,
            string_views(installed@),
            on_path@,
        ) {
            seq![change_note("zellij"@, "zellij"@)]
        } else {
            Seq::empty()
        }) + (if usable_for_config(ToolId::Helix, sels@, string_views(installed@), on_path@) {
            seq![change_note("editor"@, "hx"@)]
        } else {
            Seq::empty()
        }),
{
    let ghost start = string_views(notes@);
    if usable(ToolId::Zellij, sels, installed, on_path) {
        config.tools.zellij = CommandConfig::new("zellij");
        push_note(notes, note("zellij", "zellij"));
    }
    let ghost mid = string_views(notes@);
    if usable(ToolId::Helix, sels, installed, on_path) {
        config.tools.editor = CommandConfig::new("hx");
        push_note(notes, note("editor", "hx"));
    }
    assert(string_views(notes@) =~= start + (if usable_for_config(
        ToolId::Zellij,
        sels@,
        string_views(installed@),
        on_path@,
    ) {
        seq![change_note("zellij"@, "zellij"@)]
    } else {
        Seq::empty()
    }) + (if usable_for_config(ToolId::Helix, sels@, string_views(installed@), on_path@) {
        seq![change_note("editor"@, "hx"@)]
    } else {
        Seq::empty()
    }));
}

/// Writes the winning tool of a category (file manager, Git, review or
/// workflow) into the config; the core category is handled by
/// [`apply_core`] and left alone here.
pub fn apply_category(
    config: &mut Config,
    category: Category,
    sels: &Vec<ToolSelection>,
    installed: &Vec<String>,
    on_path: &Vec<bool>,
    notes: &mut Vec<String>,
)
    requires
        on_path@.len() == 10,
    ensures
        ({
            let w = if category == Category::Core {
                None
            } else {
                category_winner_spec(category, sels@, string_views(installed@), on_path@)
            };
            &&& slot_after(
                old(config).tools.git,
                final(config).tools.git,
                if category == Category::Git {
                    w
                } else {
                    None
                },
            )
            &&& slot_after(
                old(config).tools.review,
                final(config).tools.review,
                if category == Category::Review {
                    w
                } else {
                    None
                },
            )
            &&& slot_after(
                old(config).tools.workflow,
                final(config).tools.workflow,
                if category == Category::Workflow {
                    w
                } else {
                    None
                },
            )
            &&& (category == Category::FileManager && w is Some) ==> {
                &&& final(config).tools.file_manager.command@ == tool_config_command(w->0)->0
                &&& final(config).tools.file_manager.adapter@ == "yazi"@
                &&& final(config).tools.file_manager.args == old(config).tools.file_manager.args
                &&& final(config).tools.file_manager.float_width
                    == old(config).tools.file_manager.float_width
                &&& final(config).tools.file_manager.float_height
                    == old(config).tools.file_manager.float_height
                &&& final(config).tools.file_manager.dock_percent
                    == old(config).tools.file_manager.dock_percent
            }
            &&& !(category == Category::FileManager && w is Some)
                ==> final(config).tools.file_manager == old(config).tools.file_manager
            &&& string_views(final(notes)@) == string_views(old(notes)@) + match w {
                Some(t) => seq![change_note(category_field(category), tool_config_command(t)->0)],
                None => Seq::empty(),
            }
        }),
        final(config).tools.zellij == old(config).tools.zellij,
        final(config).tools.editor == old(config).tools.editor,
        final(config).tools.mindmap == old(config).tools.mindmap,
        final(config).tools.ai == old(config).tools.ai,
        final(config).session == old(config).session,
        final(config).terminal == old(config).terminal,
        final(config).mindmap == old(config).mindmap,
        final(config).keybindings == old(config).keybindings,
        final(config).venv == old(config).venv,
{
    if category == Category::Core {
        assert(string_views(notes@) =~= string_views(notes@) + Seq::<Seq<char>>::empty());
        return;
    }
    let winner = category_winner_with(category, sels, installed, on_path);
    let tool = match winner {
        Some(t) => t,
        None => {
            assert(string_views(notes@) =~= string_views(notes@) + Seq::<Seq<char>>::empty());
            return;
        },
    };
    let cmd = match tool.config_command() {
        Some(c) => c,
        None => {
            proof {
                lemma_winner_usable(preference(category), sels@, string_views(installed@), on_path@);
            }
            assert(false);
            return;
        },
    };
    let field = match category {
        Category::FileManager => {
            config.tools.file_manager.command = string_of(cmd);
            config.tools.file_manager.adapter = string_of("yazi");
            "file_manager"
        },
        Category::Git => {
            config.tools.git = CommandConfig::new(cmd);
            "git"
        },
        Category::Review => {
            config.tools.review = CommandConfig::new(cmd);
            "review"
        },
        Category::Workflow => {
            config.tools.workflow = CommandConfig::new(cmd);
            "workflow"
        },
        Category::Core => "core",
    };
    push_note(notes, note(field, cmd));
}

/// The winner of a preference list is usable.
pub proof fn lemma_winner_usable(
    prefs: Seq<ToolId>,
    sels: Seq<ToolSelection>,
    installed: Seq<Seq<char>>,
    on_path: Seq<bool>,
)
    ensures
        winner_in(prefs, sels, installed, on_path) matches Some(t) ==> usable_for_config(
            t,
            sels,
            installed,
            on_path,
        ) && prefs.contains(t),
    decreases prefs.len(),
{
    if prefs.len() > 0 && !usable_for_config(prefs[0], sels, installed, on_path) {
        lemma_winner_usable(prefs.drop_first(), sels, installed, on_path);
        if let Some(t) = winner_in(prefs, sels, installed, on_path) {
            let k = choose|k: int| 0 <= k < prefs.drop_first().len() && prefs.drop_first()[k] == t;
            assert(prefs[k + 1] == t);
        }
    } else if prefs.len() > 0 {
        assert(prefs[0] == prefs[0]);
    }
}

/// Which installed tool wins each slot of the config, for the selections
/// made and given whether each catalog tool was found on `PATH`.
pub fn apply_selection_with(
    config: &mut Config,
    sels: &Vec<ToolSelection>,
    installed: &Vec<String>,
    on_path: &Vec<bool>,
) -> (notes: Vec<String>)
    requires
        on_path@.len() == 10,
    ensures
        string_views(notes@) == selection_notes(sels@, string_views(installed@), on_path@),
        final(config).session == old(config).session,
        final(config).terminal == old(config).terminal,
        final(config).mindmap == old(config).mindmap,
        final(config).keybindings == old(config).keybindings,
        final(config).venv == old(config).venv,
        final(config).tools.mindmap == old(config).tools.mindmap,
        final(config).tools.ai == old(config).tools.ai,
        slot_after(
            old(config).tools.zellij,
            final(config).tools.zellij,
            core_winner(ToolId::Zellij, sels@, string_views(installed@), on_path@),
        ),
        slot_after(
            old(config).tools.editor,
            final(config).tools.editor,
            core_winner(ToolId::Helix, sels@, string_views(installed@), on_path@),
        ),
        file_manager_after(
            old(config).tools.file_manager,
            final(config).tools.file_manager,
            category_winner_spec(Category::FileManager, sels@, string_views(installed@), on_path@),
        ),
        slot_after(
            old(config).tools.git,
            final(config).tools.git,
            category_winner_spec(Category::Git, sels@, string_views(installed@), on_path@),
        ),
        slot_after(
            old(config).tools.review,
            final(config).tools.review,
            category_winner_spec(Category::Review, sels@, string_views(installed@), on_path@),
        ),
        slot_after(
            old(config).tools.workflow,
            final(config).tools.workflow,
            category_winner_spec(Category::Workflow, sels@, string_views(installed@), on_path@),
        ),
{
    let mut notes: Vec<String> = Vec::new();
    apply_core(config, sels, installed, on_path, &mut notes);
    apply_category(config, Category::FileManager, sels, installed, on_path, &mut notes);
    apply_category(config, Category::Git, sels, installed, on_path, &mut notes);
    apply_category(config, Category::Review, sels, installed, on_path, &mut notes);
    apply_category(config, Category::Workflow, sels, installed, on_path, &mut notes);
    assert(string_views(notes@) =~= selection_notes(sels@, string_views(installed@), on_path@));
    notes
}

/// Probes `PATH` for every catalog tool.
pub fn probe_catalog() -> (res: Vec<bool>)
    ensures
        res@.len() == 10,
{
    let tools = crate::setup::catalog::catalog_tools();
    let mut out: Vec<bool> = Vec::new();
    let mut i: usize = 0;
    while i < tools.len()
        invariant
            i <= tools.len(),
            tools@.len() == 10,
            out@.len() == i,
        decreases tools.len() - i,
    {
        out.push(tool_installed(tools[i]));
        i = i + 1;
    }
    out
}

} // verus!
