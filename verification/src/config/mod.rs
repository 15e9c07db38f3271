//! sat-hx-ide configuration: the sections of `config.toml`, their defaults,
//! and the paths derived from them.

use crate::paths::{join_path, path_join};
use crate::text::{chars_of, has_prefix, slice_chars, string_from_chars, string_of};
pub mod layout;

use vstd::prelude::*;

verus! {

/// An executable and the arguments passed to it.
#[derive(Debug, Clone, PartialEq, Eq)]
pub struct CommandConfig {
    pub command: String,
    pub args: Vec<String>,
}

impl CommandConfig {
    pub fn new(command: &str) -> (res: Self)
        ensures
            res.command@ == command@,
            res.args@.len() == 0,
    {
        CommandConfig { command: string_of(command), args: Vec::new() }
    }
}

/// File-manager behaviour. Yazi is the adapter: its chooser file hands a
/// selected path to the running Helix.
#[derive(Debug, Clone)]
pub struct FileManagerConfig {
    pub adapter: String,
    pub command: String,
    pub args: Vec<String>,
    pub float_width: String,
    pub float_height: String,
    pub dock_percent: u8,
}

pub open spec fn is_default_file_manager(f: FileManagerConfig) -> bool {
    &&& f.adapter@ == "yazi"@
    &&& f.command@ == "yazi"@
    &&& f.args@.len() == 0
    &&& f.float_width@ == "100%"@
    &&& f.float_height@ == "100%"@
    &&& f.dock_percent == 28
}

impl Default for FileManagerConfig {
    fn default() -> (res: Self)
        ensures
            is_default_file_manager(res),
    {
        FileManagerConfig {
            adapter: default_file_manager_adapter(),
            command: default_file_manager_command(),
            args: Vec::new(),
            float_width: default_float_width(),
            float_height: default_float_height(),
            dock_percent: default_dock_percent(),
        }
    }
}

/// Commands launched by the session.
#[derive(Debug, Clone)]
pub struct ToolConfig {
    pub zellij: CommandConfig,
    pub editor: CommandConfig,
    pub file_manager: FileManagerConfig,
    pub git: CommandConfig,
    pub review: CommandConfig,
    pub workflow: CommandConfig,
    pub mindmap: CommandConfig,
    pub ai: Option<CommandConfig>,
}

pub open spec fn is_plain_command(c: CommandConfig, name: Seq<char>) -> bool {
    c.command@ == name && c.args@.len() == 0
}

impl Default for ToolConfig {
    fn default() -> (res: Self)
        ensures
            is_plain_command(res.zellij, "zellij"@),
            is_plain_command(res.editor, "hx"@),
            is_default_file_manager(res.file_manager),
            is_plain_command(res.git, "lazygit"@),
            is_plain_command(res.review, "revdiff"@),
            is_plain_command(res.workflow, "glab-tui"@),
            is_plain_command(res.mindmap, "shiki"@),
            res.ai matches Some(ai) && is_plain_command(ai, "cursor-agent"@),
    {
        ToolConfig {
            zellij: default_zellij(),
            editor: default_editor(),
            file_manager: FileManagerConfig::default(),
            git: default_git(),
            review: default_review(),
            workflow: default_workflow(),
            mindmap: default_mindmap_tool(),
            ai: default_ai(),
        }
    }
}

pub fn default_zellij() -> (res: CommandConfig)
    ensures
        is_plain_command(res, "zellij"@),
{
    CommandConfig::new("zellij")
}

pub fn default_editor() -> (res: CommandConfig)
    ensures
        is_plain_command(res, "hx"@),
{
    CommandConfig::new("hx")
}

pub fn default_git() -> (res: CommandConfig)
    ensures
        is_plain_command(res, "lazygit"@),
{
    CommandConfig::new("lazygit")
}

pub fn default_review() -> (res: CommandConfig)
    ensures
        is_plain_command(res, "revdiff"@),
{
    CommandConfig::new("revdiff")
}

pub fn default_workflow() -> (res: CommandConfig)
    ensures
        is_plain_command(res, "glab-tui"@),
{
    CommandConfig::new("glab-tui")
}

pub fn default_mindmap_tool() -> (res: CommandConfig)
    ensures
        is_plain_command(res, "shiki"@),
{
    CommandConfig::new("shiki")
}

pub fn default_ai() -> (res: Option<CommandConfig>)
    ensures
        res matches Some(ai) && is_plain_command(ai, "cursor-agent"@),
{
    Some(CommandConfig::new("cursor-agent"))
}

pub fn default_file_manager_adapter() -> (res: String)
    ensures
        res@ == "yazi"@,
{
    string_of("yazi")
}

pub fn default_file_manager_command() -> (res: String)
    ensures
        res@ == "yazi"@,
{
    string_of("yazi")
}

pub fn default_float_width() -> (res: String)
    ensures
        res@ == "100%"@,
{
    string_of("100%")
}

pub fn default_float_height() -> (res: String)
    ensures
        res@ == "100%"@,
{
    string_of("100%")
}

pub fn default_dock_percent() -> (res: u8)
    ensures
        res == 28,
{
    28
}

/// Session behaviour.
#[derive(Debug, Clone)]
pub struct SessionConfig {
    /// Attach to an existing project-named session when one exists.
    pub attach_existing: bool,
    /// Add the AI tab when the configured agent is available.
    pub ai_by_default: bool,
    /// Optional explicit path to the Zellij config used as merge input.
    pub zellij_config: Option<String>,
    /// Add Zellij's status bar to every tab.
    pub status_bar: bool,
}

impl Default for SessionConfig {
    fn default() -> (res: Self)
        ensures
            res.attach_existing,
            res.ai_by_default,
            res.zellij_config is None,
            !res.status_bar,
    {
        SessionConfig {
            attach_existing: default_true(),
            ai_by_default: default_true(),
            zellij_config: None,
            status_bar: default_false(),
        }
    }
}

/// Where a dock sits relative to the editor in the code tab.
#[derive(Debug, Clone, Copy, PartialEq, Eq, Structural)]
pub enum DockPosition {
    Down,
    Right,
}

impl Default for DockPosition {
    fn default() -> (res: Self)
        ensures
            res == DockPosition::Down,
    {
        DockPosition::Down
    }
}

pub open spec fn split_direction_of(p: DockPosition) -> Seq<char> {
    match p {
        DockPosition::Down => "horizontal"@,
        DockPosition::Right => "vertical"@,
    }
}

pub open spec fn new_pane_direction_of(p: DockPosition) -> Seq<char> {
    match p {
        DockPosition::Down => "down"@,
        DockPosition::Right => "right"@,
    }
}

impl DockPosition {
    /// KDL `split_direction` for the editor/dock split.
    pub fn zellij_split_direction(self) -> (res: &'static str)
        ensures
            res@ == split_direction_of(self),
    {
        match self {
            DockPosition::Down => "horizontal",
            DockPosition::Right => "vertical",
        }
    }

    /// `zellij action new-pane --direction` when respawning a closed dock.
    pub fn zellij_new_pane_direction(self) -> (res: &'static str)
        ensures
            res@ == new_pane_direction_of(self),
    {
        match self {
            DockPosition::Down => "down",
            DockPosition::Right => "right",
        }
    }
}

/// The shell pane docked beside Helix in the code tab; it runs Zellij's
/// default shell, so it has no command.
#[derive(Debug, Clone)]
pub struct TerminalConfig {
    pub enabled: bool,
    /// Height or width of the dock as a percentage of the code tab.
    pub dock_percent: u8,
    pub dock_position: DockPosition,
}

impl Default for TerminalConfig {
    fn default() -> (res: Self)
        ensures
            res.enabled,
            res.dock_percent == 15,
            res.dock_position == DockPosition::Down,
    {
        TerminalConfig {
            enabled: default_true(),
            dock_percent: default_terminal_percent(),
            dock_position: DockPosition::Down,
        }
    }
}

/// The mind-map pane; when disabled it is left out of the layout until the
/// toggle opens it.
#[derive(Debug, Clone)]
pub struct MindMapConfig {
    pub enabled: bool,
    pub dock_percent: u8,
    pub dock_position: DockPosition,
}

impl Default for MindMapConfig {
    fn default() -> (res: Self)
        ensures
            !res.enabled,
            res.dock_percent == 50,
            res.dock_position == DockPosition::Right,
    {
        MindMapConfig {
            enabled: default_false(),
            dock_percent: default_mindmap_percent(),
            dock_position: default_mindmap_dock_position(),
        }
    }
}

/// Zellij key notation for each sat-hx-ide action.
#[derive(Debug, Clone)]
pub struct KeybindingConfig {
    pub file_manager: String,
    pub file_manager_dock: String,
    pub git: String,
    pub review: String,
    pub workflow: String,
    pub terminal: String,
    pub terminal_zoom: String,
    pub mindmap: String,
    pub mindmap_zoom: String,
}

pub open spec fn default_keys(k: KeybindingConfig) -> bool {
    &&& k.file_manager@ == "Ctrl y"@
    &&& k.file_manager_dock@ == "Alt y"@
    &&& k.git@ == "Alt g"@
    &&& k.review@ == "Alt r"@
    &&& k.workflow@ == "Alt w"@
    &&& k.terminal@ == "Alt t"@
    &&& k.terminal_zoom@ == "Alt Shift t"@
    &&& k.mindmap@ == "Alt m"@
    &&& k.mindmap_zoom@ == "Alt Shift m"@
}

impl Default for KeybindingConfig {
    fn default() -> (res: Self)
        ensures
            default_keys(res),
    {
        KeybindingConfig {
            file_manager: default_file_manager_key(),
            file_manager_dock: default_file_manager_dock_key(),
            git: default_git_key(),
            review: default_review_key(),
            workflow: default_workflow_key(),
            terminal: default_terminal_key(),
            terminal_zoom: default_terminal_zoom_key(),
            mindmap: default_mindmap_key(),
            mindmap_zoom: default_mindmap_zoom_key(),
        }
    }
}

pub fn default_true() -> (res: bool)
    ensures
        res,
{
    true
}

pub fn default_false() -> (res: bool)
    ensures
        !res,
{
    false
}

pub fn default_file_manager_key() -> (res: String)
    ensures
        res@ == "Ctrl y"@,
{
    string_of("Ctrl y")
}

pub fn default_file_manager_dock_key() -> (res: String)
    ensures
        res@ == "Alt y"@,
{
    string_of("Alt y")
}

pub fn default_git_key() -> (res: String)
    ensures
        res@ == "Alt g"@,
{
    string_of("Alt g")
}

pub fn default_review_key() -> (res: String)
    ensures
        res@ == "Alt r"@,
{
    string_of("Alt r")
}

pub fn default_workflow_key() -> (res: String)
    ensures
        res@ == "Alt w"@,
{
    string_of("Alt w")
}

pub fn default_terminal_key() -> (res: String)
    ensures
        res@ == "Alt t"@,
{
    string_of("Alt t")
}

pub fn default_mindmap_key() -> (res: String)
    ensures
        res@ == "Alt m"@,
{
    string_of("Alt m")
}

pub fn default_terminal_zoom_key() -> (res: String)
    ensures
        res@ == "Alt Shift t"@,
{
    string_of("Alt Shift t")
}

pub fn default_mindmap_zoom_key() -> (res: String)
    ensures
        res@ == "Alt Shift m"@,
{
    string_of("Alt Shift m")
}

pub fn default_terminal_percent() -> (res: u8)
    ensures
        res == 15,
{
    15
}

pub fn default_mindmap_percent() -> (res: u8)
    ensures
        res == 50,
{
    50
}

pub fn default_mindmap_dock_position() -> (res: DockPosition)
    ensures
        res == DockPosition::Right,
{
    DockPosition::Right
}

/// Virtual-environment management.
#[derive(Debug, Clone)]
pub struct VenvConfig {
    pub enabled: bool,
    /// A specific environment always offered for selection.
    pub path: Option<String>,
    /// `auto`, `uv`, `venv`, `poetry`, `conda` or `pipenv`.
    pub venv_type: String,
    pub auto_detection: bool,
    /// Further directories searched for environments.
    pub search_paths: Vec<String>,
}

impl Default for VenvConfig {
    fn default() -> (res: Self)
        ensures
            res.enabled,
            res.path is None,
            res.venv_type@ == "auto"@,
            res.auto_detection,
            res.search_paths@.len() == 0,
    {
        VenvConfig {
            enabled: default_true(),
            path: None,
            venv_type: string_of("auto"),
            auto_detection: default_auto_detect(),
            search_paths: Vec::new(),
        }
    }
}

pub fn default_auto_detect() -> (res: bool)
    ensures
        res,
{
    true
}

/// The whole sat-hx-ide configuration.
#[derive(Debug, Clone)]
pub struct Config {
    pub session: SessionConfig,
    pub tools: ToolConfig,
    pub terminal: TerminalConfig,
    pub mindmap: MindMapConfig,
    pub keybindings: KeybindingConfig,
    pub venv: VenvConfig,
}

/// The settings of the bundled sample configuration, used when no
/// configuration file exists.
pub open spec fn is_bundled_config(c: Config) -> bool {
    &&& c.session.attach_existing
    &&& c.session.ai_by_default
    &&& c.session.zellij_config is None
    &&& c.session.status_bar
    &&& c.terminal.enabled && c.terminal.dock_percent == 15
    &&& c.terminal.dock_position == DockPosition::Down
    &&& !c.mindmap.enabled && c.mindmap.dock_percent == 50
    &&& c.mindmap.dock_position == DockPosition::Right
    &&& default_keys(c.keybindings)
    &&& is_plain_command(c.tools.zellij, "zellij"@)
    &&& is_plain_command(c.tools.editor, "hx"@)
    &&& is_default_file_manager(c.tools.file_manager)
    &&& is_plain_command(c.tools.git, "lazygit"@)
    &&& is_plain_command(c.tools.review, "revdiff"@)
    &&& is_plain_command(c.tools.workflow, "glab-tui"@)
    &&& is_plain_command(c.tools.mindmap, "shiki"@)
    &&& c.tools.ai matches Some(ai) && is_plain_command(ai, "vibe"@)
    &&& c.venv.enabled && c.venv.path is None && c.venv.venv_type@ == "auto"@
    &&& c.venv.auto_detection && c.venv.search_paths@.len() == 0
}

impl Default for Config {
    fn default() -> (res: Self)
        ensures
            is_bundled_config(res),
    {
        let mut tools = ToolConfig::default();
        tools.ai = Some(CommandConfig::new("vibe"));
        let mut session = SessionConfig::default();
        session.status_bar = true;
        let terminal = TerminalConfig::default();
        let mindmap = MindMapConfig::default();
        let keybindings = KeybindingConfig::default();
        let venv = VenvConfig::default();
        Config { session, tools, terminal, mindmap, keybindings, venv }
    }
}

/// `~/rest` expanded against the home directory; any other path unchanged.
pub open spec fn expand_tilde_spec(path: Seq<char>, home: Option<Seq<char>>) -> Seq<char> {
    if has_prefix(path, "~/"@) && home is Some {
        path_join(home->0, path.skip(2))
    } else {
        path
    }
}

/// Replaces a leading `~/` by the home directory, when one is known.
pub fn expand_tilde(path: &str, home: Option<&str>) -> (res: String)
    ensures
        res@ == expand_tilde_spec(path@, match home {
            Some(h) => Some(h@),
            None => None,
        }),
{
    let cs = chars_of(path);
    proof {
        reveal_strlit("~/");
    }
    if cs.len() >= 2 && cs[0] == '~' && cs[1] == '/' {
        assert(cs@.take(2) =~= "~/"@);
        match home {
            Some(h) => {
                let rest = string_from_chars(&slice_chars(&cs, 2, cs.len()));
                assert(rest@ =~= path@.skip(2));
                return join_path(h, rest.as_str());
            },
            None => {},
        }
    } else {
        assert(!has_prefix(path@, "~/"@)) by {
            if has_prefix(path@, "~/"@) {
                assert(path@.take(2)[0] == '~');
                assert(path@.take(2)[1] == '/');
            }
        }
    }
    string_of(path)
}

pub open spec fn runtime_dir_spec(base: Seq<char>, session: Seq<char>) -> Seq<char> {
    path_join(path_join(base, "sat-helix-ide"@), session)
}

/// A one-element sequence for a set value, an empty one otherwise.
pub open spec fn present(o: Option<Seq<char>>) -> Seq<Seq<char>> {
    match o {
        Some(v) => seq![v],
        None => Seq::empty(),
    }
}

/// The places the Zellij merge source is looked for, in order, leaving out
/// those that are not set: `session.zellij_config`, then `ZELLIJ_CONFIG_FILE`,
/// then `$XDG_CONFIG_HOME/zellij/config.kdl`, then `~/.config/zellij/config.kdl`.
pub open spec fn zellij_config_candidates_spec(
    configured: Option<Seq<char>>,
    env_file: Option<Seq<char>>,
    xdg_config_home: Option<Seq<char>>,
    home: Option<Seq<char>>,
) -> Seq<Seq<char>> {
    present(
        match configured {
            Some(c) => Some(expand_tilde_spec(c, home)),
            None => None,
        },
    ) + present(env_file) + present(
        match xdg_config_home {
            Some(x) => Some(path_join(path_join(x, "zellij"@), "config.kdl"@)),
            None => None,
        },
    ) + present(
        match home {
            Some(h) => Some(path_join(path_join(path_join(h, ".config"@), "zellij"@), "config.kdl"@)),
            None => None,
        },
    )
}

/// The first candidate from index `i` on whose file exists (`exists[k]` tells
/// whether candidate `k` exists; a candidate without a flag does not).
pub open spec fn first_existing(cands: Seq<Seq<char>>, exists: Seq<bool>, i: int) -> Option<Seq<char>>
    decreases cands.len() - i,
{
    if i < 0 || i >= cands.len() {
        None
    } else if i < exists.len() && exists[i] {
        Some(cands[i])
    } else {
        first_existing(cands, exists, i + 1)
    }
}

/// The text of each path.
pub open spec fn path_views(v: Seq<String>) -> Seq<Seq<char>> {
    v.map_values(|s: String| s@)
}

pub open spec fn configured_view(c: Option<String>) -> Option<Seq<char>> {
    match c {
        Some(c) => Some(c@),
        None => None,
    }
}

pub open spec fn opt_view(o: Option<&str>) -> Option<Seq<char>> {
    match o {
        Some(s) => Some(s@),
        None => None,
    }
}

impl Config {
    /// Directory of the private runtime files of a session under the runtime
    /// base (`XDG_RUNTIME_DIR` or the temporary directory).
    pub fn runtime_dir(&self, base: &str, session_name: &str) -> (res: String)
        ensures
            res@ == runtime_dir_spec(base@, session_name@),
    {
        let sub = join_path(base, "sat-helix-ide");
        join_path(sub.as_str(), session_name)
    }

    /// The places the user's Zellij config is looked for, in order (see
    /// [`zellij_config_candidates_spec`]).
    pub fn zellij_config_candidates(
        &self,
        env_file: Option<&str>,
        xdg_config_home: Option<&str>,
        home: Option<&str>,
    ) -> (res: Vec<String>)
        ensures
            path_views(res@) == zellij_config_candidates_spec(
                configured_view(self.session.zellij_config),
                opt_view(env_file),
                opt_view(xdg_config_home),
                opt_view(home),
            ),
    {
        let mut out: Vec<String> = Vec::new();
        let ghost h = opt_view(home);
        match &self.session.zellij_config {
            Some(c) => out.push(expand_tilde(c.as_str(), home)),
            None => {},
        }
        let ghost s1 = path_views(out@);
        match env_file {
            Some(f) => out.push(string_of(f)),
            None => {},
        }
        let ghost s2 = path_views(out@);
        match xdg_config_home {
            Some(x) => {
                let z = join_path(x, "zellij");
                out.push(join_path(z.as_str(), "config.kdl"));
            },
            None => {},
        }
        let ghost s3 = path_views(out@);
        match home {
            Some(hm) => {
                let c = join_path(hm, ".config");
                let z = join_path(c.as_str(), "zellij");
                out.push(join_path(z.as_str(), "config.kdl"));
            },
            None => {},
        }
        proof {
            let cfg = configured_view(self.session.zellij_config);
            let p1 = present(match cfg { Some(c) => Some(expand_tilde_spec(c, h)), None => None });
            assert(s1 =~= p1);
            assert(s2 =~= p1 + present(opt_view(env_file)));
        }
        assert(path_views(out@) =~= zellij_config_candidates_spec(
            configured_view(self.session.zellij_config),
            opt_view(env_file),
            opt_view(xdg_config_home),
            opt_view(home),
        ));
        out
    }

    /// The user's Zellij config, read-only: the first place in
    /// [`zellij_config_candidates_spec`] order whose file exists, where
    /// `exists[k]` tells whether the file of candidate `k` exists; `None`
    /// when none does.
    pub fn zellij_config_path(
        &self,
        env_file: Option<&str>,
        xdg_config_home: Option<&str>,
        home: Option<&str>,
        exists: &Vec<bool>,
    ) -> (res: Option<String>)
        ensures
            opt_string_view(res) == first_existing(
                zellij_config_candidates_spec(
                    configured_view(self.session.zellij_config),
                    opt_view(env_file),
                    opt_view(xdg_config_home),
                    opt_view(home),
                ),
                exists@,
                0,
            ),
    {
        let cands = self.zellij_config_candidates(env_file, xdg_config_home, home);
        let ghost cs = path_views(cands@);
        let mut i: usize = 0;
        while i < cands.len()
            invariant
                i <= cands.len(),
                cs == path_views(cands@),
                cs == zellij_config_candidates_spec(
                    configured_view(self.session.zellij_config),
                    opt_view(env_file),
                    opt_view(xdg_config_home),
                    opt_view(home),
                ),
                first_existing(cs, exists@, 0) == first_existing(cs, exists@, i as int),
            decreases cands.len() - i,
        {
            if i < exists.len() && exists[i] {
                assert(cs[i as int] == cands@[i as int]@);
                let r = string_of(cands[i].as_str());
                assert(r@ == cs[i as int]);
                return Some(r);
            }
            i = i + 1;
        }
        None
    }
}

pub open spec fn opt_string_view(o: Option<String>) -> Option<Seq<char>> {
    match o {
        Some(s) => Some(s@),
        None => None,
    }
}

/// Workspace preferences.
#[derive(Debug, Clone)]
pub struct WorkspaceConfig {
    /// The default workspace directory.
    pub default_dir: String,
    /// Detect the project type.
    pub auto_detect: bool,
    /// Open a new Zellij session by default.
    pub new_session_default: bool,
    /// Remember the last workspace.
    pub remember_last: bool,
    /// The last workspace used.
    pub last_workspace: Option<String>,
}

impl WorkspaceConfig {
    /// The defaults, with the working directory `cwd` (`.` when unknown) as
    /// the default directory.
    pub fn default_in(cwd: Option<&str>) -> (res: Self)
        ensures
            res.default_dir@ == match cwd {
                Some(d) => d@,
                None => "."@,
            },
            res.auto_detect,
            !res.new_session_default,
            res.remember_last,
            res.last_workspace is None,
    {
        WorkspaceConfig {
            default_dir: match cwd {
                Some(d) => string_of(d),
                None => string_of("."),
            },
            auto_detect: default_auto_detect(),
            new_session_default: false,
            remember_last: true,
            last_workspace: None,
        }
    }
}

} // verus!
