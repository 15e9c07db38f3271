//! Static catalog of installable companion tools.

use crate::setup::detect::PkgManager;
use crate::text::str_eq;
use vstd::prelude::*;

verus! {

/// High-level grouping shown in the setup TUI.
#[derive(Debug, Clone, Copy, PartialEq, Eq, Hash, Structural)]
pub enum Category {
    Core,
    FileManager,
    Git,
    Review,
    Workflow,
}

/// The heading a category is shown under.
pub open spec fn category_label(c: Category) -> Seq<char> {
    match c {
        Category::Core => "Core"@,
        Category::FileManager => "File manager"@,
        Category::Git => "Git"@,
        Category::Review => "Review"@,
        Category::Workflow => "Workflow"@,
    }
}

impl Category {
    pub fn label(self) -> (res: &'static str)
        ensures
            res@ == category_label(self),
    {
        match self {
            Category::Core => "Core",
            Category::FileManager => "File manager",
            Category::Git => "Git",
            Category::Review => "Review",
            Category::Workflow => "Workflow",
        }
    }

    /// Every category, in display order.
    pub fn all() -> (res: &'static [Category])
        ensures
            res@ == all_categories(),
    {
        let r: &'static [Category] = &[
            Category::Core,
            Category::FileManager,
            Category::Git,
            Category::Review,
            Category::Workflow,
        ];
        assert(r@ =~= all_categories());
        r
    }
}

pub open spec fn all_categories() -> Seq<Category> {
    seq![
        Category::Core,
        Category::FileManager,
        Category::Git,
        Category::Review,
        Category::Workflow,
    ]
}

/// How a tool can be installed.
#[derive(Debug, Clone, Copy, PartialEq, Eq, Hash, Structural)]
pub enum InstallMethod {
    Cargo,
    Package,
    Binary,
}

pub open spec fn method_label(m: InstallMethod) -> Seq<char> {
    match m {
        InstallMethod::Cargo => "cargo"@,
        InstallMethod::Package => "package"@,
        InstallMethod::Binary => "binary"@,
    }
}

/// Index of the first occurrence of `m`, or -1.
pub open spec fn first_index(ms: Seq<InstallMethod>, m: InstallMethod) -> int
    decreases ms.len(),
{
    if ms.len() == 0 {
        -1
    } else if ms[0] == m {
        0
    } else {
        let r = first_index(ms.drop_first(), m);
        if r < 0 {
            -1
        } else {
            r + 1
        }
    }
}

pub proof fn lemma_first_index(ms: Seq<InstallMethod>, m: InstallMethod)
    ensures
        -1 <= first_index(ms, m) < ms.len(),
        first_index(ms, m) >= 0 ==> ms[first_index(ms, m)] == m,
        forall|j: int| 0 <= j < ms.len() && (first_index(ms, m) < 0 || j < first_index(ms, m)) ==> ms[j] != m,
    decreases ms.len(),
{
    if ms.len() > 0 && ms[0] != m {
        lemma_first_index(ms.drop_first(), m);
        assert forall|j: int| 0 <= j < ms.len() && (first_index(ms, m) < 0 || j < first_index(ms, m)) implies ms[j] != m by {
            if j > 0 {
                assert(ms[j] == ms.drop_first()[j - 1]);
            }
        }
    }
}

/// The method after `current` among `available`, wrapping around; the first
/// one when `current` is not among them; `current` when none is available.
pub open spec fn next_method(current: InstallMethod, available: Seq<InstallMethod>) -> InstallMethod {
    if available.len() == 0 {
        current
    } else {
        let i = first_index(available, current);
        if i < 0 {
            available[0]
        } else {
            available[(i + 1) % (available.len() as int)]
        }
    }
}

impl InstallMethod {
    pub fn label(self) -> (res: &'static str)
        ensures
            res@ == method_label(self),
    {
        match self {
            InstallMethod::Cargo => "cargo",
            InstallMethod::Package => "package",
            InstallMethod::Binary => "binary",
        }
    }

    /// Cycles to the next available method.
    pub fn next(self, available: &[InstallMethod]) -> (res: InstallMethod)
        ensures
            res == next_method(self, available@),
    {
        if available.len() == 0 {
            return self;
        }
        proof {
            lemma_first_index(available@, self);
        }
        let mut i: usize = 0;
        while i < available.len()
            invariant
                i <= available.len(),
                forall|j: int| 0 <= j < i ==> available@[j] != self,
                -1 <= first_index(available@, self) < available@.len(),
                first_index(available@, self) >= 0 ==> available@[first_index(available@, self)] == self,
                forall|j: int| 0 <= j < available@.len() && (first_index(available@, self) < 0 || j < first_index(available@, self)) ==> available@[j] != self,
            decreases available.len() - i,
        {
            if available[i] == self {
                assert(first_index(available@, self) == i);
                return available[(i + 1) % available.len()];
            }
            i = i + 1;
        }
        assert(first_index(available@, self) < 0);
        available[0]
    }
}

/// Stable tool identity used throughout setup.
#[derive(Debug, Clone, Copy, PartialEq, Eq, Hash, Structural)]
pub enum ToolId {
    Zellij,
    Helix,
    Yazi,
    Lazygit,
    Gitui,
    Revdiff,
    Delta,
    Gh,
    Glab,
    GlabTui,
}

pub open spec fn tool_name(t: ToolId) -> Seq<char> {
    match t {
        ToolId::Zellij => "zellij"@,
        ToolId::Helix => "helix"@,
        ToolId::Yazi => "yazi"@,
        ToolId::Lazygit => "lazygit"@,
        ToolId::Gitui => "gitui"@,
        ToolId::Revdiff => "revdiff"@,
        ToolId::Delta => "delta"@,
        ToolId::Gh => "gh"@,
        ToolId::Glab => "glab"@,
        ToolId::GlabTui => "glab-tui"@,
    }
}

pub open spec fn tool_category(t: ToolId) -> Category {
    match t {
        ToolId::Zellij | ToolId::Helix => Category::Core,
        ToolId::Yazi => Category::FileManager,
        ToolId::Lazygit | ToolId::Gitui => Category::Git,
        ToolId::Revdiff | ToolId::Delta => Category::Review,
        ToolId::Gh | ToolId::Glab | ToolId::GlabTui => Category::Workflow,
    }
}

pub open spec fn tool_config_command(t: ToolId) -> Option<Seq<char>> {
    match t {
        ToolId::Zellij => Some("zellij"@),
        ToolId::Helix => Some("hx"@),
        ToolId::Yazi => Some("yazi"@),
        ToolId::Lazygit => Some("lazygit"@),
        ToolId::Gitui => Some("gitui"@),
        ToolId::Revdiff => Some("revdiff"@),
        ToolId::GlabTui => Some("glab-tui"@),
        ToolId::Glab => Some("glab"@),
        ToolId::Gh => Some("gh"@),
        ToolId::Delta => None,
    }
}

pub open spec fn tool_methods(t: ToolId) -> Seq<InstallMethod> {
    match t {
        ToolId::Zellij | ToolId::Yazi | ToolId::Gitui | ToolId::Delta => seq![
            InstallMethod::Cargo,
            InstallMethod::Package,
            InstallMethod::Binary,
        ],
        ToolId::Helix | ToolId::Lazygit | ToolId::Gh | ToolId::Glab => seq![
            InstallMethod::Package,
            InstallMethod::Binary,
        ],
        ToolId::Revdiff => seq![InstallMethod::Binary],
        ToolId::GlabTui => seq![InstallMethod::Cargo, InstallMethod::Binary],
    }
}

pub open spec fn tool_cargo_crate(t: ToolId) -> Option<Seq<char>> {
    match t {
        ToolId::Zellij => Some("zellij"@),
        ToolId::Yazi => Some("yazi-fm"@),
        ToolId::Gitui => Some("gitui"@),
        ToolId::Delta => Some("git-delta"@),
        ToolId::GlabTui => Some("glab-tui"@),
        _ => None,
    }
}

/// Package names per package manager. Every packaged tool uses its own
/// name, except delta (`git-delta`) and gh on pacman (`github-cli`).
pub open spec fn tool_package(t: ToolId, m: PkgManager) -> Option<Seq<char>> {
    match t {
        ToolId::Zellij => Some("zellij"@),
        ToolId::Helix => Some("helix"@),
        ToolId::Yazi => Some("yazi"@),
        ToolId::Lazygit => Some("lazygit"@),
        ToolId::Gitui => Some("gitui"@),
        ToolId::Delta => Some("git-delta"@),
        ToolId::Gh => if m == PkgManager::Pacman {
            Some("github-cli"@)
        } else {
            Some("gh"@)
        },
        ToolId::Glab => Some("glab"@),
        ToolId::Revdiff | ToolId::GlabTui => None,
    }
}

pub open spec fn tool_github_repo(t: ToolId) -> Seq<char> {
    match t {
        ToolId::Zellij => "zellij-org/zellij"@,
        ToolId::Helix => "helix-editor/helix"@,
        ToolId::Yazi => "sxyazi/yazi"@,
        ToolId::Lazygit => "jesseduffield/lazygit"@,
        ToolId::Gitui => "gitui-org/gitui"@,
        ToolId::Revdiff => "umputun/revdiff"@,
        ToolId::Delta => "dandavison/delta"@,
        ToolId::Gh => "cli/cli"@,
        ToolId::Glab => "glab-cli/glab"@,
        ToolId::GlabTui => "rcieri/glab-tui"@,
    }
}

pub open spec fn linux_x86() -> Seq<char> {
    "x86_64-unknown-linux-gnu"@
}

pub open spec fn mac_x86() -> Seq<char> {
    "x86_64-apple-darwin"@
}

pub open spec fn mac_arm() -> Seq<char> {
    "aarch64-apple-darwin"@
}

/// Substrings that pick a release asset of the tool for a host target; none
/// for targets other than the three supported ones.
pub open spec fn tool_asset_matchers(t: ToolId, target: Seq<char>) -> Seq<Seq<char>> {
    if target == linux_x86() {
        match t {
            ToolId::Zellij => seq!["x86_64-unknown-linux-musl"@, "x86_64-unknown-linux-gnu"@],
            ToolId::Helix => seq!["x86_64-linux"@],
            ToolId::Yazi => seq!["x86_64-unknown-linux-gnu"@],
            ToolId::Lazygit => seq!["Linux_x86_64"@, "linux_x86_64"@],
            ToolId::Gitui => seq!["linux-x86_64"@, "x86_64-unknown-linux"@],
            ToolId::Revdiff => seq!["linux_amd64"@, "linux-amd64"@, "x86_64"@],
            ToolId::Delta => seq!["x86_64-unknown-linux-gnu"@, "x86_64-unknown-linux-musl"@],
            ToolId::Gh => seq!["linux_amd64"@],
            ToolId::Glab => seq!["Linux_x86_64"@, "linux_amd64"@],
            ToolId::GlabTui => seq!["x86_64-unknown-linux"@, "linux-x86_64"@],
        }
    } else if target == mac_x86() {
        match t {
            ToolId::Zellij => seq!["x86_64-apple-darwin"@],
            ToolId::Helix => seq!["x86_64-macos"@],
            ToolId::Yazi => seq!["x86_64-apple-darwin"@],
            ToolId::Lazygit => seq!["Darwin_x86_64"@, "darwin_x86_64"@],
            ToolId::Gitui => seq!["mac-x86_64"@, "x86_64-apple-darwin"@],
            ToolId::Revdiff => seq!["darwin_amd64"@, "macos"@],
            ToolId::Delta => seq!["x86_64-apple-darwin"@],
            ToolId::Gh => seq!["macOS_amd64"@, "macOS_amd64"@],
            ToolId::Glab => seq!["Darwin_x86_64"@, "macOS_amd64"@],
            ToolId::GlabTui => seq!["x86_64-apple-darwin"@, "macos-x86_64"@],
        }
    } else if target == mac_arm() {
        match t {
            ToolId::Zellij => seq!["aarch64-apple-darwin"@],
            ToolId::Helix => seq!["aarch64-macos"@],
            ToolId::Yazi => seq!["aarch64-apple-darwin"@],
            ToolId::Lazygit => seq!["Darwin_arm64"@, "darwin_arm64"@],
            ToolId::Gitui => seq!["mac-aarch64"@, "aarch64-apple-darwin"@],
            ToolId::Revdiff => seq!["darwin_arm64"@, "macos_arm"@],
            ToolId::Delta => seq!["aarch64-apple-darwin"@],
            ToolId::Gh => seq!["macOS_arm64"@],
            ToolId::Glab => seq!["Darwin_arm64"@, "macOS_arm64"@],
            ToolId::GlabTui => seq!["aarch64-apple-darwin"@, "macos-aarch64"@],
        }
    } else {
        Seq::empty()
    }
}

pub open spec fn strs_view(v: Seq<&str>) -> Seq<Seq<char>> {
    v.map_values(|s: &str| s@)
}

impl ToolId {
    pub fn as_str(self) -> (res: &'static str)
        ensures
            res@ == tool_name(self),
    {
        match self {
            ToolId::Zellij => "zellij",
            ToolId::Helix => "helix",
            ToolId::Yazi => "yazi",
            ToolId::Lazygit => "lazygit",
            ToolId::Gitui => "gitui",
            ToolId::Revdiff => "revdiff",
            ToolId::Delta => "delta",
            ToolId::Gh => "gh",
            ToolId::Glab => "glab",
            ToolId::GlabTui => "glab-tui",
        }
    }

    /// Executable names probed for "already installed": `hx` and `helix` for
    /// Helix, the tool's own name for the others.
    pub open spec fn probe_names(self) -> Seq<Seq<char>> {
        if self == ToolId::Helix {
            seq!["hx"@, "helix"@]
        } else if self == ToolId::Zellij {
            seq!["zellij"@]
        } else {
            seq![tool_name(self)]
        }
    }

    /// Executable names probed for "already installed".
    pub fn probe_commands(self) -> (res: Vec<&'static str>)
        ensures
            strs_view(res@) == self.probe_names(),
    {
        let v: Vec<&'static str> = match self {
            ToolId::Helix => vec!["hx", "helix"],
            ToolId::Zellij => vec!["zellij"],
            other => vec![other.as_str()],
        };
        assert(strs_view(v@) =~= (if self == ToolId::Helix {
            seq!["hx"@, "helix"@]
        } else if self == ToolId::Zellij {
            seq!["zellij"@]
        } else {
            seq![tool_name(self)]
        }));
        v
    }

    pub fn category(self) -> (res: Category)
        ensures
            res == tool_category(self),
    {
        match self {
            ToolId::Zellij | ToolId::Helix => Category::Core,
            ToolId::Yazi => Category::FileManager,
            ToolId::Lazygit | ToolId::Gitui => Category::Git,
            ToolId::Revdiff | ToolId::Delta => Category::Review,
            ToolId::Gh | ToolId::Glab | ToolId::GlabTui => Category::Workflow,
        }
    }

    /// Tools preselected in the setup list.
    pub fn recommended(self) -> (res: bool)
        ensures
            res == (self == ToolId::Zellij || self == ToolId::Helix || self == ToolId::Yazi
                || self == ToolId::Lazygit || self == ToolId::Revdiff || self == ToolId::GlabTui),
    {
        match self {
            ToolId::Zellij | ToolId::Helix | ToolId::Yazi | ToolId::Lazygit | ToolId::Revdiff
            | ToolId::GlabTui => true,
            _ => false,
        }
    }

    /// Command written into the sat-hx-ide config when this tool wins its category.
    pub fn config_command(self) -> (res: Option<&'static str>)
        ensures
            match res {
                Some(c) => tool_config_command(self) == Some(c@),
                None => tool_config_command(self) is None,
            },
    {
        match self {
            ToolId::Zellij => Some("zellij"),
            ToolId::Helix => Some("hx"),
            ToolId::Yazi => Some("yazi"),
            ToolId::Lazygit => Some("lazygit"),
            ToolId::Gitui => Some("gitui"),
            ToolId::Revdiff => Some("revdiff"),
            ToolId::GlabTui => Some("glab-tui"),
            ToolId::Glab => Some("glab"),
            ToolId::Gh => Some("gh"),
            ToolId::Delta => None,
        }
    }

    pub fn methods(self) -> (res: Vec<InstallMethod>)
        ensures
            res@ == tool_methods(self),
    {
        let v = match self {
            ToolId::Zellij | ToolId::Yazi | ToolId::Gitui | ToolId::Delta => vec![
                InstallMethod::Cargo,
                InstallMethod::Package,
                InstallMethod::Binary,
            ],
            ToolId::Helix | ToolId::Lazygit | ToolId::Gh | ToolId::Glab => vec![
                InstallMethod::Package,
                InstallMethod::Binary,
            ],
            ToolId::Revdiff => vec![InstallMethod::Binary],
            ToolId::GlabTui => vec![InstallMethod::Cargo, InstallMethod::Binary],
        };
        assert(v@ =~= tool_methods(self));
        v
    }

    pub fn default_method(self) -> (res: InstallMethod)
        ensures
            res == tool_methods(self)[0],
    {
        let m = self.methods();
        m[0]
    }

    pub fn cargo_crate(self) -> (res: Option<&'static str>)
        ensures
            match res {
                Some(c) => tool_cargo_crate(self) == Some(c@),
                None => tool_cargo_crate(self) is None,
            },
    {
        match self {
            ToolId::Zellij => Some("zellij"),
            ToolId::Yazi => Some("yazi-fm"),
            ToolId::Gitui => Some("gitui"),
            ToolId::Delta => Some("git-delta"),
            ToolId::GlabTui => Some("glab-tui"),
            _ => None,
        }
    }

    /// Package name under the detected package manager.
    pub fn package_name(self, manager: PkgManager) -> (res: Option<&'static str>)
        ensures
            match res {
                Some(c) => tool_package(self, manager) == Some(c@),
                None => tool_package(self, manager) is None,
            },
    {
        match self {
            ToolId::Zellij => Some("zellij"),
            ToolId::Helix => Some("helix"),
            ToolId::Yazi => Some("yazi"),
            ToolId::Lazygit => Some("lazygit"),
            ToolId::Gitui => Some("gitui"),
            ToolId::Delta => Some("git-delta"),
            ToolId::Gh => match manager {
                PkgManager::Pacman => Some("github-cli"),
                _ => Some("gh"),
            },
            ToolId::Glab => Some("glab"),
            ToolId::Revdiff | ToolId::GlabTui => None,
        }
    }

    pub fn github_repo(self) -> (res: Option<&'static str>)
        ensures
            res matches Some(r) && r@ == tool_github_repo(self),
    {
        match self {
            ToolId::Zellij => Some("zellij-org/zellij"),
            ToolId::Helix => Some("helix-editor/helix"),
            ToolId::Yazi => Some("sxyazi/yazi"),
            ToolId::Lazygit => Some("jesseduffield/lazygit"),
            ToolId::Gitui => Some("gitui-org/gitui"),
            ToolId::Revdiff => Some("umputun/revdiff"),
            ToolId::Delta => Some("dandavison/delta"),
            ToolId::Gh => Some("cli/cli"),
            ToolId::Glab => Some("glab-cli/glab"),
            ToolId::GlabTui => Some("rcieri/glab-tui"),
        }
    }

    /// Substrings used to pick a release asset for the host target.
    pub fn asset_matchers(self, target: &str) -> (res: Vec<&'static str>)
        ensures
            strs_view(res@) == tool_asset_matchers(self, target@),
    {
        let v: Vec<&'static str> = if str_eq(target, "x86_64-unknown-linux-gnu") {
            match self {
                ToolId::Zellij => vec!["x86_64-unknown-linux-musl", "x86_64-unknown-linux-gnu"],
                ToolId::Helix => vec!["x86_64-linux"],
                ToolId::Yazi => vec!["x86_64-unknown-linux-gnu"],
                ToolId::Lazygit => vec!["Linux_x86_64", "linux_x86_64"],
                ToolId::Gitui => vec!["linux-x86_64", "x86_64-unknown-linux"],
                ToolId::Revdiff => vec!["linux_amd64", "linux-amd64", "x86_64"],
                ToolId::Delta => vec!["x86_64-unknown-linux-gnu", "x86_64-unknown-linux-musl"],
                ToolId::Gh => vec!["linux_amd64"],
                ToolId::Glab => vec!["Linux_x86_64", "linux_amd64"],
                ToolId::GlabTui => vec!["x86_64-unknown-linux", "linux-x86_64"],
            }
        } else if str_eq(target, "x86_64-apple-darwin") {
            match self {
                ToolId::Zellij => vec!["x86_64-apple-darwin"],
                ToolId::Helix => vec!["x86_64-macos"],
                ToolId::Yazi => vec!["x86_64-apple-darwin"],
                ToolId::Lazygit => vec!["Darwin_x86_64", "darwin_x86_64"],
                ToolId::Gitui => vec!["mac-x86_64", "x86_64-apple-darwin"],
                ToolId::Revdiff => vec!["darwin_amd64", "macos"],
                ToolId::Delta => vec!["x86_64-apple-darwin"],
                ToolId::Gh => vec!["macOS_amd64", "macOS_amd64"],
                ToolId::Glab => vec!["Darwin_x86_64", "macOS_amd64"],
                ToolId::GlabTui => vec!["x86_64-apple-darwin", "macos-x86_64"],
            }
        } else if str_eq(target, "aarch64-apple-darwin") {
            match self {
                ToolId::Zellij => vec!["aarch64-apple-darwin"],
                ToolId::Helix => vec!["aarch64-macos"],
                ToolId::Yazi => vec!["aarch64-apple-darwin"],
                ToolId::Lazygit => vec!["Darwin_arm64", "darwin_arm64"],
                ToolId::Gitui => vec!["mac-aarch64", "aarch64-apple-darwin"],
                ToolId::Revdiff => vec!["darwin_arm64", "macos_arm"],
                ToolId::Delta => vec!["aarch64-apple-darwin"],
                ToolId::Gh => vec!["macOS_arm64"],
                ToolId::Glab => vec!["Darwin_arm64", "macOS_arm64"],
                ToolId::GlabTui => vec!["aarch64-apple-darwin", "macos-aarch64"],
            }
        } else {
            Vec::new()
        };
        assert(strs_view(v@) =~= tool_asset_matchers(self, target@));
        v
    }

    /// Binary file name expected inside a downloaded archive.
    pub fn archive_binary_name(self) -> (res: &'static str)
        ensures
            res@ == (if self == ToolId::Helix {
                "hx"@
            } else {
                tool_name(self)
            }),
    {
        match self {
            ToolId::Helix => "hx",
            other => other.as_str(),
        }
    }
}

pub open spec fn all_tools() -> Seq<ToolId> {
    seq![
        ToolId::Zellij,
        ToolId::Helix,
        ToolId::Yazi,
        ToolId::Lazygit,
        ToolId::Gitui,
        ToolId::Revdiff,
        ToolId::Delta,
        ToolId::Gh,
        ToolId::Glab,
        ToolId::GlabTui,
    ]
}

/// Full catalog in display order.
pub fn catalog_tools() -> (res: Vec<ToolId>)
    ensures
        res@ == all_tools(),
{
    let v = vec![
        ToolId::Zellij,
        ToolId::Helix,
        ToolId::Yazi,
        ToolId::Lazygit,
        ToolId::Gitui,
        ToolId::Revdiff,
        ToolId::Delta,
        ToolId::Gh,
        ToolId::Glab,
        ToolId::GlabTui,
    ];
    assert(v@ =~= all_tools());
    v
}

pub open spec fn preference(category: Category) -> Seq<ToolId> {
    match category {
        Category::Core => seq![ToolId::Zellij, ToolId::Helix],
        Category::FileManager => seq![ToolId::Yazi],
        Category::Git => seq![ToolId::Lazygit, ToolId::Gitui],
        Category::Review => seq![ToolId::Revdiff],
        Category::Workflow => seq![ToolId::GlabTui, ToolId::Glab, ToolId::Gh],
    }
}

/// Preference order when choosing which selected tool updates the config.
pub fn config_preference(category: Category) -> (res: Vec<ToolId>)
    ensures
        res@ == preference(category),
{
    let v = match category {
        Category::Core => vec![ToolId::Zellij, ToolId::Helix],
        Category::FileManager => vec![ToolId::Yazi],
        Category::Git => vec![ToolId::Lazygit, ToolId::Gitui],
        Category::Review => vec![ToolId::Revdiff],
        Category::Workflow => vec![ToolId::GlabTui, ToolId::Glab, ToolId::Gh],
    };
    assert(v@ =~= preference(category));
    v
}

/// Cycling through available methods never leaves them.
pub proof fn lemma_next_method_in(ms: Seq<InstallMethod>, m: InstallMethod)
    requires
        ms.len() > 0,
    ensures
        ms.contains(next_method(m, ms)),
{
    lemma_first_index(ms, m);
    let i = first_index(ms, m);
    if i >= 0 {
        let n = ms.len() as int;
        let k = (i + 1) % n;
        assert(0 <= k < n) by (nonlinear_arith)
            requires
                0 <= i < n,
                k == (i + 1) % n,
        ;
        assert(ms[k] == next_method(m, ms));
    } else {
        assert(ms[0] == next_method(m, ms));
    }
}

/// Cycling through a tool's install methods never leaves them.
pub proof fn lemma_next_method_stays_available(t: ToolId, m: InstallMethod)
    ensures
        tool_methods(t).len() > 0,
        tool_methods(t).contains(next_method(m, tool_methods(t))),
{
    assert(tool_methods(t).len() > 0);
    lemma_next_method_in(tool_methods(t), m);
}

/// A tool is offered through cargo exactly when it has a crate.
pub proof fn lemma_cargo_method_has_crate(t: ToolId)
    ensures
        tool_methods(t).contains(InstallMethod::Cargo) <==> tool_cargo_crate(t) is Some,
{
    let ms = tool_methods(t);
    if tool_cargo_crate(t) is Some {
        assert(ms[0] == InstallMethod::Cargo);
    } else {
        assert forall|i: int| 0 <= i < ms.len() implies ms[i] != InstallMethod::Cargo by {
            match t {
                ToolId::Helix | ToolId::Lazygit | ToolId::Gh | ToolId::Glab => {
                    assert(ms =~= seq![InstallMethod::Package, InstallMethod::Binary]);
                },
                _ => {
                    assert(ms =~= seq![InstallMethod::Binary]);
                },
            }
        }
    }
}

/// The preference list of a category holds exactly the tools of that
/// category that have a command to write into the config.
pub proof fn lemma_preference_is_category(t: ToolId, c: Category)
    ensures
        preference(c).contains(t) <==> (tool_category(t) == c && tool_config_command(t) is Some),
{
    let p = preference(c);
    if tool_category(t) == c && tool_config_command(t) is Some {
        match t {
            ToolId::Zellij => assert(p[0] == t),
            ToolId::Helix => assert(p[1] == t),
            ToolId::Yazi => assert(p[0] == t),
            ToolId::Lazygit => assert(p[0] == t),
            ToolId::Gitui => assert(p[1] == t),
            ToolId::Revdiff => assert(p[0] == t),
            ToolId::GlabTui => assert(p[0] == t),
            ToolId::Glab => assert(p[1] == t),
            ToolId::Gh => assert(p[2] == t),
            ToolId::Delta => {},
        }
    }
    if p.contains(t) {
        let i = choose|i: int| 0 <= i < p.len() && p[i] == t;
        match c {
            Category::Core => assert(i == 0 || i == 1),
            Category::FileManager => assert(i == 0),
            Category::Git => assert(i == 0 || i == 1),
            Category::Review => assert(i == 0),
            Category::Workflow => assert(0 <= i <= 2),
        }
    }
}

} // verus!
