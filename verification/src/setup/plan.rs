//! Ordered install plans built from the setup selections.

use crate::setup::catalog::{
    method_label, strs_view, tool_asset_matchers, tool_cargo_crate, tool_github_repo, tool_name,
    tool_package, InstallMethod, ToolId,
};
use crate::setup::detect::{
    command_exists, install_args_spec, manager_program, string_views, HostInfo, PkgManager,
};
use crate::text::{join_with, push_char, push_str, string_of};
use vstd::prelude::*;

verus! {

/// One row of the setup list: the tool, how to install it, whether it is
/// ticked, and whether it was found installed.
#[derive(Debug, Clone, Copy, PartialEq, Eq, Structural)]
pub struct ToolSelection {
    pub tool: ToolId,
    pub method: InstallMethod,
    pub selected: bool,
    pub already_installed: bool,
}

/// One command to run for one tool.
#[derive(Debug)]
pub struct InstallStep {
    pub tool: ToolId,
    pub method: InstallMethod,
    pub summary: String,
    pub argv: Vec<String>,
}

pub const SCRIPT_HEAD: &'static str = "\nset -euo pipefail\nREPO=\"";

pub const SCRIPT_AFTER_REPO: &'static str = "\"\nINSTALL_DIR=\"";

pub const SCRIPT_AFTER_DIR: &'static str = "\"\nBIN_NAME=\"";

pub const SCRIPT_AFTER_BIN: &'static str = "\"\nMATCHERS=(";

/// The part of the install script after the release-asset matchers: resolve
/// the latest release through the GitHub API, download the first asset that
/// matches, unpack it and install the binary into `INSTALL_DIR`.
pub const SCRIPT_TAIL: &'static str = r#")
tmpdir="$(mktemp -d)"
trap 'rm -rf "$tmpdir"' EXIT
api="https://api.github.com/repos/${REPO}/releases/latest"
json="$(curl -fsSL "$api")"
asset=""
for m in "${MATCHERS[@]}"; do
  candidate="$(printf '%s' "$json" | tr '{' '\n' | grep -oE '"browser_download_url":[[:space:]]*"[^"]+"' | sed 's/.*"\(https[^"]*\)".*/\1/' | grep -i -- "$m" | grep -vE '\.(deb|rpm|msi|sha256|sha512|sum|txt|asc)$' | head -n1 || true)"
  if [ -n "$candidate" ]; then
    asset="$candidate"
    break
  fi
done
if [ -z "$asset" ]; then
  echo "error: no matching release asset for $REPO (matchers: ${MATCHERS[*]})" >&2
  exit 1
fi
echo "Downloading $asset"
fname="$tmpdir/$(basename "$asset")"
curl -fsSL --proto '=https' --tlsv1.2 -o "$fname" "$asset"
mkdir -p "$INSTALL_DIR"
case "$fname" in
  *.tar.gz|*.tgz) tar -xzf "$fname" -C "$tmpdir" ;;
  *.tar.xz) tar -xJf "$fname" -C "$tmpdir" ;;
  *.zip)
    if command -v unzip >/dev/null 2>&1; then
      unzip -q "$fname" -d "$tmpdir"
    else
      echo "error: unzip is required for zip assets" >&2
      exit 1
    fi
    ;;
  *)
    # Single binary blob
    cp "$fname" "$tmpdir/$BIN_NAME"
    ;;
esac
found="$(find "$tmpdir" -type f -name "$BIN_NAME" | head -n1)"
if [ -z "$found" ]; then
  # Helix ships hx inside a versioned directory; also accept the tool name.
  found="$(find "$tmpdir" -type f \( -name "$BIN_NAME" -o -perm -111 \) | head -n1)"
fi
if [ -z "$found" ]; then
  echo "error: binary $BIN_NAME not found in archive" >&2
  find "$tmpdir" -maxdepth 3 -type f >&2 || true
  exit 1
fi
install -m 755 "$found" "$INSTALL_DIR/$BIN_NAME"
echo "Installed $INSTALL_DIR/$BIN_NAME"
"#;

/// The shell script that downloads a release binary from GitHub.
pub open spec fn install_script_spec(
    repo: Seq<char>,
    install_dir: Seq<char>,
    bin_name: Seq<char>,
    matcher_list: Seq<char>,
) -> Seq<char> {
    SCRIPT_HEAD@ + repo + SCRIPT_AFTER_REPO@ + install_dir + SCRIPT_AFTER_DIR@ + bin_name
        + SCRIPT_AFTER_BIN@ + matcher_list + SCRIPT_TAIL@
}

pub fn binary_install_script(repo: &str, install_dir: &str, bin_name: &str, matcher_list: &str) -> (res:
    String)
    ensures
        res@ == install_script_spec(repo@, install_dir@, bin_name@, matcher_list@),
{
    let mut s = string_of(SCRIPT_HEAD);
    push_str(&mut s, repo);
    push_str(&mut s, SCRIPT_AFTER_REPO);
    push_str(&mut s, install_dir);
    push_str(&mut s, SCRIPT_AFTER_DIR);
    push_str(&mut s, bin_name);
    push_str(&mut s, SCRIPT_AFTER_BIN);
    push_str(&mut s, matcher_list);
    push_str(&mut s, SCRIPT_TAIL);
    s
}

pub open spec fn quote_matcher(m: Seq<char>) -> Seq<char> {
    seq!['"'] + m + seq!['"']
}

/// The matchers, each in double quotes, separated by spaces (a bash array body).
pub open spec fn matcher_list_spec(ms: Seq<Seq<char>>) -> Seq<char> {
    join_with(ms.map_values(|m: Seq<char>| quote_matcher(m)), seq![' '])
}

fn matcher_list(ms: &Vec<&'static str>) -> (res: String)
    ensures
        res@ == matcher_list_spec(strs_view(ms@)),
{
    let ghost all = strs_view(ms@);
    let mut s = String::new();
    let mut i: usize = 0;
    while i < ms.len()
        invariant
            i <= ms.len(),
            all == strs_view(ms@),
            s@ == matcher_list_spec(all.take(i as int)),
        decreases ms.len() - i,
    {
        let ghost parts = all.take(i as int).map_values(|m: Seq<char>| quote_matcher(m));
        let ghost next = all.take(i + 1).map_values(|m: Seq<char>| quote_matcher(m));
        assert(next.drop_last() =~= parts);
        if i > 0 {
            push_char(&mut s, ' ');
        }
        push_char(&mut s, '"');
        push_str(&mut s, ms[i]);
        push_char(&mut s, '"');
        i = i + 1;
        assert(s@ =~= matcher_list_spec(all.take(i as int)));
    }
    assert(all.take(ms.len() as int) =~= all);
    s
}

/// What installing `tool` with `method` runs: a summary and the argument
/// vector, or why no step can be made. `has_sudo` tells whether `sudo` is on
/// `PATH` (used for system package managers).
pub open spec fn step_spec(tool: ToolId, method: InstallMethod, host: HostInfo, has_sudo: bool) -> Result<
    (Seq<char>, Seq<Seq<char>>),
    Seq<char>,
> {
    match method {
        InstallMethod::Cargo => match tool_cargo_crate(tool) {
            None => Err(tool_name(tool) + " has no cargo crate"@),
            Some(c) => Ok(("cargo install "@ + c, seq!["cargo"@, "install"@, c, "--locked"@])),
        },
        InstallMethod::Package => match host.pkg_manager {
            None => Err("no package manager detected"@),
            Some(m) => match tool_package(tool, m) {
                None => Err("no package mapping for "@ + tool_name(tool)),
                Some(p) => {
                    let sudo = if m != PkgManager::Brew && has_sudo {
                        seq!["sudo"@]
                    } else {
                        Seq::empty()
                    };
                    Ok(
                        (
                            manager_program(m) + " install "@ + p,
                            sudo + seq![manager_program(m)] + install_args_spec(m, p),
                        ),
                    )
                },
            },
        },
        InstallMethod::Binary => {
            let repo = tool_github_repo(tool);
            let matchers = tool_asset_matchers(tool, host.target@);
            let bin = if tool == ToolId::Helix {
                "hx"@
            } else {
                tool_name(tool)
            };
            if matchers.len() == 0 {
                Err("no binary asset matchers for "@ + tool_name(tool) + " on "@ + host.target@)
            } else {
                Ok(
                    (
                        "download "@ + repo + " binary → "@ + host.install_dir@ + "/"@ + bin,
                        seq![
                            "sh"@,
                            "-lc"@,
                            install_script_spec(
                                repo,
                                host.install_dir@,
                                bin,
                                matcher_list_spec(matchers),
                            ),
                        ],
                    ),
                )
            }
        },
    }
}

/// A package-manager install runs under `sudo` exactly when the manager
/// needs root (apt, dnf, pacman) and `sudo` is on `PATH`; Homebrew never runs
/// under `sudo`, its command always starts with `brew`; and the step with
/// `sudo` available differs from the one without only by that prefix.
pub proof fn lemma_sudo_only_for_root_managers(tool: ToolId, host: HostInfo, has_sudo: bool)
    requires
        host.pkg_manager is Some,
        step_spec(tool, InstallMethod::Package, host, has_sudo) is Ok,
    ensures
        step_spec(tool, InstallMethod::Package, host, has_sudo) matches Ok((_, argv)) && argv.len() > 0
            && (argv[0] == "sudo"@ <==> has_sudo && host.pkg_manager != Some(PkgManager::Brew))
            && (host.pkg_manager == Some(PkgManager::Brew) ==> argv[0] == "brew"@),
        step_spec(tool, InstallMethod::Package, host, true) matches Ok((_, with_sudo))
            && step_spec(tool, InstallMethod::Package, host, false) matches Ok((_, without))
            && with_sudo == (if host.pkg_manager == Some(PkgManager::Brew) {
            Seq::<Seq<char>>::empty()
        } else {
            seq!["sudo"@]
        }) + without,
{
    let m = host.pkg_manager->0;
    reveal_strlit("sudo");
    reveal_strlit("brew");
    reveal_strlit("apt-get");
    reveal_strlit("dnf");
    reveal_strlit("pacman");
    assert("sudo"@ != manager_program(m)) by {
        assert("sudo"@[0] == 's');
        assert(manager_program(m)[0] != 's');
    }
    let p = tool_package(tool, m)->0;
    let without = seq![manager_program(m)] + install_args_spec(m, p);
    assert(Seq::<Seq<char>>::empty() + without =~= without);
    assert(seq!["sudo"@] + seq![manager_program(m)] + install_args_spec(m, p) =~= seq!["sudo"@] + without);
    assert((seq!["sudo"@] + without)[0] == "sudo"@);
}

pub open spec fn step_matches(s: InstallStep, tool: ToolId, method: InstallMethod, host: HostInfo, has_sudo: bool) -> bool {
    &&& s.tool == tool
    &&& s.method == method
    &&& step_spec(tool, method, host, has_sudo) == Ok::<(Seq<char>, Seq<Seq<char>>), Seq<char>>((s.summary@, string_views(s.argv@)))
}

/// `res` is the step (or the refusal) for `tool` and `method`.
pub open spec fn step_result(res: Result<InstallStep, String>, tool: ToolId, method: InstallMethod, host: HostInfo, has_sudo: bool) -> bool {
    match res {
        Ok(s) => step_matches(s, tool, method, host, has_sudo),
        Err(m) => step_spec(tool, method, host, has_sudo) == Err::<(Seq<char>, Seq<Seq<char>>), Seq<char>>(m@),
    }
}

/// `res` is the plan (or the refusal) for these selections.
pub open spec fn plan_result(res: Result<Vec<InstallStep>, String>, sels: Seq<ToolSelection>, host: HostInfo, has_sudo: bool) -> bool {
    match res {
        Ok(steps) => steps@.len() == to_install(sels).len() && forall|k: int|
            0 <= k < steps@.len() ==> step_matches(#[trigger] steps@[k], to_install(sels)[k].tool, to_install(sels)[k].method, host, has_sudo),
        Err(m) => exists|k: int|
            0 <= k < to_install(sels).len() && step_spec(#[trigger] to_install(sels)[k].tool, to_install(sels)[k].method, host, has_sudo)
                == Err::<(Seq<char>, Seq<Seq<char>>), Seq<char>>(m@),
    }
}

fn push_lit(v: &mut Vec<String>, s: &str)
    ensures
        string_views(final(v)@) == string_views(old(v)@).push(s@),
{
    v.push(string_of(s));
    assert(string_views(v@) =~= string_views(old(v)@).push(s@));
}

/// The install step for one tool, given whether `sudo` is available.
pub fn step_for_with(tool: ToolId, method: InstallMethod, host: &HostInfo, has_sudo: bool) -> (res: Result<InstallStep, String>)
    ensures
        step_result(res, tool, method, *host, has_sudo),
{
    match method {
        InstallMethod::Cargo => {
            let crate_name = match tool.cargo_crate() {
                Some(c) => c,
                None => {
                    let mut m = string_of(tool.as_str());
                    push_str(&mut m, " has no cargo crate");
                    return Err(m);
                },
            };
            let mut summary = string_of("cargo install ");
            push_str(&mut summary, crate_name);
            let mut argv: Vec<String> = Vec::new();
            push_lit(&mut argv, "cargo");
            push_lit(&mut argv, "install");
            push_lit(&mut argv, crate_name);
            push_lit(&mut argv, "--locked");
            assert(string_views(argv@) =~= seq!["cargo"@, "install"@, crate_name@, "--locked"@]);
            Ok(InstallStep { tool, method, summary, argv })
        },
        InstallMethod::Package => {
            let manager = match host.pkg_manager {
                Some(m) => m,
                None => {
                    return Err(string_of("no package manager detected"));
                },
            };
            let package = match tool.package_name(manager) {
                Some(p) => p,
                None => {
                    let mut m = string_of("no package mapping for ");
                    push_str(&mut m, tool.as_str());
                    return Err(m);
                },
            };
            let mut argv: Vec<String> = Vec::new();
            if manager.needs_sudo() && has_sudo {
                push_lit(&mut argv, "sudo");
            }
            let ghost before = string_views(argv@);
            push_lit(&mut argv, manager.as_str());
            let args = manager.install_args(package);
            let mut i: usize = 0;
            let ghost mid = string_views(argv@);
            while i < args.len()
                invariant
                    i <= args.len(),
                    string_views(argv@) == mid + string_views(args@).take(i as int),
                decreases args.len() - i,
            {
                let a = args[i].clone();
                let ghost b = argv@;
                argv.push(a);
                assert(string_views(argv@) =~= string_views(b).push(args@[i as int]@));
                assert(string_views(args@).take(i + 1) =~= string_views(args@).take(i as int).push(args@[i as int]@));
                i = i + 1;
            }
            assert(string_views(args@).take(args.len() as int) =~= string_views(args@));
            let mut summary = string_of(manager.as_str());
            push_str(&mut summary, " install ");
            push_str(&mut summary, package);
            proof {
                let sudo = if manager != PkgManager::Brew && has_sudo {
                    seq!["sudo"@]
                } else {
                    Seq::<Seq<char>>::empty()
                };
                assert(before =~= sudo);
                assert(string_views(argv@) =~= sudo + seq![manager_program(manager)] + install_args_spec(manager, package@));
            }
            Ok(InstallStep { tool, method, summary, argv })
        },
        InstallMethod::Binary => {
            let repo = match tool.github_repo() {
                Some(r) => r,
                None => {
                    let mut m = string_of(tool.as_str());
                    push_str(&mut m, " has no GitHub repo");
                    return Err(m);
                },
            };
            let matchers = tool.asset_matchers(host.target.as_str());
            if matchers.len() == 0 {
                let mut m = string_of("no binary asset matchers for ");
                push_str(&mut m, tool.as_str());
                push_str(&mut m, " on ");
                push_str(&mut m, host.target.as_str());
                return Err(m);
            }
            let bin_name = tool.archive_binary_name();
            let list = matcher_list(&matchers);
            let script = binary_install_script(repo, host.install_dir.as_str(), bin_name, list.as_str());
            let mut summary = string_of("download ");
            push_str(&mut summary, repo);
            push_str(&mut summary, " binary → ");
            push_str(&mut summary, host.install_dir.as_str());
            push_str(&mut summary, "/");
            push_str(&mut summary, bin_name);
            let mut argv: Vec<String> = Vec::new();
            push_lit(&mut argv, "sh");
            push_lit(&mut argv, "-lc");
            let ghost b = argv@;
            let ghost sv = script@;
            argv.push(script);
            assert(string_views(argv@) =~= string_views(b).push(sv));
            proof {
                assert(string_views(argv@) =~= seq![
                    "sh"@,
                    "-lc"@,
                    install_script_spec(
                        tool_github_repo(tool),
                        host.install_dir@,
                        bin_name@,
                        matcher_list_spec(tool_asset_matchers(tool, host.target@)),
                    ),
                ]);
            }
            Ok(InstallStep { tool, method, summary, argv })
        },
    }
}

/// The program put in front of a system package install when it is found.
pub fn sudo_program() -> (res: &'static str)
    ensures
        res@ == "sudo"@,
{
    "sudo"
}

/// The install step for one tool (probing `PATH` for [`sudo_program`]).
pub fn step_for(tool: ToolId, method: InstallMethod, host: &HostInfo) -> (res: Result<InstallStep, String>)
    ensures
        step_result(res, tool, method, *host, true) || step_result(res, tool, method, *host, false),
{
    let has_sudo = command_exists(sudo_program());
    step_for_with(tool, method, host, has_sudo)
}

/// The selections that lead to an install step: ticked and not installed yet.
pub open spec fn to_install(sels: Seq<ToolSelection>) -> Seq<ToolSelection> {
    sels.filter(|s: ToolSelection| s.selected && !s.already_installed)
}

/// The install plan: one step per ticked tool that is not installed, in
/// list order; the first selection without a possible step fails the plan.
pub fn build_plan_with(selections: &Vec<ToolSelection>, host: &HostInfo, has_sudo: bool) -> (res: Result<Vec<InstallStep>, String>)
    ensures
        plan_result(res, selections@, *host, has_sudo),
{
    let ghost pred = |s: ToolSelection| s.selected && !s.already_installed;
    let mut steps: Vec<InstallStep> = Vec::new();
    let mut i: usize = 0;
    while i < selections.len()
        invariant
            i <= selections.len(),
            pred == (|s: ToolSelection| s.selected && !s.already_installed),
            steps@.len() == selections@.take(i as int).filter(pred).len(),
            forall|k: int|
                0 <= k < steps@.len() ==> step_matches(#[trigger] steps@[k], selections@.take(i as int).filter(pred)[k].tool, selections@.take(i as int).filter(pred)[k].method, *host, has_sudo),
        decreases selections.len() - i,
    {
        reveal_with_fuel(Seq::<_>::filter, 1);
        let ghost prev = selections@.take(i as int).filter(pred);
        assert(selections@.take(i + 1).drop_last() =~= selections@.take(i as int));
        let sel = selections[i];
        if sel.selected && !sel.already_installed {
            match step_for_with(sel.tool, sel.method, host, has_sudo) {
                Ok(step) => {
                    steps.push(step);
                },
                Err(m) => {
                    proof {
                        let all = to_install(selections@);
                        assert(selections@ =~= selections@.take(i + 1) + selections@.skip(i + 1));
                        vstd::seq_lib::lemma_seq_skip_of_skip(selections@, 0, 0);
                        Seq::filter_distributes_over_add(selections@.take(i + 1), selections@.skip(i + 1), pred);
                        let cur = selections@.take(i + 1).filter(pred);
                        assert(cur.last() == sel);
                        assert(all[cur.len() - 1] == sel);
                    }
                    return Err(m);
                },
            }
        }
        i = i + 1;
    }
    assert(selections@.take(selections.len() as int) =~= selections@);
    Ok(steps)
}

/// The install plan (probing `PATH` for [`sudo_program`]).
pub fn build_plan(selections: &Vec<ToolSelection>, host: &HostInfo) -> (res: Result<Vec<InstallStep>, String>)
    ensures
        plan_result(res, selections@, *host, true) || plan_result(res, selections@, *host, false),
{
    let has_sudo = command_exists(sudo_program());
    build_plan_with(selections, host, has_sudo)
}

pub open spec fn preview_spec(tool: ToolId, manager: PkgManager) -> Option<Seq<char>> {
    match tool_package(tool, manager) {
        None => None,
        Some(p) => Some(manager_program(manager) + " "@ + join_with(install_args_spec(manager, p), seq![' '])),
    }
}

/// The package-manager command line for a tool, for display.
pub fn package_step_preview(tool: ToolId, manager: PkgManager) -> (res: Option<String>)
    ensures
        match res {
            Some(s) => preview_spec(tool, manager) == Some(s@),
            None => preview_spec(tool, manager) is None,
        },
{
    let package = match tool.package_name(manager) {
        Some(p) => p,
        None => {
            return None;
        },
    };
    let args = manager.install_args(package);
    let ghost parts = string_views(args@);
    let mut s = string_of(manager.as_str());
    push_str(&mut s, " ");
    let ghost head = s@;
    let mut i: usize = 0;
    while i < args.len()
        invariant
            i <= args.len(),
            parts == string_views(args@),
            s@ == head + join_with(parts.take(i as int), seq![' ']),
        decreases args.len() - i,
    {
        assert(parts.take(i + 1).drop_last() =~= parts.take(i as int));
        if i > 0 {
            push_char(&mut s, ' ');
        }
        push_str(&mut s, args[i].as_str());
        i = i + 1;
        assert(s@ =~= head + join_with(parts.take(i as int), seq![' ']));
    }
    assert(parts.take(args.len() as int) =~= parts);
    Some(s)
}

} // verus!
