//! Host capabilities for the setup command.

use crate::setup::catalog::{
    tool_asset_matchers, tool_cargo_crate, tool_methods, tool_package, InstallMethod, ToolId,
};
use crate::text::{push_str, str_eq, string_of};
use vstd::prelude::*;

verus! {

#[derive(Debug, Clone, Copy, PartialEq, Eq, Structural)]
pub enum PkgManager {
    Brew,
    Apt,
    Dnf,
    Pacman,
}

pub open spec fn manager_program(m: PkgManager) -> Seq<char> {
    match m {
        PkgManager::Brew => "brew"@,
        PkgManager::Apt => "apt-get"@,
        PkgManager::Dnf => "dnf"@,
        PkgManager::Pacman => "pacman"@,
    }
}

/// Arguments after the program name that install `package` unattended.
pub open spec fn install_args_spec(m: PkgManager, package: Seq<char>) -> Seq<Seq<char>> {
    match m {
        PkgManager::Brew => seq!["install"@, package],
        PkgManager::Apt | PkgManager::Dnf => seq!["install"@, "-y"@, package],
        PkgManager::Pacman => seq!["-S"@, "--noconfirm"@, package],
    }
}

pub open spec fn string_views(v: Seq<String>) -> Seq<Seq<char>> {
    v.map_values(|s: String| s@)
}

impl PkgManager {
    pub fn as_str(self) -> (res: &'static str)
        ensures
            res@ == manager_program(self),
    {
        match self {
            PkgManager::Brew => "brew",
            PkgManager::Apt => "apt-get",
            PkgManager::Dnf => "dnf",
            PkgManager::Pacman => "pacman",
        }
    }

    pub fn install_args(self, package: &str) -> (res: Vec<String>)
        ensures
            string_views(res@) == install_args_spec(self, package@),
    {
        let v = match self {
            PkgManager::Brew => vec![string_of("install"), string_of(package)],
            PkgManager::Apt | PkgManager::Dnf => vec![
                string_of("install"),
                string_of("-y"),
                string_of(package),
            ],
            PkgManager::Pacman => vec![
                string_of("-S"),
                string_of("--noconfirm"),
                string_of(package),
            ],
        };
        assert(string_views(v@) =~= install_args_spec(self, package@));
        v
    }

    /// System package managers other than Homebrew install as root.
    pub fn needs_sudo(self) -> (res: bool)
        ensures
            res == (self != PkgManager::Brew),
    {
        match self {
            PkgManager::Brew => false,
            _ => true,
        }
    }
}

/// What the host offers for installing tools.
#[derive(Debug, Clone)]
pub struct HostInfo {
    pub target: String,
    pub pkg_manager: Option<PkgManager>,
    pub has_cargo: bool,
    pub has_curl: bool,
    pub install_dir: String,
}

/// Whether `method` can install `tool` on this host.
pub open spec fn method_available_spec(host: HostInfo, tool: ToolId, method: InstallMethod) -> bool {
    &&& tool_methods(tool).contains(method)
    &&& match method {
        InstallMethod::Cargo => host.has_cargo && tool_cargo_crate(tool) is Some,
        InstallMethod::Package => match host.pkg_manager {
            Some(m) => tool_package(tool, m) is Some,
            None => false,
        },
        InstallMethod::Binary => host.has_curl && tool_asset_matchers(tool, host.target@).len()
            > 0,
    }
}

impl HostInfo {
    pub fn method_available(&self, tool: ToolId, method: InstallMethod) -> (res: bool)
        ensures
            res == method_available_spec(*self, tool, method),
    {
        let methods = tool.methods();
        let mut found = false;
        let mut i: usize = 0;
        while i < methods.len()
            invariant
                i <= methods.len(),
                methods@ == tool_methods(tool),
                found == exists|j: int| 0 <= j < i && methods@[j] == method,
            decreases methods.len() - i,
        {
            if methods[i] == method {
                found = true;
            }
            i = i + 1;
        }
        if !found {
            assert(!tool_methods(tool).contains(method));
            return false;
        }
        assert(tool_methods(tool).contains(method));
        match method {
            InstallMethod::Cargo => self.has_cargo && tool.cargo_crate().is_some(),
            InstallMethod::Package => match self.pkg_manager {
                Some(m) => tool.package_name(m).is_some(),
                None => false,
            },
            InstallMethod::Binary => self.has_curl && tool.github_repo().is_some()
                && tool.asset_matchers(self.target.as_str()).len() > 0,
        }
    }

    /// The tool's methods usable on this host, in catalog order.
    pub fn available_methods(&self, tool: ToolId) -> (res: Vec<InstallMethod>)
        ensures
            res@ == tool_methods(tool).filter(|m: InstallMethod| method_available_spec(*self, tool, m)),
    {
        let methods = tool.methods();
        let ghost pred = |m: InstallMethod| method_available_spec(*self, tool, m);
        let mut out: Vec<InstallMethod> = Vec::new();
        let mut i: usize = 0;
        while i < methods.len()
            invariant
                i <= methods.len(),
                methods@ == tool_methods(tool),
                pred == (|m: InstallMethod| method_available_spec(*self, tool, m)),
                out@ == methods@.take(i as int).filter(pred),
            decreases methods.len() - i,
        {
            reveal_with_fuel(Seq::<_>::filter, 1);
            assert(methods@.take(i + 1).drop_last() =~= methods@.take(i as int));
            if self.method_available(tool, methods[i]) {
                out.push(methods[i]);
            }
            i = i + 1;
        }
        assert(methods@.take(methods.len() as int) =~= methods@);
        out
    }
}

/// The first package manager found: Homebrew, then (not on macOS) apt-get,
/// dnf and pacman.
pub open spec fn choose_pkg_manager_spec(
    is_macos: bool,
    has_brew: bool,
    has_apt: bool,
    has_dnf: bool,
    has_pacman: bool,
) -> Option<PkgManager> {
    if has_brew {
        Some(PkgManager::Brew)
    } else if is_macos {
        None
    } else if has_apt {
        Some(PkgManager::Apt)
    } else if has_dnf {
        Some(PkgManager::Dnf)
    } else if has_pacman {
        Some(PkgManager::Pacman)
    } else {
        None
    }
}

pub fn choose_pkg_manager(
    is_macos: bool,
    has_brew: bool,
    has_apt: bool,
    has_dnf: bool,
    has_pacman: bool,
) -> (res: Option<PkgManager>)
    ensures
        res == choose_pkg_manager_spec(is_macos, has_brew, has_apt, has_dnf, has_pacman),
{
    if has_brew {
        Some(PkgManager::Brew)
    } else if is_macos {
        None
    } else if has_apt {
        Some(PkgManager::Apt)
    } else if has_dnf {
        Some(PkgManager::Dnf)
    } else if has_pacman {
        Some(PkgManager::Pacman)
    } else {
        None
    }
}

/// `which::which(name).is_ok()`: whether an executable of this name is found
/// on `PATH`. The answer depends on the file system, so nothing is stated.
#[verifier::external_body]
pub fn command_exists(name: &str) -> bool {
    which::which(name).is_ok()
}

/// The package managers in the order their programs are probed: Homebrew,
/// then apt-get, dnf and pacman.
pub fn pkg_manager_probe_order() -> (res: Vec<PkgManager>)
    ensures
        res@ == seq![PkgManager::Brew, PkgManager::Apt, PkgManager::Dnf, PkgManager::Pacman],
{
    vec![PkgManager::Brew, PkgManager::Apt, PkgManager::Dnf, PkgManager::Pacman]
}

/// Detects the host's package manager by probing `PATH` for the program of
/// each manager ([`PkgManager::as_str`]) in [`pkg_manager_probe_order`]; the
/// others are not probed on macOS or once Homebrew is found.
/// [`choose_pkg_manager`] decides from what the probes found.
pub fn detect_pkg_manager(is_macos: bool) -> (res: Option<PkgManager>)
    ensures
        exists|b: bool, a: bool, d: bool, p: bool|
            res == choose_pkg_manager_spec(is_macos, b, a, d, p),
{
    let order = pkg_manager_probe_order();
    let has_brew = command_exists(order[0].as_str());
    if has_brew || is_macos {
        return choose_pkg_manager(is_macos, has_brew, false, false, false);
    }
    let has_apt = command_exists(order[1].as_str());
    let has_dnf = command_exists(order[2].as_str());
    let has_pacman = command_exists(order[3].as_str());
    choose_pkg_manager(is_macos, has_brew, has_apt, has_dnf, has_pacman)
}

/// Whether a tool counts as installed, given what the probes of its commands
/// found, in probe order: it does as soon as one probe found its command.
pub fn any_probe_found(found: &Vec<bool>) -> (res: bool)
    ensures
        res == found@.contains(true),
{
    let mut i: usize = 0;
    while i < found.len()
        invariant
            i <= found.len(),
            !found@.take(i as int).contains(true),
        decreases found.len() - i,
    {
        if found[i] {
            assert(found@[i as int] == true);
            return true;
        }
        assert(found@.take(i + 1) =~= found@.take(i as int).push(found@[i as int]));
        i = i + 1;
    }
    assert(found@.take(found.len() as int) =~= found@);
    false
}

/// What the probes of the tool's commands ([`ToolId::probe_names`]) find on
/// `PATH`, in probe order, stopping at the first one found. Which ones are
/// found depends on the file system; the shape of the answer does not: at
/// least one probe runs, all but the last found nothing, and the probes stop
/// early only on a find.
pub fn probe_tool(tool: ToolId) -> (res: Vec<bool>)
    ensures
        1 <= res@.len() <= tool.probe_names().len(),
        forall|k: int| 0 <= k < res@.len() - 1 ==> !(#[trigger] res@[k]),
        res@.len() < tool.probe_names().len() ==> res@.last(),
{
    let probes = tool.probe_commands();
    let ghost n = tool.probe_names().len();
    assert(probes@.len() == n) by {
        assert(crate::setup::catalog::strs_view(probes@).len() == probes@.len());
    }
    assert(n >= 1);
    let mut found: Vec<bool> = Vec::new();
    let mut i: usize = 0;
    while i < probes.len()
        invariant_except_break
            found@.len() == i,
            forall|k: int| 0 <= k < i ==> !(#[trigger] found@[k]),
        invariant
            i <= probes.len(),
            probes@.len() == n,
            n >= 1,
        ensures
            1 <= found@.len() <= n,
            forall|k: int| 0 <= k < found@.len() - 1 ==> !(#[trigger] found@[k]),
            found@.len() < n ==> found@.last(),
        decreases probes.len() - i,
    {
        let hit = command_exists(probes[i]);
        found.push(hit);
        if hit {
            break;
        }
        i = i + 1;
    }
    found
}

/// Whether any of the tool's probe commands is on `PATH`: what
/// [`any_probe_found`] decides from [`probe_tool`].
pub fn tool_installed(tool: ToolId) -> bool {
    let found = probe_tool(tool);
    any_probe_found(&found)
}

/// Whether Helix is offered, given what the probes of its commands found:
/// only when none of them found it.
pub fn offer_helix_from(found: &Vec<bool>) -> (res: bool)
    ensures
        res == !found@.contains(true),
{
    !any_probe_found(found)
}

/// Helix is offered only when it is not installed yet: what
/// [`offer_helix_from`] decides from [`probe_tool`] for Helix.
pub fn should_offer_helix() -> bool {
    let found = probe_tool(ToolId::Helix);
    offer_helix_from(&found)
}

/// The release target for an `std::env::consts` OS and architecture.
pub open spec fn target_for(os: Seq<char>, arch: Seq<char>) -> Option<Seq<char>> {
    if os == "linux"@ && arch == "x86_64"@ {
        Some("x86_64-unknown-linux-gnu"@)
    } else if os == "macos"@ && arch == "x86_64"@ {
        Some("x86_64-apple-darwin"@)
    } else if os == "macos"@ && arch == "aarch64"@ {
        Some("aarch64-apple-darwin"@)
    } else {
        None
    }
}

pub open spec fn unsupported_platform_message(os: Seq<char>, arch: Seq<char>) -> Seq<char> {
    "Unsupported platform for setup binaries ("@ + os + "/"@ + arch
        + "). Install tools manually or use package/cargo methods where available."@
}

/// Maps the host OS and architecture to a release target.
pub fn detect_target(os: &str, arch: &str) -> (res: Result<String, String>)
    ensures
        match res {
            Ok(t) => target_for(os@, arch@) == Some(t@),
            Err(m) => target_for(os@, arch@) is None && m@ == unsupported_platform_message(
                os@,
                arch@,
            ),
        },
{
    if str_eq(os, "linux") && str_eq(arch, "x86_64") {
        Ok(string_of("x86_64-unknown-linux-gnu"))
    } else if str_eq(os, "macos") && str_eq(arch, "x86_64") {
        Ok(string_of("x86_64-apple-darwin"))
    } else if str_eq(os, "macos") && str_eq(arch, "aarch64") {
        Ok(string_of("aarch64-apple-darwin"))
    } else {
        let mut m = string_of("Unsupported platform for setup binaries (");
        push_str(&mut m, os);
        push_str(&mut m, "/");
        push_str(&mut m, arch);
        push_str(
            &mut m,
            "). Install tools manually or use package/cargo methods where available.",
        );
        Err(m)
    }
}

pub open spec fn path_hint_message(install_dir: Seq<char>) -> Seq<char> {
    install_dir + " is not on PATH; add it or move installed binaries"@
}

/// A note when the install directory is not among the `PATH` entries.
pub fn ensure_path_hint(install_dir: &str, path_entries: &Vec<String>) -> (res: Option<String>)
    ensures
        match res {
            None => exists|i: int| 0 <= i < path_entries@.len() && (#[trigger] path_entries@[i])@
                == install_dir@,
            Some(m) => (forall|i: int|
                0 <= i < path_entries@.len() ==> (#[trigger] path_entries@[i])@ != install_dir@)
                && m@ == path_hint_message(install_dir@),
        },
{
    let mut i: usize = 0;
    while i < path_entries.len()
        invariant
            i <= path_entries.len(),
            forall|j: int| 0 <= j < i ==> (#[trigger] path_entries@[j])@ != install_dir@,
        decreases path_entries.len() - i,
    {
        if str_eq(path_entries[i].as_str(), install_dir) {
            return None;
        }
        i = i + 1;
    }
    let mut m = string_of(install_dir);
    push_str(&mut m, " is not on PATH; add it or move installed binaries");
    Some(m)
}

} // verus!
