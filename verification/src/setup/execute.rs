//! Showing install commands.

use crate::setup::catalog::{tool_name, ToolId};
use crate::setup::plan::{InstallStep, ToolSelection};
use crate::text::{chars_of, is_whitespace, is_ws, join_with, push_char, push_str, string_of};
use vstd::prelude::*;

verus! {

pub open spec fn has_whitespace(s: Seq<char>) -> bool {
    exists|i: int| 0 <= i < s.len() && is_ws(#[trigger] s[i])
}

/// An argument as shown to the user: in single quotes when it holds whitespace.
pub open spec fn shown_arg(a: Seq<char>) -> Seq<char> {
    if has_whitespace(a) {
        seq!['\''] + a + seq!['\'']
    } else {
        a
    }
}

pub open spec fn format_argv_spec(argv: Seq<String>) -> Seq<char> {
    join_with(argv.map_values(|a: String| shown_arg(a@)), seq![' '])
}

fn contains_whitespace(s: &str) -> (res: bool)
    ensures
        res == has_whitespace(s@),
{
    let cs = chars_of(s);
    let mut i: usize = 0;
    while i < cs.len()
        invariant
            i <= cs.len(),
            cs@ == s@,
            forall|j: int| 0 <= j < i ==> !is_ws(#[trigger] s@[j]),
        decreases cs.len() - i,
    {
        if is_whitespace(cs[i]) {
            return true;
        }
        i = i + 1;
    }
    false
}

/// The command line of an install step, for display.
pub fn format_argv(argv: &Vec<String>) -> (res: String)
    ensures
        res@ == format_argv_spec(argv@),
{
    let mut out = String::new();
    let mut i: usize = 0;
    while i < argv.len()
        invariant
            i <= argv.len(),
            out@ == format_argv_spec(argv@.take(i as int)),
        decreases argv.len() - i,
    {
        let ghost prev = argv@.take(i as int).map_values(|a: String| shown_arg(a@));
        let ghost next = argv@.take(i + 1).map_values(|a: String| shown_arg(a@));
        assert(next.drop_last() =~= prev);
        if i > 0 {
            push_char(&mut out, ' ');
        }
        let a = argv[i].as_str();
        if contains_whitespace(a) {
            push_char(&mut out, '\'');
            push_str(&mut out, a);
            push_char(&mut out, '\'');
        } else {
            push_str(&mut out, a);
        }
        i = i + 1;
        assert(out@ =~= format_argv_spec(argv@.take(i as int)));
    }
    assert(argv@.take(argv.len() as int) =~= argv@);
    out
}

/// What running an install plan did.
#[derive(Debug)]
pub struct ExecuteReport {
    /// Tools installed.
    pub succeeded: Vec<String>,
    /// Tools whose step failed, with the failure.
    pub failed: Vec<(String, String)>,
    /// Tools not installed because of a dry run.
    pub skipped: Vec<String>,
}

pub open spec fn names(v: Seq<String>) -> Seq<Seq<char>> {
    v.map_values(|s: String| s@)
}

pub open spec fn step_names(steps: Seq<InstallStep>) -> Seq<Seq<char>> {
    steps.map_values(|s: InstallStep| tool_name(s.tool))
}

impl Default for ExecuteReport {
    fn default() -> (res: Self)
        ensures
            res.succeeded@.len() == 0,
            res.failed@.len() == 0,
            res.skipped@.len() == 0,
    {
        ExecuteReport { succeeded: Vec::new(), failed: Vec::new(), skipped: Vec::new() }
    }
}

impl ExecuteReport {
    /// The report of a dry run: every planned tool skipped.
    pub fn dry_run(steps: &Vec<InstallStep>) -> (res: Self)
        ensures
            res.succeeded@.len() == 0,
            res.failed@.len() == 0,
            names(res.skipped@) == step_names(steps@),
    {
        let mut skipped: Vec<String> = Vec::new();
        let mut i: usize = 0;
        while i < steps.len()
            invariant
                i <= steps.len(),
                names(skipped@) == step_names(steps@.take(i as int)),
            decreases steps.len() - i,
        {
            let ghost prev = skipped@;
            let name = string_of(steps[i].tool.as_str());
            assert(name@ == tool_name(steps@[i as int].tool));
            skipped.push(name);
            assert(names(skipped@) =~= names(prev).push(name@));
            assert(step_names(steps@.take(i + 1)) =~= step_names(steps@.take(i as int)).push(
                tool_name(steps@[i as int].tool),
            ));
            i = i + 1;
        }
        assert(steps@.take(steps.len() as int) =~= steps@);
        ExecuteReport { succeeded: Vec::new(), failed: Vec::new(), skipped }
    }

    /// Records how one tool's step went.
    pub fn record(&mut self, tool: ToolId, outcome: Result<(), String>)
        ensures
            match outcome {
                Ok(_) => names(final(self).succeeded@) == names(old(self).succeeded@).push(tool_name(tool))
                    && final(self).failed@ == old(self).failed@,
                Err(e) => final(self).failed@.len() == old(self).failed@.len() + 1
                    && final(self).failed@.drop_last() == old(self).failed@
                    && final(self).failed@.last().0@ == tool_name(tool)
                    && final(self).failed@.last().1@ == e@
                    && final(self).succeeded@ == old(self).succeeded@,
            },
            final(self).skipped@ == old(self).skipped@,
    {
        match outcome {
            Ok(_) => {
                let ghost before = self.succeeded@;
                self.succeeded.push(string_of(tool.as_str()));
                assert(names(self.succeeded@) =~= names(before).push(tool_name(tool)));
            },
            Err(e) => {
                let ghost before = self.failed@;
                self.failed.push((string_of(tool.as_str()), e));
                assert(self.failed@.drop_last() =~= before);
            },
        }
    }
}

/// The tools the configuration may switch to: those installed now, then the
/// selected tools that were installed already.
pub open spec fn installed_for_config_spec(succeeded: Seq<String>, sels: Seq<ToolSelection>) -> Seq<
    Seq<char>,
> {
    names(succeeded) + sels.filter(|s: ToolSelection| s.selected && s.already_installed).map_values(
        |s: ToolSelection| tool_name(s.tool),
    )
}

pub fn installed_for_config(report: &ExecuteReport, selections: &Vec<ToolSelection>) -> (res: Vec<String>)
    ensures
        names(res@) == installed_for_config_spec(report.succeeded@, selections@),
{
    let mut out: Vec<String> = Vec::new();
    let mut i: usize = 0;
    while i < report.succeeded.len()
        invariant
            i <= report.succeeded.len(),
            names(out@) == names(report.succeeded@.take(i as int)),
        decreases report.succeeded.len() - i,
    {
        let ghost prev = out@;
        let s = string_of(report.succeeded[i].as_str());
        out.push(s);
        assert(names(out@) =~= names(prev).push(report.succeeded@[i as int]@));
        assert(names(report.succeeded@.take(i + 1)) =~= names(report.succeeded@.take(i as int)).push(
            report.succeeded@[i as int]@,
        ));
        i = i + 1;
    }
    assert(report.succeeded@.take(report.succeeded.len() as int) =~= report.succeeded@);
    let ghost base = out@;
    let ghost pred = |s: ToolSelection| s.selected && s.already_installed;
    let mut j: usize = 0;
    while j < selections.len()
        invariant
            j <= selections.len(),
            names(base) == names(report.succeeded@),
            pred == (|s: ToolSelection| s.selected && s.already_installed),
            names(out@) == names(base) + selections@.take(j as int).filter(pred).map_values(
                |s: ToolSelection| tool_name(s.tool),
            ),
        decreases selections.len() - j,
    {
        reveal_with_fuel(Seq::<_>::filter, 1);
        let s = selections[j];
        let ghost prev_kept = selections@.take(j as int).filter(pred);
        let ghost prev_out = out@;
        assert(selections@.take(j + 1).drop_last() =~= selections@.take(j as int));
        if s.selected && s.already_installed {
            let name = string_of(s.tool.as_str());
            out.push(name);
            assert(selections@.take(j + 1).filter(pred) == prev_kept.push(s));
            assert(names(out@) =~= names(prev_out).push(tool_name(s.tool)));
            assert(prev_kept.push(s).map_values(|s: ToolSelection| tool_name(s.tool)) =~= prev_kept.map_values(
                |s: ToolSelection| tool_name(s.tool),
            ).push(tool_name(s.tool)));
        } else {
            assert(selections@.take(j + 1).filter(pred) == prev_kept);
        }
        j = j + 1;
    }
    assert(selections@.take(selections.len() as int) =~= selections@);
    out
}

pub open spec fn kept_selection(s: ToolSelection) -> bool {
    s.selected && s.already_installed
}

/// The tools selected that were installed already, by name, in order: the
/// summary lists them as kept.
pub open spec fn kept_tools_spec(sels: Seq<ToolSelection>) -> Seq<Seq<char>> {
    sels.filter(|s: ToolSelection| kept_selection(s)).map_values(|s: ToolSelection| tool_name(s.tool))
}

pub fn kept_tools(sels: &Vec<ToolSelection>) -> (res: Vec<String>)
    ensures
        names(res@) == kept_tools_spec(sels@),
{
    let mut out: Vec<String> = Vec::new();
    let mut i: usize = 0;
    while i < sels.len()
        invariant
            i <= sels.len(),
            names(out@) == sels@.take(i as int).filter(|s: ToolSelection| kept_selection(s)).map_values(
                |s: ToolSelection| tool_name(s.tool),
            ),
        decreases sels.len() - i,
    {
        reveal_with_fuel(Seq::<_>::filter, 1);
        assert(sels@.take(i + 1).drop_last() =~= sels@.take(i as int));
        let ghost prev = out@;
        let ghost kept_before = sels@.take(i as int).filter(|s: ToolSelection| kept_selection(s));
        if sels[i].selected && sels[i].already_installed {
            out.push(string_of(sels[i].tool.as_str()));
            assert(names(out@) =~= names(prev).push(tool_name(sels@[i as int].tool)));
            assert(sels@.take(i + 1).filter(|s: ToolSelection| kept_selection(s)) == kept_before.push(
                sels@[i as int],
            ));
        } else {
            assert(sels@.take(i + 1).filter(|s: ToolSelection| kept_selection(s)) == kept_before);
        }
        i = i + 1;
        assert(names(out@) =~= sels@.take(i as int).filter(|s: ToolSelection| kept_selection(s)).map_values(
            |s: ToolSelection| tool_name(s.tool),
        ));
    }
    assert(sels@.take(sels.len() as int) =~= sels@);
    out
}

/// Whether `delta` is among the tools selected: its pager setup is left to
/// the user, and the summary says so.
pub fn delta_selected(sels: &Vec<ToolSelection>) -> (res: bool)
    ensures
        res == exists|i: int| 0 <= i < sels@.len() && (#[trigger] sels@[i]).selected && sels@[i].tool
            == ToolId::Delta,
{
    let mut i: usize = 0;
    while i < sels.len()
        invariant
            i <= sels.len(),
            forall|k: int| 0 <= k < i ==> !((#[trigger] sels@[k]).selected && sels@[k].tool == ToolId::Delta),
        decreases sels.len() - i,
    {
        if sels[i].selected && sels[i].tool == ToolId::Delta {
            return true;
        }
        i = i + 1;
    }
    false
}

} // verus!
