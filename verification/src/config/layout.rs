//! Panes of user-defined layouts and their KDL text.

use crate::text::{
    chars_of, escape_quotes, join_with, lower_seq, push_char, push_escaped, push_spaces, push_str,
    spaces, split_whitespace, string_from_chars, to_ascii_lower, words,
};
use std::collections::HashMap;
use vstd::prelude::*;

verus! {

/// One pane of a user-defined layout.
#[derive(Debug, Clone)]
pub struct LayoutPane {
    /// Shown as the pane's name.
    pub id: Option<String>,
    /// The command line: its first word is the command, the rest come
    /// before `args`.
    pub command: String,
    pub args: Vec<String>,
    /// Whether the command is run.
    pub run: bool,
    /// Pane-specific settings.
    pub config: HashMap<String, String>,
}

impl Default for LayoutPane {
    fn default() -> (res: Self)
        ensures
            res.id is None,
            res.command@ == Seq::<char>::empty(),
            res.args@.len() == 0,
            res.run,
    {
        LayoutPane { id: None, command: String::new(), args: Vec::new(), run: true, config: HashMap::new() }
    }
}

/// A KDL string's content: backslashes and double quotes escaped.
pub fn escape_kdl(value: &str) -> (res: String)
    ensures
        res@ == escape_quotes(value@),
{
    let mut out = String::new();
    push_escaped(&mut out, value);
    out
}

pub open spec fn quoted(s: Seq<char>) -> Seq<char> {
    seq!['"'] + escape_quotes(s) + seq!['"']
}

/// ` name="…"` for a named pane, ` borderless=true` when asked for.
pub open spec fn pane_attributes(pane: LayoutPane, borderless: bool) -> Seq<char> {
    (match pane.id {
        Some(n) => " name="@ + quoted(n@),
        None => Seq::empty(),
    }) + if borderless {
        " borderless=true"@
    } else {
        Seq::empty()
    }
}

/// The arguments of a pane's command: the rest of its command line, then
/// its `args`.
pub open spec fn pane_args(pane: LayoutPane) -> Seq<Seq<char>> {
    words(pane.command@).skip(1) + pane.args@.map_values(|a: String| a@)
}

/// The KDL of a pane at `indent` levels of four spaces. A pane that runs a
/// command gets `command="…"`, and an `args` child when the command has
/// arguments.
pub open spec fn pane_kdl_spec(pane: LayoutPane, indent: nat, borderless: bool) -> Seq<char> {
    let ind = spaces(indent * 4);
    let attrs = pane_attributes(pane, borderless);
    let ws = words(pane.command@);
    if pane.run && ws.len() > 0 {
        let attrs = attrs + " command="@ + quoted(ws[0]);
        let args = pane_args(pane);
        if args.len() > 0 {
            ind + "pane"@ + attrs + " {\n"@ + ind + "    args "@ + join_with(
                args.map_values(|a: Seq<char>| quoted(a)),
                seq![' '],
            ) + "\n"@ + ind + "}\n"@
        } else {
            ind + "pane"@ + attrs + "\n"@
        }
    } else {
        ind + "pane"@ + attrs + "\n"@
    }
}

fn push_quoted(out: &mut String, s: &str)
    ensures
        final(out)@ == old(out)@ + quoted(s@),
{
    let ghost start = out@;
    push_char(out, '"');
    push_escaped(out, s);
    push_char(out, '"');
    assert(out@ =~= start + quoted(s@));
}

/// The arguments of a pane as strings: the rest of its command line, then
/// its `args`.
#[verifier::spinoff_prover]
fn collect_args(pane: &LayoutPane, ws: &Vec<Vec<char>>) -> (res: Vec<String>)
    requires
        ws@.len() == words(pane.command@).len(),
        ws@.len() >= 1,
        forall|j: int| 0 <= j < ws@.len() ==> (#[trigger] ws@[j])@ == words(pane.command@)[j],
    ensures
        res@.map_values(|a: String| a@) == pane_args(*pane),
{
    let ghost target = pane_args(*pane);
    let mut out: Vec<String> = Vec::new();
    let mut k: usize = 1;
    while k < ws.len()
        invariant
            1 <= k <= ws@.len(),
            ws@.len() == words(pane.command@).len(),
            forall|j: int| 0 <= j < ws@.len() ==> (#[trigger] ws@[j])@ == words(pane.command@)[j],
            out@.map_values(|a: String| a@) == words(pane.command@).subrange(1, k as int),
        decreases ws.len() - k,
    {
        let ghost before = out@;
        out.push(string_from_chars(&ws[k]));
        assert(out@.map_values(|a: String| a@) =~= before.map_values(|a: String| a@).push(ws@[k as int]@));
        k = k + 1;
        assert(out@.map_values(|a: String| a@) =~= words(pane.command@).subrange(1, k as int));
    }
    assert(words(pane.command@).subrange(1, ws@.len() as int) =~= words(pane.command@).skip(1));
    let ghost head = out@.map_values(|a: String| a@);
    let mut m: usize = 0;
    while m < pane.args.len()
        invariant
            m <= pane.args@.len(),
            head == words(pane.command@).skip(1),
            out@.map_values(|a: String| a@) == head + pane.args@.take(m as int).map_values(|a: String| a@),
        decreases pane.args.len() - m,
    {
        let ghost before = out@;
        out.push(pane.args[m].clone());
        assert(out@.map_values(|a: String| a@) =~= before.map_values(|a: String| a@).push(pane.args@[m as int]@));
        m = m + 1;
        assert(out@.map_values(|a: String| a@) =~= head + pane.args@.take(m as int).map_values(|a: String| a@));
    }
    assert(pane.args@.take(pane.args@.len() as int) =~= pane.args@);
    out
}

/// Appends the strings quoted and separated by single spaces.
#[verifier::spinoff_prover]
fn push_quoted_list(out: &mut String, args: &Vec<String>)
    ensures
        final(out)@ == old(out)@ + join_with(
            args@.map_values(|a: String| a@).map_values(|a: Seq<char>| quoted(a)),
            seq![' '],
        ),
{
    let ghost start = out@;
    let ghost qs = args@.map_values(|a: String| a@).map_values(|a: Seq<char>| quoted(a));
    let mut k: usize = 0;
    while k < args.len()
        invariant
            k <= args@.len(),
            qs == args@.map_values(|a: String| a@).map_values(|a: Seq<char>| quoted(a)),
            out@ == start + join_with(qs.take(k as int), seq![' ']),
        decreases args.len() - k,
    {
        if k > 0 {
            push_char(out, ' ');
        }
        push_quoted(out, args[k].as_str());
        assert(qs.take(k + 1).drop_last() =~= qs.take(k as int));
        k = k + 1;
        assert(out@ =~= start + join_with(qs.take(k as int), seq![' ']));
    }
    assert(qs.take(args@.len() as int) =~= qs);
}

/// Appends the `args` child block of a pane at `width` spaces.
fn push_args_block(out: &mut String, width: usize, args: &Vec<String>)
    ensures
        final(out)@ == old(out)@ + " {\n"@ + spaces(width as nat) + "    args "@ + join_with(
            args@.map_values(|a: String| a@).map_values(|a: Seq<char>| quoted(a)),
            seq![' '],
        ) + "\n"@ + spaces(width as nat) + "}\n"@,
{
    let ghost start = out@;
    push_str(out, " {\n");
    push_spaces(out, width);
    push_str(out, "    args ");
    let ghost before_list = out@;
    push_quoted_list(out, args);
    let ghost after_list = out@;
    push_str(out, "\n");
    push_spaces(out, width);
    push_str(out, "}\n");
    assert(out@ =~= start + " {\n"@ + spaces(width as nat) + "    args "@ + join_with(
        args@.map_values(|a: String| a@).map_values(|a: Seq<char>| quoted(a)),
        seq![' '],
    ) + "\n"@ + spaces(width as nat) + "}\n"@);
}

/// The KDL text of one pane.
pub fn generate_pane_kdl(pane: &LayoutPane, indent: usize, borderless: bool) -> (res: String)
    requires
        indent * 4 <= usize::MAX,
    ensures
        res@ == pane_kdl_spec(*pane, indent as nat, borderless),
{
    let width = indent * 4;
    let mut attrs = String::new();
    match &pane.id {
        Some(n) => {
            push_str(&mut attrs, " name=");
            push_quoted(&mut attrs, n.as_str());
        },
        None => {},
    }
    if borderless {
        push_str(&mut attrs, " borderless=true");
    }
    assert(attrs@ =~= pane_attributes(*pane, borderless));
    let cs = chars_of(pane.command.as_str());
    let ws = split_whitespace(cs.as_slice());
    let mut out = String::new();
    push_spaces(&mut out, width);
    push_str(&mut out, "pane");
    push_str(&mut out, attrs.as_str());
    let ghost head = out@;
    assert(head =~= spaces(indent as nat * 4) + "pane"@ + pane_attributes(*pane, borderless));
    if pane.run && ws.len() > 0 {
        let first = string_from_chars(&ws[0]);
        push_str(&mut out, " command=");
        push_quoted(&mut out, first.as_str());
        let ghost with_command = out@;
        assert(with_command =~= spaces(indent as nat * 4) + "pane"@ + (pane_attributes(*pane, borderless)
            + " command="@ + quoted(words(pane.command@)[0])));
        let args = collect_args(pane, &ws);
        if args.len() > 0 {
            push_args_block(&mut out, width, &args);
            return out;
        }
    }
    push_str(&mut out, "\n");
    out
}

/// The size of a layout part: its kind as configured (`Percentage` or
/// `Fixed`, in any case) and its value as the number is written.
#[derive(Debug, Clone)]
pub struct PartSize {
    pub kind: String,
    pub value: String,
}

/// A split of a user-defined layout: its panes, then its nested splits.
#[derive(Debug)]
pub struct LayoutPart {
    pub direction: String,
    pub borderless: bool,
    pub panes: Vec<LayoutPane>,
    pub parts: Vec<LayoutPart>,
    pub size: Option<PartSize>,
}

/// ` size="N%"` for a percentage, ` size=N` for a fixed size, nothing for
/// another kind or no size.
pub open spec fn size_attr(size: Option<PartSize>) -> Seq<char> {
    match size {
        Some(z) => if lower_seq(z.kind@) == "percentage"@ {
            " size=\""@ + z.value@ + "%\""@
        } else if lower_seq(z.kind@) == "fixed"@ {
            " size="@ + z.value@
        } else {
            Seq::empty()
        },
        None => Seq::empty(),
    }
}

/// The panes' KDL, from index `i` on.
pub open spec fn panes_kdl_from(ps: Seq<LayoutPane>, i: int, indent: nat, borderless: bool) -> Seq<char>
    decreases ps.len() - i,
{
    if i < 0 || i >= ps.len() {
        Seq::empty()
    } else {
        pane_kdl_spec(ps[i], indent, borderless) + panes_kdl_from(ps, i + 1, indent, borderless)
    }
}

/// The KDL of a split at `indent` levels: a `pane split_direction=…` block
/// holding its panes, then its nested splits, one level deeper; borderless
/// when it or a split around it is.
pub open spec fn part_kdl_spec(part: LayoutPart, indent: nat, inherited_borderless: bool) -> Seq<char>
    decreases part, 0int,
{
    let b = part.borderless || inherited_borderless;
    spaces(indent * 4) + "pane split_direction="@ + quoted(part.direction@) + size_attr(part.size)
        + " {\n"@ + panes_kdl_from(part.panes@, 0, indent + 1, b) + parts_kdl_from(
        part.parts@,
        0,
        indent + 1,
        b,
    ) + spaces(indent * 4) + "}\n"@
}

/// The splits' KDL, from index `i` on.
pub open spec fn parts_kdl_from(ps: Seq<LayoutPart>, i: int, indent: nat, borderless: bool) -> Seq<char>
    decreases ps, ps.len() - i,
{
    if i < 0 || i >= ps.len() {
        Seq::empty()
    } else {
        part_kdl_spec(ps[i], indent, borderless) + parts_kdl_from(ps, i + 1, indent, borderless)
    }
}

/// How many levels a split nests, itself included.
pub open spec fn part_height(part: LayoutPart) -> nat
    decreases part, 0int,
{
    1 + parts_height_from(part.parts@, 0)
}

/// The greatest height among the splits from index `i` on.
pub open spec fn parts_height_from(ps: Seq<LayoutPart>, i: int) -> nat
    decreases ps, ps.len() - i,
{
    if i < 0 || i >= ps.len() {
        0
    } else {
        let h = part_height(ps[i]);
        let rest = parts_height_from(ps, i + 1);
        if h > rest {
            h
        } else {
            rest
        }
    }
}

/// Each split from index `i` on is no higher than their greatest height.
proof fn lemma_parts_height_bound(ps: Seq<LayoutPart>, i: int)
    requires
        0 <= i,
    ensures
        forall|k: int| i <= k < ps.len() ==> part_height(#[trigger] ps[k]) <= parts_height_from(ps, i),
    decreases ps.len() - i,
{
    if i < ps.len() {
        lemma_parts_height_bound(ps, i + 1);
    }
}

fn push_size_attr(out: &mut String, size: &Option<PartSize>)
    ensures
        final(out)@ == old(out)@ + size_attr(*size),
{
    match size {
        Some(z) => {
            let kind = lowercase(z.kind.as_str());
            if crate::text::str_eq(kind.as_str(), "percentage") {
                push_str(out, " size=\"");
                push_str(out, z.value.as_str());
                push_str(out, "%\"");
            } else if crate::text::str_eq(kind.as_str(), "fixed") {
                push_str(out, " size=");
                push_str(out, z.value.as_str());
            } else {
                assert(out@ =~= old(out)@ + size_attr(*size));
            }
        },
        None => {
            assert(out@ =~= old(out)@ + Seq::<char>::empty());
        },
    }
}

/// `str::to_ascii_lowercase`.
fn lowercase(s: &str) -> (res: String)
    ensures
        res@ == lower_seq(s@),
{
    let cs = chars_of(s);
    let mut out = String::new();
    let mut i: usize = 0;
    while i < cs.len()
        invariant
            i <= cs.len(),
            cs@ == s@,
            out@ == lower_seq(s@).take(i as int),
        decreases cs.len() - i,
    {
        push_char(&mut out, to_ascii_lower(cs[i]));
        i = i + 1;
        assert(out@ =~= lower_seq(s@).take(i as int));
    }
    assert(lower_seq(s@).take(cs.len() as int) =~= lower_seq(s@));
    out
}

/// The KDL text of a split of a user-defined layout at `indent` levels.
pub fn part_kdl(part: &LayoutPart, indent: usize, inherited_borderless: bool) -> (res: String)
    requires
        (indent + part_height(*part)) * 4 <= usize::MAX,
    ensures
        res@ == part_kdl_spec(*part, indent as nat, inherited_borderless),
    decreases part,
{
    let b = part.borderless || inherited_borderless;
    let mut out = String::new();
    push_spaces(&mut out, indent * 4);
    push_str(&mut out, "pane split_direction=");
    push_char(&mut out, '"');
    push_escaped(&mut out, part.direction.as_str());
    push_char(&mut out, '"');
    push_size_attr(&mut out, &part.size);
    push_str(&mut out, " {\n");
    let ghost head = out@;
    assert(head =~= spaces(indent as nat * 4) + "pane split_direction="@ + quoted(part.direction@)
        + size_attr(part.size) + " {\n"@);
    let mut i: usize = 0;
    while i < part.panes.len()
        invariant
            i <= part.panes.len(),
            (indent + part_height(*part)) * 4 <= usize::MAX,
            part_height(*part) >= 1,
            head + panes_kdl_from(part.panes@, 0, indent as nat + 1, b) == out@ + panes_kdl_from(
                part.panes@,
                i as int,
                indent as nat + 1,
                b,
            ),
        decreases part.panes.len() - i,
    {
        let ghost before = out@;
        let t = generate_pane_kdl(&part.panes[i], indent + 1, b);
        push_str(&mut out, t.as_str());
        assert(panes_kdl_from(part.panes@, i as int, indent as nat + 1, b) == pane_kdl_spec(
            part.panes@[i as int],
            indent as nat + 1,
            b,
        ) + panes_kdl_from(part.panes@, i + 1, indent as nat + 1, b));
        assert(before + panes_kdl_from(part.panes@, i as int, indent as nat + 1, b) =~= out@
            + panes_kdl_from(part.panes@, i + 1, indent as nat + 1, b));
        i = i + 1;
    }
    let ghost mid = out@;
    assert(mid == head + panes_kdl_from(part.panes@, 0, indent as nat + 1, b));
    proof {
        lemma_parts_height_bound(part.parts@, 0);
    }
    let mut j: usize = 0;
    while j < part.parts.len()
        invariant
            j <= part.parts.len(),
            (indent + part_height(*part)) * 4 <= usize::MAX,
            part_height(*part) == 1 + parts_height_from(part.parts@, 0),
            forall|k: int| 0 <= k < part.parts@.len() ==> part_height(#[trigger] part.parts@[k])
                <= parts_height_from(part.parts@, 0),
            mid + parts_kdl_from(part.parts@, 0, indent as nat + 1, b) == out@ + parts_kdl_from(
                part.parts@,
                j as int,
                indent as nat + 1,
                b,
            ),
        decreases part.parts.len() - j,
    {
        let ghost before = out@;
        assert(part_height(part.parts@[j as int]) <= parts_height_from(part.parts@, 0));
        assert(decreases_to!(part => part.parts@[j as int]));
        let t = part_kdl(&part.parts[j], indent + 1, b);
        push_str(&mut out, t.as_str());
        assert(before + parts_kdl_from(part.parts@, j as int, indent as nat + 1, b) =~= out@
            + parts_kdl_from(part.parts@, j + 1, indent as nat + 1, b));
        j = j + 1;
    }
    push_spaces(&mut out, indent * 4);
    push_str(&mut out, "}\n");
    assert(out@ =~= part_kdl_spec(*part, indent as nat, inherited_borderless));
    out
}

/// The KDL text of a user-defined layout: a comment with its name (and its
/// description), then the `layout` block. A single split stands directly in
/// it; several are wrapped in a split in the layout's direction; with none
/// there is one plain pane.
pub open spec fn layout_kdl_spec(
    name: Seq<char>,
    description: Option<Seq<char>>,
    direction: Seq<char>,
    parts: Seq<LayoutPart>,
) -> Seq<char> {
    "// "@ + name + " layout\n"@ + (match description {
        Some(d) => "// "@ + d + "\n"@,
        None => Seq::empty(),
    }) + "layout {\n"@ + (if parts.len() == 1 {
        part_kdl_spec(parts[0], 1, false)
    } else if parts.len() > 1 {
        "    pane split_direction="@ + quoted(direction) + " {\n"@ + parts_kdl_from(parts, 0, 2, false)
            + "    }\n"@
    } else {
        "    pane\n"@
    }) + "}\n"@
}

pub fn layout_kdl(name: &str, description: Option<&str>, direction: &str, parts: &Vec<LayoutPart>) -> (res:
    String)
    requires
        forall|k: int| 0 <= k < parts@.len() ==> (2 + part_height(#[trigger] parts@[k])) * 4 <= usize::MAX,
    ensures
        res@ == layout_kdl_spec(
            name@,
            match description {
                Some(d) => Some(d@),
                None => None,
            },
            direction@,
            parts@,
        ),
{
    let mut out = String::new();
    push_str(&mut out, "// ");
    push_str(&mut out, name);
    push_str(&mut out, " layout\n");
    match description {
        Some(d) => {
            push_str(&mut out, "// ");
            push_str(&mut out, d);
            push_str(&mut out, "\n");
        },
        None => {},
    }
    push_str(&mut out, "layout {\n");
    let ghost head = out@;
    if parts.len() == 1 {
        let t = part_kdl(&parts[0], 1, false);
        push_str(&mut out, t.as_str());
    } else if parts.len() > 1 {
        push_str(&mut out, "    pane split_direction=");
        push_char(&mut out, '"');
        push_escaped(&mut out, direction);
        push_char(&mut out, '"');
        push_str(&mut out, " {\n");
        let ghost mid = out@;
        let mut j: usize = 0;
        while j < parts.len()
            invariant
                j <= parts.len(),
                forall|k: int|
                    0 <= k < parts@.len() ==> (2 + part_height(#[trigger] parts@[k])) * 4 <= usize::MAX,
                mid + parts_kdl_from(parts@, 0, 2, false) == out@ + parts_kdl_from(parts@, j as int, 2, false),
            decreases parts.len() - j,
        {
            let ghost before = out@;
            let t = part_kdl(&parts[j], 2, false);
            push_str(&mut out, t.as_str());
            assert(before + parts_kdl_from(parts@, j as int, 2, false) =~= out@ + parts_kdl_from(
                parts@,
                j + 1,
                2,
                false,
            ));
            j = j + 1;
        }
        push_str(&mut out, "    }\n");
    } else {
        push_str(&mut out, "    pane\n");
    }
    push_str(&mut out, "}\n");
    assert(out@ =~= layout_kdl_spec(
        name@,
        match description {
            Some(d) => Some(d@),
            None => None,
        },
        direction@,
        parts@,
    ));
    out
}

} // verus!
