//! Merging the helper bindings into the user's Zellij configuration. The
//! user's text is read and printed with the kdl crate, whose printer keeps
//! the user's formatting; the traversal, the refusal of a colliding key and
//! the placement of the added nodes are decided here.

use crate::text::{chars_of, string_of, trim, trim_chars};
use crate::zellij::runtime_config::{
    conflict_message, find_key_conflict, first_conflict, first_named, normalize_key_spec,
    requested_keys, first_shared_locked, is_replaced_node,
    keybinds_index, replaced_node_spec, runtime_bindings, session_name_node, binding_spec,
    shared_section_index, NodeOutline, RuntimeConfigInput, KEYBINDS_NODE,
    SESSION_SERIALIZATION_NODE, SHARED_EXCEPT_LOCKED_NODE,
};
use crate::config::KeybindingConfig;
use kdl::{KdlDocument, KdlNode};
use vstd::prelude::*;

verus! {

#[verifier::external_type_specification]
#[verifier::external_body]
pub struct ExKdlDocument(kdl::KdlDocument);

#[verifier::external_type_specification]
#[verifier::external_body]
pub struct ExKdlNode(kdl::KdlNode);

/// Whether `KdlDocument::from_str` accepts the text.
pub uninterp spec fn kdl_parses(text: Seq<char>) -> bool;

/// The document `KdlDocument::from_str` makes of the text, where it accepts it.
pub uninterp spec fn kdl_document_of(text: Seq<char>) -> KdlDocument;

/// The top-level nodes of a document (`KdlDocument::nodes`).
pub uninterp spec fn kdl_nodes(d: KdlDocument) -> Seq<KdlNode>;

/// The text before a document's first node (`KdlDocument::leading`).
pub uninterp spec fn kdl_leading(d: KdlDocument) -> Option<Seq<char>>;

/// The text after a document's last node (`KdlDocument::trailing`).
pub uninterp spec fn kdl_trailing(d: KdlDocument) -> Option<Seq<char>>;

/// The name of a node (`KdlNode::name().value()`).
pub uninterp spec fn kdl_name(n: KdlNode) -> Seq<char>;

/// For each entry of a node, in order, its value as a string when it is one.
pub uninterp spec fn kdl_strings(n: KdlNode) -> Seq<Option<Seq<char>>>;

/// The nodes of a node's children block, if it has one.
pub uninterp spec fn kdl_children(n: KdlNode) -> Option<Seq<KdlNode>>;

/// The nesting height of a node. No kdl function stands behind it: it
/// measures the finite KDL tree, and [`node_children`] states that a
/// child's height is below its parent's.
pub uninterp spec fn kdl_height(n: KdlNode) -> nat;

/// The single node `KdlNode::from_str` makes of the text, with its formatting
/// cleared, where it accepts the text.
pub uninterp spec fn kdl_node_of(text: Seq<char>) -> Option<KdlNode>;

/// What a document prints as (`Display`).
pub uninterp spec fn kdl_text(d: KdlDocument) -> Seq<char>;

/// `KdlDocument::from_str`: the parsed document, where the text is KDL.
#[verifier::external_body]
fn parse_document(text: &str) -> (res: Option<KdlDocument>)
    ensures
        res is Some <==> kdl_parses(text@),
        res matches Some(d) ==> d == kdl_document_of(text@),
{
    text.parse::<KdlDocument>().ok()
}

/// `KdlDocument::new`: a document without nodes, leading or trailing text.
#[verifier::external_body]
fn new_document() -> (res: KdlDocument)
    ensures
        kdl_nodes(res) == Seq::<KdlNode>::empty(),
        kdl_leading(res) is None,
        kdl_trailing(res) is None,
{
    KdlDocument::new()
}

/// `KdlDocument::nodes`, cloned.
#[verifier::external_body]
fn document_nodes(d: &KdlDocument) -> (res: Vec<KdlNode>)
    ensures
        res@ == kdl_nodes(*d),
{
    d.nodes().to_vec()
}

/// `KdlDocument::nodes_mut`, replaced by the given nodes; the document's
/// own formatting around its nodes is kept.
#[verifier::external_body]
fn set_document_nodes(d: &mut KdlDocument, nodes: Vec<KdlNode>)
    ensures
        kdl_nodes(*final(d)) == nodes@,
        kdl_leading(*final(d)) == kdl_leading(*old(d)),
        kdl_trailing(*final(d)) == kdl_trailing(*old(d)),
{
    *d.nodes_mut() = nodes;
}

/// `KdlNode::name().value()`.
#[verifier::external_body]
fn node_name(n: &KdlNode) -> (res: String)
    ensures
        res@ == kdl_name(*n),
{
    n.name().value().to_string()
}

/// `KdlEntry::value().as_string()` for each entry of the node.
#[verifier::external_body]
fn node_strings(n: &KdlNode) -> (res: Vec<Option<String>>)
    ensures
        res@.len() == kdl_strings(*n).len(),
        forall|k: int|
            0 <= k < res@.len() ==> opt_view(#[trigger] res@[k]) == kdl_strings(*n)[k],
{
    n.entries().iter().map(|e| e.value().as_string().map(str::to_string)).collect()
}

/// `KdlNode::children`, its nodes cloned. A child sits below its parent, so
/// its height is smaller.
#[verifier::external_body]
fn node_children(n: &KdlNode) -> (res: Option<Vec<KdlNode>>)
    ensures
        match res {
            Some(c) => kdl_children(*n) == Some(c@),
            None => kdl_children(*n) is None,
        },
        res matches Some(c) ==> forall|k: int|
            0 <= k < c@.len() ==> kdl_height(#[trigger] c@[k]) < kdl_height(*n),
{
    n.children().map(|c| c.nodes().to_vec())
}

/// `KdlNode::ensure_children().nodes_mut()`, replaced by the given nodes;
/// the name and entries of the node are kept.
#[verifier::external_body]
fn set_node_children(n: &mut KdlNode, nodes: Vec<KdlNode>)
    ensures
        kdl_children(*final(n)) == Some(nodes@),
        kdl_name(*final(n)) == kdl_name(*old(n)),
        kdl_strings(*final(n)) == kdl_strings(*old(n)),
{
    *n.ensure_children().nodes_mut() = nodes;
}

/// `KdlNode::from_str` followed by `clear_fmt_recursive`.
#[verifier::external_body]
fn parse_node(text: &str) -> (res: Option<KdlNode>)
    ensures
        res == kdl_node_of(text@),
{
    match text.parse::<KdlNode>() {
        Ok(mut node) => {
            node.clear_fmt_recursive();
            Some(node)
        },
        Err(_) => None,
    }
}

/// The document printed (`Display`).
#[verifier::external_body]
fn document_text(d: &KdlDocument) -> (res: String)
    ensures
        res@ == kdl_text(*d),
{
    d.to_string()
}

/// `KdlNode::clone` (derived): an equal node.
#[verifier::external_body]
fn copy_node(n: &KdlNode) -> (res: KdlNode)
    ensures
        res == *n,
{
    n.clone()
}

pub open spec fn opt_view(o: Option<String>) -> Option<Seq<char>> {
    match o {
        Some(s) => Some(s@),
        None => None,
    }
}

/// The strings among the values.
pub open spec fn present_strings(v: Seq<Option<Seq<char>>>) -> Seq<Seq<char>>
    decreases v.len(),
{
    if v.len() == 0 {
        Seq::empty()
    } else {
        present_strings(v.drop_last()) + match v.last() {
            Some(s) => seq![s],
            None => Seq::empty(),
        }
    }
}

/// The string arguments of a node when it is a `bind` node.
pub open spec fn own_keys(n: KdlNode) -> Seq<Seq<char>> {
    if kdl_name(n) == "bind"@ {
        present_strings(kdl_strings(n))
    } else {
        Seq::empty()
    }
}

/// The string arguments of every `bind` node below `n`, at most `depth`
/// levels down, in document order.
pub open spec fn keys_below(n: KdlNode, depth: nat) -> Seq<Seq<char>>
    decreases depth, 0nat,
{
    if depth == 0 {
        Seq::empty()
    } else {
        match kdl_children(n) {
            None => Seq::empty(),
            Some(cs) => keys_in(cs, (depth - 1) as nat),
        }
    }
}

/// The keys of each node of `cs` followed by the keys below it (at most
/// `depth` levels down), in order.
pub open spec fn keys_in(cs: Seq<KdlNode>, depth: nat) -> Seq<Seq<char>>
    decreases depth, cs.len() + 1,
{
    if cs.len() == 0 {
        Seq::empty()
    } else {
        keys_in(cs.drop_last(), depth) + own_keys(cs.last()) + keys_below(cs.last(), depth)
    }
}

/// The string arguments of every `bind` node below `n`, at any depth (a
/// node's height bounds how deep its descendants go).
pub open spec fn all_keys_below(n: KdlNode) -> Seq<Seq<char>> {
    keys_below(n, kdl_height(n) + 1)
}

pub open spec fn key_views(v: Seq<String>) -> Seq<Seq<char>> {
    v.map_values(|s: String| s@)
}

/// Appends the string arguments of every `bind` node below `n`.
fn collect_keys(n: &KdlNode, out: &mut Vec<String>)
    ensures
        forall|f: nat|
            f > kdl_height(*n) ==> key_views(final(out)@) == key_views(old(out)@) + #[trigger] keys_below(*n, f),
    decreases kdl_height(*n),
{
    let children = node_children(n);
    match children {
        None => {
            assert forall|f: nat| f > kdl_height(*n) implies key_views(out@) == key_views(old(out)@)
                + #[trigger] keys_below(*n, f) by {
                assert(key_views(out@) =~= key_views(old(out)@) + keys_below(*n, f));
            }
        },
        Some(cs) => {
            let ghost h = kdl_height(*n);
            let mut k: usize = 0;
            while k < cs.len()
                invariant
                    k <= cs.len(),
                    kdl_children(*n) == Some(cs@),
                    h == kdl_height(*n),
                    forall|m: int| 0 <= m < cs@.len() ==> kdl_height(#[trigger] cs@[m]) < h,
                    forall|g: nat|
                        g >= h ==> key_views(out@) == key_views(old(out)@) + #[trigger] keys_in(
                            cs@.take(k as int),
                            g,
                        ),
                decreases cs.len() - k,
            {
                let c = &cs[k];
                assert(kdl_height(cs@[k as int]) < h);
                let ghost before = key_views(out@);
                if str_is(node_name(c).as_str(), "bind") {
                    let strs = node_strings(c);
                    let mut j: usize = 0;
                    while j < strs.len()
                        invariant
                            j <= strs.len(),
                            strs@.len() == kdl_strings(*c).len(),
                            forall|q: int|
                                0 <= q < strs@.len() ==> opt_view(#[trigger] strs@[q]) == kdl_strings(*c)[q],
                            key_views(out@) == before + present_strings(kdl_strings(*c).take(j as int)),
                        decreases strs.len() - j,
                    {
                        let ghost x = kdl_strings(*c);
                        assert(x.take(j + 1).drop_last() =~= x.take(j as int));
                        assert(x.take(j + 1).last() == x[j as int]);
                        assert(opt_view(strs@[j as int]) == x[j as int]);
                        let ghost prev = out@;
                        match &strs[j] {
                            Some(s) => {
                                let r = string_of(s.as_str());
                                out.push(r);
                                assert(key_views(out@) =~= key_views(prev).push(s@));
                                assert(x[j as int] == Some(s@));
                            },
                            None => {
                                assert(x[j as int] is None);
                            },
                        }
                        assert(key_views(out@) =~= before + present_strings(x.take(j + 1)));
                        j = j + 1;
                    }
                    assert(kdl_strings(*c).take(strs.len() as int) =~= kdl_strings(*c));
                }
                let ghost mid = key_views(out@);
                assert(mid == before + own_keys(*c));
                let ghost out_before_call = out@;
                collect_keys(c, out);
                let ghost t = cs@.take(k + 1);
                assert(t.drop_last() =~= cs@.take(k as int));
                assert(t.last() == cs@[k as int]);
                assert forall|g: nat| g >= h implies key_views(out@) == key_views(old(out)@)
                    + #[trigger] keys_in(t, g) by {
                    assert(g > kdl_height(*c));
                    assert(key_views(out@) == key_views(out_before_call) + keys_below(*c, g));
                    assert(keys_in(t, g) == keys_in(t.drop_last(), g) + own_keys(t.last()) + keys_below(t.last(), g));
                    assert(key_views(out@) =~= key_views(old(out)@) + keys_in(t, g));
                }
                k = k + 1;
            }
            assert(cs@.take(cs.len() as int) =~= cs@);
            assert forall|f: nat| f > kdl_height(*n) implies key_views(out@) == key_views(old(out)@)
                + #[trigger] keys_below(*n, f) by {
                assert(keys_below(*n, f) == keys_in(cs@, (f - 1) as nat));
                assert(key_views(out@) == key_views(old(out)@) + keys_in(cs@.take(cs.len() as int), (f - 1) as nat));
            }
        },
    }
}

fn str_is(a: &str, b: &str) -> (res: bool)
    ensures
        res == (a@ == b@),
{
    crate::text::str_eq(a, b)
}

pub open spec fn names_of(ns: Seq<KdlNode>) -> Seq<Seq<char>> {
    ns.map_values(|n: KdlNode| kdl_name(n))
}

/// The top-level nodes the merge starts from: none for a blank text.
pub open spec fn source_nodes(source: Seq<char>) -> Seq<KdlNode> {
    if trim(source).len() == 0 {
        Seq::empty()
    } else {
        kdl_nodes(kdl_document_of(source))
    }
}

/// The keys bound under the first top-level `keybinds` node.
pub open spec fn bound_keys(source: Seq<char>) -> Seq<Seq<char>> {
    let ns = source_nodes(source);
    match first_named(names_of(ns), "keybinds"@, 0) {
        Some(i) => all_keys_below(ns[i]),
        None => Seq::empty(),
    }
}

/// Whether `key` is among the bound keys (compared normalized).
pub open spec fn bound_among(bound: Seq<Seq<char>>, key: Seq<char>) -> bool {
    exists|j: int|
        0 <= j < bound.len() && normalize_key_spec(#[trigger] bound[j]) == normalize_key_spec(key)
}

/// The first requested key from position `i` on that is among the bound keys.
pub open spec fn conflict_from(keys: KeybindingConfig, bound: Seq<Seq<char>>, i: int) -> Option<int>
    decreases 9 - i,
{
    if i >= 9 || i < 0 {
        None
    } else if bound_among(bound, requested_keys(keys)[i].0) {
        Some(i)
    } else {
        conflict_from(keys, bound, i + 1)
    }
}

/// Whether a requested key is among the bound keys.
pub open spec fn conflicts(keys: KeybindingConfig, bound: Seq<Seq<char>>) -> bool {
    conflict_from(keys, bound, 0) is Some
}

/// The refusal naming the first requested key that is bound already.
pub open spec fn conflict_error(keys: KeybindingConfig, bound: Seq<Seq<char>>) -> Seq<char> {
    let i = conflict_from(keys, bound, 0)->0;
    conflict_message(requested_keys(keys)[i].0, requested_keys(keys)[i].1)
}

/// The conflict check over strings is the one over their texts.
proof fn lemma_conflict_by_views(keys: KeybindingConfig, b: Seq<String>, i: int)
    ensures
        first_conflict(keys, b, i) == conflict_from(keys, key_views(b), i),
    decreases 9 - i,
{
    assert(b.len() == key_views(b).len());
    assert forall|key: Seq<char>| crate::zellij::runtime_config::key_bound(b, key) == bound_among(
        key_views(b),
        key,
    ) by {
        if crate::zellij::runtime_config::key_bound(b, key) {
            let j = choose|j: int|
                0 <= j < b.len() && normalize_key_spec(#[trigger] b[j]@) == normalize_key_spec(key);
            assert(key_views(b)[j] == b[j]@);
        }
        if bound_among(key_views(b), key) {
            let j = choose|j: int|
                0 <= j < key_views(b).len() && normalize_key_spec(#[trigger] key_views(b)[j])
                    == normalize_key_spec(key);
            assert(key_views(b)[j] == b[j]@);
        }
    }
    if 0 <= i < 9 {
        lemma_conflict_by_views(keys, b, i + 1);
    }
}

proof fn lemma_first_named_in(names: Seq<Seq<char>>, want: Seq<char>, i: int)
    ensures
        first_named(names, want, i) matches Some(k) ==> i <= k < names.len(),
    decreases names.len() - i,
{
    if 0 <= i < names.len() && names[i] != want {
        lemma_first_named_in(names, want, i + 1);
    }
}

/// Whether every node the merge adds parses: the nine helper bindings, the
/// two session nodes, and the `keybinds` and `shared_except "locked"` nodes
/// added when missing.
pub open spec fn added_nodes_parse(input: RuntimeConfigInput) -> bool {
    &&& forall|i: int| 0 <= i < 9 ==> (#[trigger] kdl_node_of(binding_spec(input, i))) is Some
    &&& kdl_node_of(session_name_node_text(input.session_name@)) is Some
    &&& kdl_node_of(SESSION_SERIALIZATION_NODE@) is Some
    &&& kdl_node_of(KEYBINDS_NODE@) is Some
    &&& kdl_node_of(SHARED_EXCEPT_LOCKED_NODE@) is Some
}

/// The source nodes the merge keeps, in order: all but `session_name` and
/// `session_serialization`.
pub open spec fn kept_nodes(ns: Seq<KdlNode>) -> Seq<KdlNode> {
    ns.filter(|n: KdlNode| !replaced_node_spec(kdl_name(n)))
}

/// The node a text parses to (meaningful where it parses).
pub open spec fn parsed(text: Seq<char>) -> KdlNode {
    kdl_node_of(text)->0
}

/// The helper binding nodes, in order.
pub open spec fn helper_nodes(input: RuntimeConfigInput) -> Seq<KdlNode> {
    Seq::new(9, |i: int| parsed(binding_spec(input, i)))
}

/// The kept source nodes followed by the two session nodes.
pub open spec fn with_session(source: Seq<char>, input: RuntimeConfigInput) -> Seq<KdlNode> {
    kept_nodes(source_nodes(source)) + seq![
        parsed(session_name_node_text(input.session_name@)),
        parsed(SESSION_SERIALIZATION_NODE@),
    ]
}

/// The top-level nodes before the bindings go in: a `keybinds` node is
/// added at the end when there is none.
pub open spec fn top_nodes(source: Seq<char>, input: RuntimeConfigInput) -> Seq<KdlNode> {
    let t = with_session(source, input);
    if first_named(names_of(t), "keybinds"@, 0) is Some {
        t
    } else {
        t.push(parsed(KEYBINDS_NODE@))
    }
}

/// Where the first `keybinds` node stands among [`top_nodes`].
pub open spec fn keybinds_at(source: Seq<char>, input: RuntimeConfigInput) -> int {
    let t = with_session(source, input);
    match first_named(names_of(t), "keybinds"@, 0) {
        Some(i) => i,
        None => t.len() as int,
    }
}

pub open spec fn children_or_empty(n: KdlNode) -> Seq<KdlNode> {
    match kdl_children(n) {
        Some(c) => c,
        None => Seq::empty(),
    }
}

/// A `shared_except` node with `"locked"` among its string arguments.
pub open spec fn is_locked_section(n: KdlNode) -> bool {
    kdl_name(n) == "shared_except"@ && present_strings(kdl_strings(n)).contains("locked"@)
}

pub open spec fn first_locked_section(cs: Seq<KdlNode>, i: int) -> Option<int>
    decreases cs.len() - i,
{
    if i < 0 || i >= cs.len() {
        None
    } else if is_locked_section(cs[i]) {
        Some(i)
    } else {
        first_locked_section(cs, i + 1)
    }
}

/// The children of the `keybinds` node before the bindings go in: a
/// `shared_except "locked"` section is added at the end when there is none.
pub open spec fn section_children(kb: KdlNode) -> Seq<KdlNode> {
    let c = children_or_empty(kb);
    if first_locked_section(c, 0) is Some {
        c
    } else {
        c.push(parsed(SHARED_EXCEPT_LOCKED_NODE@))
    }
}

pub open spec fn section_at(kb: KdlNode) -> int {
    let c = children_or_empty(kb);
    match first_locked_section(c, 0) {
        Some(i) => i,
        None => c.len() as int,
    }
}

/// `new` is `old` with the same name and entries and the children `cs`.
pub open spec fn rechildren(old: KdlNode, new: KdlNode, cs: Seq<KdlNode>) -> bool {
    &&& kdl_name(new) == kdl_name(old)
    &&& kdl_strings(new) == kdl_strings(old)
    &&& kdl_children(new) == Some(cs)
}

/// The text around the user's nodes: none for a blank text.
pub open spec fn source_leading(source: Seq<char>) -> Option<Seq<char>> {
    if trim(source).len() == 0 {
        None
    } else {
        kdl_leading(kdl_document_of(source))
    }
}

pub open spec fn source_trailing(source: Seq<char>) -> Option<Seq<char>> {
    if trim(source).len() == 0 {
        None
    } else {
        kdl_trailing(kdl_document_of(source))
    }
}

/// The merged document: the user's text before and after the nodes kept,
/// and the [`top_nodes`] with the first `keybinds` node
/// changed only in its `shared_except "locked"` section, whose old children
/// are followed by the helper bindings; every other node, `bind` nodes
/// included, is the user's node unchanged.
pub open spec fn merged(d: KdlDocument, source: Seq<char>, input: RuntimeConfigInput) -> bool {
    let top = top_nodes(source, input);
    let k = keybinds_at(source, input);
    let kb = top[k];
    let cs = section_children(kb);
    let si = section_at(kb);
    let ns = kdl_nodes(d);
    &&& kdl_leading(d) == source_leading(source)
    &&& kdl_trailing(d) == source_trailing(source)
    &&& ns.len() == top.len()
    &&& forall|m: int| 0 <= m < top.len() && m != k ==> #[trigger] ns[m] == top[m]
    &&& kdl_name(ns[k]) == kdl_name(kb)
    &&& kdl_strings(ns[k]) == kdl_strings(kb)
    &&& kdl_children(ns[k]) matches Some(ncs) && ncs.len() == cs.len() && (forall|j: int|
        0 <= j < cs.len() && j != si ==> #[trigger] ncs[j] == cs[j]) && rechildren(
        cs[si],
        ncs[si],
        children_or_empty(cs[si]) + helper_nodes(input),
    )
}

proof fn lemma_first_locked_in(cs: Seq<KdlNode>, i: int)
    ensures
        first_locked_section(cs, i) matches Some(k) ==> i <= k < cs.len(),
    decreases cs.len() - i,
{
    if 0 <= i < cs.len() && !is_locked_section(cs[i]) {
        lemma_first_locked_in(cs, i + 1);
    }
}

/// Outlines that show the nodes' names and string arguments find the same
/// section as the nodes do.
proof fn lemma_outline_section(outline: Seq<NodeOutline>, cs: Seq<KdlNode>, i: int)
    requires
        outline.len() == cs.len(),
        forall|j: int| 0 <= j < cs.len() ==> (#[trigger] outline[j]).name@ == kdl_name(cs[j]),
        forall|j: int|
            0 <= j < cs.len() ==> key_views((#[trigger] outline[j]).strings@) == present_strings(
                kdl_strings(cs[j]),
            ),
    ensures
        first_shared_locked(outline, i) == first_locked_section(cs, i),
    decreases cs.len() - i,
{
    if 0 <= i < cs.len() {
        let o = outline[i];
        let ps = present_strings(kdl_strings(cs[i]));
        assert(key_views(o.strings@) == ps);
        assert(crate::zellij::runtime_config::is_shared_locked(o) == is_locked_section(cs[i])) by {
            if exists|k: int| 0 <= k < o.strings@.len() && (#[trigger] o.strings@[k])@ == "locked"@ {
                let k = choose|k: int| 0 <= k < o.strings@.len() && (#[trigger] o.strings@[k])@ == "locked"@;
                assert(ps[k] == o.strings@[k]@);
            }
            if ps.contains("locked"@) {
                let k = choose|k: int| 0 <= k < ps.len() && ps[k] == "locked"@;
                assert(ps[k] == o.strings@[k]@);
            }
        }
        lemma_outline_section(outline, cs, i + 1);
    }
}

/// The name and string arguments of a node.
fn outline_of(n: &KdlNode) -> (res: NodeOutline)
    ensures
        res.name@ == kdl_name(*n),
        key_views(res.strings@) == present_strings(kdl_strings(*n)),
{
    let strs = node_strings(n);
    let ghost x = kdl_strings(*n);
    let mut strings: Vec<String> = Vec::new();
    let mut j: usize = 0;
    while j < strs.len()
        invariant
            j <= strs.len(),
            x == kdl_strings(*n),
            strs@.len() == x.len(),
            forall|q: int| 0 <= q < strs@.len() ==> opt_view(#[trigger] strs@[q]) == x[q],
            key_views(strings@) == present_strings(x.take(j as int)),
        decreases strs.len() - j,
    {
        assert(x.take(j + 1).drop_last() =~= x.take(j as int));
        assert(x.take(j + 1).last() == x[j as int]);
        assert(opt_view(strs@[j as int]) == x[j as int]);
        let ghost prev = strings@;
        match &strs[j] {
            Some(s) => {
                strings.push(string_of(s.as_str()));
                assert(key_views(strings@) =~= key_views(prev).push(s@));
            },
            None => {},
        }
        assert(key_views(strings@) =~= present_strings(x.take(j + 1)));
        j = j + 1;
    }
    assert(x.take(strs.len() as int) =~= x);
    NodeOutline { name: node_name(n), strings }
}

/// A node parsed from a text the merge adds.
fn added_node(text: &str) -> (res: Option<KdlNode>)
    ensures
        res == kdl_node_of(text@),
{
    parse_node(text)
}

/// The nodes a text names, in order.
fn node_names(ns: &Vec<KdlNode>) -> (res: Vec<String>)
    ensures
        key_views(res@) == names_of(ns@),
{
    let mut names: Vec<String> = Vec::new();
    let mut i: usize = 0;
    while i < ns.len()
        invariant
            i <= ns.len(),
            key_views(names@) == names_of(ns@).take(i as int),
        decreases ns.len() - i,
    {
        let ghost prev = names@;
        let nm = node_name(&ns[i]);
        names.push(nm);
        assert(names@ == prev.push(nm));
        assert(key_views(prev).len() == prev.len());
        assert(names_of(ns@).take(i as int).len() == i);
        assert forall|m: int| 0 <= m < i + 1 implies #[trigger] key_views(names@)[m] == names_of(
            ns@,
        ).take(i + 1)[m] by {
            if m < i {
                assert(names@[m] == prev[m]);
                assert(key_views(prev)[m] == prev[m]@);
                assert(names_of(ns@).take(i as int)[m] == names_of(ns@)[m]);
            } else {
                assert(names_of(ns@)[m] == kdl_name(ns@[m]));
            }
        }
        assert(key_views(names@) =~= names_of(ns@).take(i + 1));
        i = i + 1;
    }
    assert(names_of(ns@).take(ns.len() as int) =~= names_of(ns@));
    names
}

/// The parse of the user's text: `None` when it is neither blank nor KDL.
fn source_document(source: &str) -> (res: Option<KdlDocument>)
    ensures
        res is Some <==> (trim(source@).len() == 0 || kdl_parses(source@)),
        res matches Some(d) ==> kdl_nodes(d) == source_nodes(source@) && kdl_leading(d)
            == source_leading(source@) && kdl_trailing(d) == source_trailing(source@),
{
    let cs = chars_of(source);
    let t = trim_chars(cs.as_slice());
    if t.len() == 0 {
        Some(new_document())
    } else {
        parse_document(source)
    }
}

/// The user's configuration with the helper bindings added, as text.
/// Refused, in this order of checks: when the text is neither blank nor KDL;
/// when a requested key is already bound (compared normalized) by a `bind`
/// node at any depth under its first `keybinds` node, naming that key; when a
/// node the merge adds does not parse. Otherwise the result is the text of
/// the [`merged`] document: the user's nodes other than `session_name` and
/// `session_serialization`, unchanged and in order, then the session nodes,
/// then a `keybinds` node when there was none; the first `keybinds` node gets
/// the helper bindings at the end of its `shared_except "locked"` section,
/// added when missing, and nothing else in it changes.
pub fn merge_config(source: &str, input: &RuntimeConfigInput) -> (res: Result<String, String>)
    ensures
        res is Err <==> (trim(source@).len() != 0 && !kdl_parses(source@)) || conflicts(
            *input.keys,
            bound_keys(source@),
        ) || !added_nodes_parse(*input),
        (trim(source@).len() == 0 || kdl_parses(source@)) && conflicts(*input.keys, bound_keys(source@))
            ==> (res matches Err(m) && m@ == conflict_error(*input.keys, bound_keys(source@))),
        res matches Ok(t) ==> exists|d: KdlDocument| t@ == kdl_text(d) && merged(d, source@, *input),
{
    let mut doc = match source_document(source) {
        Some(d) => d,
        None => {
            return Err(string_of("Failed to parse the existing Zellij config"));
        },
    };
    let nodes = document_nodes(&doc);
    let names = node_names(&nodes);
    let mut bound: Vec<String> = Vec::new();
    assert(names@.map_values(|n: String| n@) =~= key_views(names@));
    match keybinds_index(&names) {
        Some(k) => {
            proof {
                lemma_first_named_in(names@.map_values(|n: String| n@), "keybinds"@, 0);
            }
            collect_keys(&nodes[k], &mut bound);
            assert(key_views(bound@) == key_views(Seq::<String>::empty()) + keys_below(
                nodes@[k as int],
                kdl_height(nodes@[k as int]) + 1,
            ));
        },
        None => {},
    }
    assert(key_views(bound@) =~= bound_keys(source@));
    proof {
        lemma_conflict_by_views(*input.keys, bound@, 0);
    }
    match find_key_conflict(input.keys, &bound) {
        Some(c) => {
            let m = c.message();
            assert(conflicts(*input.keys, bound_keys(source@)));
            assert(m@ == conflict_error(*input.keys, bound_keys(source@)));
            return Err(m);
        },
        None => {},
    }
    // Every node the merge adds, parsed before anything changes.
    let texts = runtime_bindings(input);
    let mut bindings: Vec<KdlNode> = Vec::new();
    let mut q: usize = 0;
    while q < texts.len()
        invariant
            q <= texts.len(),
            texts@.len() == 9,
            forall|i: int| 0 <= i < 9 ==> (#[trigger] texts@[i])@ == binding_spec(*input, i),
            bindings@.len() == q,
            forall|i: int| 0 <= i < q ==> kdl_node_of(binding_spec(*input, i)) is Some,
            forall|i: int| 0 <= i < q ==> (#[trigger] bindings@[i]) == parsed(binding_spec(*input, i)),
            !conflicts(*input.keys, bound_keys(source@)),
        decreases texts.len() - q,
    {
        match added_node(texts[q].as_str()) {
            Some(n) => bindings.push(n),
            None => {
                return Err(string_of("Failed to build Zellij binding"));
            },
        }
        q = q + 1;
    }
    assert(bindings@ =~= helper_nodes(*input));
    let session_text = session_name_node(input.session_name);
    let session = match added_node(session_text.as_str()) {
        Some(n) => n,
        None => {
            return Err(string_of("Failed to build Zellij binding"));
        },
    };
    let serialization = match added_node(SESSION_SERIALIZATION_NODE) {
        Some(n) => n,
        None => {
            return Err(string_of("Failed to build Zellij binding"));
        },
    };
    let new_keybinds = match added_node(KEYBINDS_NODE) {
        Some(n) => n,
        None => {
            return Err(string_of("Failed to build Zellij binding"));
        },
    };
    let new_section = match added_node(SHARED_EXCEPT_LOCKED_NODE) {
        Some(n) => n,
        None => {
            return Err(string_of("Failed to build Zellij binding"));
        },
    };
    assert(added_nodes_parse(*input));
    // The user's nodes without the session nodes, then the session nodes.
    let mut top: Vec<KdlNode> = Vec::new();
    let mut i: usize = 0;
    while i < nodes.len()
        invariant
            i <= nodes.len(),
            key_views(names@) == names_of(nodes@),
            names@.len() == nodes@.len(),
            top@ == nodes@.take(i as int).filter(|n: KdlNode| !replaced_node_spec(kdl_name(n))),
        decreases nodes.len() - i,
    {
        reveal_with_fuel(Seq::<_>::filter, 1);
        assert(nodes@.take(i + 1).drop_last() =~= nodes@.take(i as int));
        assert(names@[i as int]@ == names_of(nodes@)[i as int]);
        if !is_replaced_node(names[i].as_str()) {
            top.push(copy_node(&nodes[i]));
        }
        i = i + 1;
    }
    assert(nodes@.take(nodes.len() as int) =~= nodes@);
    top.push(session);
    top.push(serialization);
    assert(top@ =~= with_session(source@, *input));
    let top_names = node_names(&top);
    assert(top_names@.map_values(|n: String| n@) =~= key_views(top_names@));
    let kidx = match keybinds_index(&top_names) {
        Some(k) => {
            proof {
                lemma_first_named_in(top_names@.map_values(|n: String| n@), "keybinds"@, 0);
            }
            k
        },
        None => {
            top.push(new_keybinds);
            top.len() - 1
        },
    };
    assert(top@ =~= top_nodes(source@, *input));
    assert(kidx as int == keybinds_at(source@, *input));
    let ghost kb = top@[kidx as int];
    let mut keybinds = copy_node(&top[kidx]);
    let mut children: Vec<KdlNode> = match node_children(&keybinds) {
        Some(c) => c,
        None => Vec::new(),
    };
    assert(children@ == children_or_empty(kb));
    let mut outline: Vec<NodeOutline> = Vec::new();
    let mut j: usize = 0;
    while j < children.len()
        invariant
            j <= children.len(),
            outline@.len() == j,
            forall|m: int| 0 <= m < j ==> (#[trigger] outline@[m]).name@ == kdl_name(children@[m]),
            forall|m: int|
                0 <= m < j ==> key_views((#[trigger] outline@[m]).strings@) == present_strings(
                    kdl_strings(children@[m]),
                ),
        decreases children.len() - j,
    {
        outline.push(outline_of(&children[j]));
        j = j + 1;
    }
    proof {
        lemma_outline_section(outline@, children@, 0);
        lemma_first_locked_in(children@, 0);
    }
    let sidx = match shared_section_index(&outline) {
        Some(k) => k,
        None => {
            children.push(new_section);
            children.len() - 1
        },
    };
    assert(children@ =~= section_children(kb));
    assert(sidx as int == section_at(kb));
    let ghost cs = children@;
    let mut shared = copy_node(&children[sidx]);
    let mut section: Vec<KdlNode> = match node_children(&shared) {
        Some(c) => c,
        None => Vec::new(),
    };
    let ghost old_section = section@;
    assert(old_section == children_or_empty(cs[sidx as int]));
    let mut q: usize = 0;
    while q < bindings.len()
        invariant
            q <= bindings.len(),
            section@ == old_section + bindings@.take(q as int),
        decreases bindings.len() - q,
    {
        section.push(copy_node(&bindings[q]));
        assert(bindings@.take(q + 1) =~= bindings@.take(q as int).push(bindings@[q as int]));
        q = q + 1;
        assert(section@ =~= old_section + bindings@.take(q as int));
    }
    assert(bindings@.take(bindings.len() as int) =~= bindings@);
    set_node_children(&mut shared, section);
    children.set(sidx, shared);
    set_node_children(&mut keybinds, children);
    top.set(kidx, keybinds);
    set_document_nodes(&mut doc, top);
    let text = document_text(&doc);
    assert(merged(doc, source@, *input));
    Ok(text)
}

pub open spec fn session_name_node_text(name: Seq<char>) -> Seq<char> {
    "session_name "@ + crate::text::debug_str(name) + "\n"@
}

} // verus!
