//! From a terminator to the edges that leave its block.
//!
//! Each kind of terminator has a fixed shape: the edges it gives rise to,
//! whether it needs a synthetic node to point at, and the short label shown
//! for it. Nothing else about the block or the function matters.

use vstd::prelude::*;
use crate::decimal::{
    decimal,
    is_digit,
    lemma_decimal_injective,
    lemma_decimal_is_digits,
    push_decimal,
};
use crate::mir::{BasicBlockIndex, CallOperand, DefId, Terminator, TerminatorView};

verus! {

/// The kinds of synthetic node. A terminator that leaves the function, or
/// calls out of it, points at a node of its own that stands for where
/// control goes.
#[derive(Clone, Copy, Debug, PartialEq, Eq, Structural)]
pub enum PseudoKind {
    Resume,
    Abort,
    Return,
    Unreachable,
    GeneratorDrop,
    /// The target of a call whose callee is known.
    Callee(DefId),
    /// The target of a call whose callee is not known.
    UnknownCallee,
}

/// The labels an edge can carry.
#[derive(Clone, Copy, Debug, PartialEq, Eq, Structural)]
pub enum EdgeLabel {
    Unwind,
    Drop,
    Cleanup,
}

/// One end of an edge: a block of the function, or the synthetic node of
/// the terminator that the edge belongs to.
#[derive(Clone, Copy, Debug, PartialEq, Eq, Structural)]
pub enum Node {
    Block(BasicBlockIndex),
    Pseudo,
}

/// A directed edge of the graph.
#[derive(Clone, Copy, Debug, PartialEq, Eq)]
pub struct Edge {
    pub src: Node,
    pub dst: Node,
    pub label: Option<EdgeLabel>,
}

/// The unlabelled edge from block `src` to block `dst`.
pub open spec fn block_edge(src: BasicBlockIndex, dst: BasicBlockIndex) -> Edge {
    Edge { src: Node::Block(src), dst: Node::Block(dst), label: None }
}

/// The edge from block `src` to block `dst` that carries `label`.
pub open spec fn labelled_edge(
    src: BasicBlockIndex,
    dst: BasicBlockIndex,
    label: EdgeLabel,
) -> Edge {
    Edge { src: Node::Block(src), dst: Node::Block(dst), label: Some(label) }
}

/// The unlabelled edge from block `src` to the terminator's synthetic node.
pub open spec fn sink_edge(src: BasicBlockIndex) -> Edge {
    Edge { src: Node::Block(src), dst: Node::Pseudo, label: None }
}

/// The unlabelled edge from the terminator's synthetic node to block `dst`.
pub open spec fn return_edge(dst: BasicBlockIndex) -> Edge {
    Edge { src: Node::Pseudo, dst: Node::Block(dst), label: None }
}

/// The edges of a terminator with one target and an optional second one:
/// the edge to the target, then, if there is a second target, the edge to
/// it under `label`.
pub open spec fn edges_with_secondary(
    src: BasicBlockIndex,
    target: BasicBlockIndex,
    secondary: Option<BasicBlockIndex>,
    label: EdgeLabel,
) -> Seq<Edge> {
    match secondary {
        Some(other) => seq![block_edge(src, target), labelled_edge(src, other, label)],
        None => seq![block_edge(src, target)],
    }
}

/// The edges of a call: to the callee's synthetic node; to the cleanup
/// block, if there is one; and from the callee's node on to the block where
/// the call returns, if there is one.
pub open spec fn call_edges(
    src: BasicBlockIndex,
    cleanup: Option<BasicBlockIndex>,
    ret: Option<BasicBlockIndex>,
) -> Seq<Edge> {
    let to_cleanup = match cleanup {
        Some(bb) => seq![labelled_edge(src, bb, EdgeLabel::Cleanup)],
        None => Seq::<Edge>::empty(),
    };
    let back = match ret {
        Some(bb) => seq![return_edge(bb)],
        None => Seq::<Edge>::empty(),
    };
    seq![sink_edge(src)] + to_cleanup + back
}

/// The edges that the terminator `term` of block `src` gives rise to, in
/// the order in which they are written.
pub open spec fn edges_of(src: BasicBlockIndex, term: TerminatorView) -> Seq<Edge> {
    match term {
        TerminatorView::Goto { target_bb } => seq![block_edge(src, target_bb)],
        TerminatorView::FalseEdges { real_target_bb } => seq![block_edge(src, real_target_bb)],
        TerminatorView::FalseUnwind { real_target_bb } => seq![block_edge(src, real_target_bb)],
        TerminatorView::SwitchInt { target_bbs } => Seq::new(
            target_bbs.len(),
            |i: int| block_edge(src, target_bbs[i]),
        ),
        TerminatorView::Resume => seq![sink_edge(src)],
        TerminatorView::Abort => seq![sink_edge(src)],
        TerminatorView::Return => seq![sink_edge(src)],
        TerminatorView::Unreachable => seq![sink_edge(src)],
        TerminatorView::GeneratorDrop => seq![sink_edge(src)],
        TerminatorView::Drop { target_bb, unwind_bb } => edges_with_secondary(
            src,
            target_bb,
            unwind_bb,
            EdgeLabel::Unwind,
        ),
        TerminatorView::DropAndReplace { target_bb, unwind_bb } => edges_with_secondary(
            src,
            target_bb,
            unwind_bb,
            EdgeLabel::Unwind,
        ),
        TerminatorView::Assert { target_bb, cleanup_bb } => edges_with_secondary(
            src,
            target_bb,
            cleanup_bb,
            EdgeLabel::Unwind,
        ),
        TerminatorView::Yield { resume_bb, drop_bb } => edges_with_secondary(
            src,
            resume_bb,
            drop_bb,
            EdgeLabel::Drop,
        ),
        TerminatorView::Call { operand, cleanup_bb, ret_bb } => call_edges(src, cleanup_bb, ret_bb),
    }
}

/// The synthetic node that `term` points at, if it needs one.
pub open spec fn pseudo_of(term: TerminatorView) -> Option<PseudoKind> {
    match term {
        TerminatorView::Resume => Some(PseudoKind::Resume),
        TerminatorView::Abort => Some(PseudoKind::Abort),
        TerminatorView::Return => Some(PseudoKind::Return),
        TerminatorView::Unreachable => Some(PseudoKind::Unreachable),
        TerminatorView::GeneratorDrop => Some(PseudoKind::GeneratorDrop),
        TerminatorView::Call { operand, cleanup_bb, ret_bb } => match operand {
            CallOperand::Fn(def_id) => Some(PseudoKind::Callee(def_id)),
            CallOperand::Unknown => Some(PseudoKind::UnknownCallee),
        },
        _ => None,
    }
}

/// The short text shown for the kind of `term`.
pub open spec fn label_of(term: TerminatorView) -> Seq<char> {
    match term {
        TerminatorView::Goto { .. } => "goto"@,
        TerminatorView::FalseEdges { .. } => "false edge"@,
        TerminatorView::FalseUnwind { .. } => "false unwind"@,
        TerminatorView::SwitchInt { .. } => "switch_int"@,
        TerminatorView::Resume => "resume"@,
        TerminatorView::Abort => "abort"@,
        TerminatorView::Return => "ret"@,
        TerminatorView::Unreachable => "unreachable"@,
        TerminatorView::GeneratorDrop => "gen drop"@,
        TerminatorView::Drop { .. } => "drop"@,
        TerminatorView::DropAndReplace { .. } => "drop+replace"@,
        TerminatorView::Assert { .. } => "assert"@,
        TerminatorView::Yield { .. } => "yield"@,
        TerminatorView::Call { .. } => "call"@,
    }
}

/// A switch has one edge for each entry of its target list, in the order of
/// the list. A block that is listed twice gets two edges.
pub proof fn lemma_switch_edges(src: BasicBlockIndex, target_bbs: Seq<BasicBlockIndex>)
    ensures
        edges_of(src, TerminatorView::SwitchInt { target_bbs }).len() == target_bbs.len(),
        forall|i: int|
            0 <= i < target_bbs.len() ==> #[trigger] edges_of(
                src,
                TerminatorView::SwitchInt { target_bbs },
            )[i] == block_edge(src, target_bbs[i]),
{
}

/// A terminator whose optional second target is absent has the edge to its
/// target and no other.
pub proof fn lemma_edges_without_secondary(src: BasicBlockIndex, target: BasicBlockIndex)
    ensures
        edges_of(src, TerminatorView::Drop { target_bb: target, unwind_bb: None }) == seq![
            block_edge(src, target),
        ],
        edges_of(src, TerminatorView::DropAndReplace { target_bb: target, unwind_bb: None })
            == seq![block_edge(src, target)],
        edges_of(src, TerminatorView::Assert { target_bb: target, cleanup_bb: None }) == seq![
            block_edge(src, target),
        ],
        edges_of(src, TerminatorView::Yield { resume_bb: target, drop_bb: None }) == seq![
            block_edge(src, target),
        ],
{
}

/// A call has the edge to its callee's node first. A cleanup block adds the
/// second edge, a return block the last one, and leaving either out takes
/// away that edge and no other.
pub proof fn lemma_call_edges(
    src: BasicBlockIndex,
    operand: CallOperand,
    cleanup_bb: Option<BasicBlockIndex>,
    ret_bb: Option<BasicBlockIndex>,
)
    ensures
        ({
            let edges = edges_of(src, TerminatorView::Call { operand, cleanup_bb, ret_bb });
            &&& edges.len() == 1 + (if cleanup_bb is Some {
                1int
            } else {
                0int
            }) + (if ret_bb is Some {
                1int
            } else {
                0int
            })
            &&& edges[0] == sink_edge(src)
            &&& cleanup_bb matches Some(bb) ==> {
                &&& edges[1] == labelled_edge(src, bb, EdgeLabel::Cleanup)
                &&& edges_of(src, TerminatorView::Call { operand, cleanup_bb: None, ret_bb })
                    == edges.remove(1)
            }
            &&& ret_bb matches Some(bb) ==> {
                &&& edges.last() == return_edge(bb)
                &&& edges_of(src, TerminatorView::Call { operand, cleanup_bb, ret_bb: None })
                    == edges.drop_last()
            }
        }),
{
    let edges = edges_of(src, TerminatorView::Call { operand, cleanup_bb, ret_bb });
    if cleanup_bb is Some {
        assert(edges_of(src, TerminatorView::Call { operand, cleanup_bb: None, ret_bb })
            =~= edges.remove(1));
    }
    if ret_bb is Some {
        assert(edges_of(src, TerminatorView::Call { operand, cleanup_bb, ret_bb: None })
            =~= edges.drop_last());
    }
}

/// Every edge leaves the block that the terminator closes, except the edge
/// on which a call returns: that one leaves the callee's node. And an edge
/// touches the synthetic node only where the terminator has one.
pub proof fn lemma_edges_leave_source(src: BasicBlockIndex, term: TerminatorView, i: int)
    requires
        0 <= i < edges_of(src, term).len(),
    ensures
        edges_of(src, term)[i].src == Node::Block(src) || (term is Call && i == edges_of(
            src,
            term,
        ).len() - 1 && edges_of(src, term)[i].src == Node::Pseudo),
        edges_of(src, term)[i].src == Node::Pseudo || edges_of(src, term)[i].dst == Node::Pseudo
            ==> pseudo_of(term) is Some,
{
}

/// Every terminator gives rise to at least one edge, but for a switch
/// without targets.
pub proof fn lemma_edges_nonempty(src: BasicBlockIndex, term: TerminatorView)
    requires
        !(term matches TerminatorView::SwitchInt { target_bbs } && target_bbs.len() == 0),
    ensures
        edges_of(src, term).len() >= 1,
{
}

/// The prefix under which the nodes of a known callee are named: the
/// callee's crate hash and its index, both in decimal, with a hyphen
/// between them.
pub open spec fn def_id_prefix(d: DefId) -> Seq<char> {
    decimal(d.crate_hash as nat) + "-"@ + decimal(d.def_idx as nat)
}

/// The prefix under which nodes of the kind `kind` are named.
pub open spec fn prefix_of(kind: PseudoKind) -> Seq<char> {
    match kind {
        PseudoKind::Resume => "resume"@,
        PseudoKind::Abort => "abort"@,
        PseudoKind::Return => "ret"@,
        PseudoKind::Unreachable => "unreachable"@,
        PseudoKind::GeneratorDrop => "gen drop"@,
        PseudoKind::Callee(def_id) => def_id_prefix(def_id),
        PseudoKind::UnknownCallee => "???"@,
    }
}

/// The prefix of a callee tells which function it is: two functions share a
/// prefix only if they are the same function.
pub proof fn lemma_def_id_prefix_injective(a: DefId, b: DefId)
    requires
        def_id_prefix(a) == def_id_prefix(b),
    ensures
        a == b,
{
    reveal_strlit("-");
    let ha = decimal(a.crate_hash as nat);
    let hb = decimal(b.crate_hash as nat);
    let ia = decimal(a.def_idx as nat);
    let ib = decimal(b.def_idx as nat);
    let ta = def_id_prefix(a);
    let tb = def_id_prefix(b);
    lemma_decimal_is_digits(a.crate_hash as nat);
    lemma_decimal_is_digits(b.crate_hash as nat);
    assert(ta.len() == ha.len() + 1 + ia.len());
    assert(tb.len() == hb.len() + 1 + ib.len());
    assert(ta[ha.len() as int] == '-');
    assert(tb[hb.len() as int] == '-');
    // Where the hashes differ in length, the hyphen after the shorter one
    // would have to be a digit of the longer one.
    if ha.len() < hb.len() {
        assert(tb[ha.len() as int] == hb[ha.len() as int]);
        assert(is_digit(hb[ha.len() as int]));
        assert(false);
    }
    if hb.len() < ha.len() {
        assert(ta[hb.len() as int] == ha[hb.len() as int]);
        assert(is_digit(ha[hb.len() as int]));
        assert(false);
    }
    assert forall|i: int| 0 <= i < ha.len() implies ha[i] == hb[i] by {
        assert(ta[i] == ha[i]);
        assert(tb[i] == hb[i]);
    }
    assert(ha =~= hb);
    assert forall|i: int| 0 <= i < ia.len() implies ia[i] == ib[i] by {
        assert(ta[ha.len() + 1 + i] == ia[i]);
        assert(tb[hb.len() + 1 + i] == ib[i]);
    }
    assert(ia =~= ib);
    lemma_decimal_injective(a.crate_hash as nat, b.crate_hash as nat);
    lemma_decimal_injective(a.def_idx as nat, b.def_idx as nat);
}

/// The prefix of a callee starts with a digit, as no other prefix does.
proof fn lemma_def_id_prefix_starts_with_digit(d: DefId)
    ensures
        def_id_prefix(d).len() >= 1,
        is_digit(def_id_prefix(d)[0]),
{
    lemma_decimal_is_digits(d.crate_hash as nat);
    assert(def_id_prefix(d)[0] == decimal(d.crate_hash as nat)[0]);
}

/// The prefixes that are fixed words: how long each is and how it starts.
proof fn lemma_fixed_prefixes()
    ensures
        "resume"@.len() == 6 && "resume"@[0] == 'r',
        "abort"@.len() == 5 && "abort"@[0] == 'a',
        "ret"@.len() == 3 && "ret"@[0] == 'r',
        "unreachable"@.len() == 11 && "unreachable"@[0] == 'u',
        "gen drop"@.len() == 8 && "gen drop"@[0] == 'g',
        "???"@.len() == 3 && "???"@[0] == '?',
{
    reveal_strlit("resume");
    reveal_strlit("abort");
    reveal_strlit("ret");
    reveal_strlit("unreachable");
    reveal_strlit("gen drop");
    reveal_strlit("???");
}

/// Every kind of synthetic node has a prefix of its own, so that each kind,
/// and each callee, is counted by itself.
pub proof fn lemma_prefix_injective(a: PseudoKind, b: PseudoKind)
    requires
        prefix_of(a) == prefix_of(b),
    ensures
        a == b,
{
    lemma_fixed_prefixes();
    match (a, b) {
        (PseudoKind::Callee(da), PseudoKind::Callee(db)) => {
            lemma_def_id_prefix_injective(da, db);
        },
        (PseudoKind::Callee(da), _) => {
            lemma_def_id_prefix_starts_with_digit(da);
            assert(prefix_of(b)[0] == prefix_of(a)[0]);
        },
        (_, PseudoKind::Callee(db)) => {
            lemma_def_id_prefix_starts_with_digit(db);
            assert(prefix_of(a)[0] == prefix_of(b)[0]);
        },
        _ => {
            // The fixed words differ in length or in their first letter.
            assert(prefix_of(a).len() == prefix_of(b).len());
            assert(prefix_of(a)[0] == prefix_of(b)[0]);
        },
    }
}

/// The attributes with which nodes of the kind `kind` are drawn, if any.
/// Call targets are filled, which tells them from every other node.
pub open spec fn attrs_of(kind: PseudoKind) -> Option<Seq<char>> {
    match kind {
        PseudoKind::Resume => Some("shape=point, color=blue"@),
        PseudoKind::Abort => Some("shape=point, color=red"@),
        PseudoKind::Return => Some("shape=point"@),
        PseudoKind::Unreachable => None,
        PseudoKind::GeneratorDrop => None,
        PseudoKind::Callee(_) => Some("fillcolor = lightblue1, style = filled"@),
        PseudoKind::UnknownCallee => Some("fillcolor = lightblue1, style = filled"@),
    }
}

/// The text of an edge label.
pub open spec fn edge_label_text(label: EdgeLabel) -> Seq<char> {
    match label {
        EdgeLabel::Unwind => "unwind"@,
        EdgeLabel::Drop => "drop"@,
        EdgeLabel::Cleanup => "cleanup"@,
    }
}

impl EdgeLabel {
    /// The text of this label.
    pub fn as_str(&self) -> (text: &'static str)
        ensures
            text@ == edge_label_text(*self),
    {
        match self {
            EdgeLabel::Unwind => "unwind",
            EdgeLabel::Drop => "drop",
            EdgeLabel::Cleanup => "cleanup",
        }
    }
}

/// The prefix under which the nodes of the callee `d` are named.
pub fn def_id_node_prefix(d: &DefId) -> (prefix: String)
    ensures
        prefix@ == def_id_prefix(*d),
{
    let mut prefix = String::new();
    push_decimal(&mut prefix, d.crate_hash);
    prefix.append("-");
    push_decimal(&mut prefix, d.def_idx as u64);
    prefix
}

impl PseudoKind {
    /// The prefix under which nodes of this kind are named.
    pub fn prefix(&self) -> (prefix: String)
        ensures
            prefix@ == prefix_of(*self),
    {
        match self {
            PseudoKind::Resume => String::from_str("resume"),
            PseudoKind::Abort => String::from_str("abort"),
            PseudoKind::Return => String::from_str("ret"),
            PseudoKind::Unreachable => String::from_str("unreachable"),
            PseudoKind::GeneratorDrop => String::from_str("gen drop"),
            PseudoKind::Callee(def_id) => def_id_node_prefix(def_id),
            PseudoKind::UnknownCallee => String::from_str("???"),
        }
    }

    /// The attributes with which nodes of this kind are drawn, if any.
    pub fn attrs(&self) -> (attrs: Option<&'static str>)
        ensures
            crate::dot::text_of(attrs) == attrs_of(*self),
    {
        match self {
            PseudoKind::Resume => Some("shape=point, color=blue"),
            PseudoKind::Abort => Some("shape=point, color=red"),
            PseudoKind::Return => Some("shape=point"),
            PseudoKind::Unreachable => None,
            PseudoKind::GeneratorDrop => None,
            PseudoKind::Callee(_) => Some("fillcolor = lightblue1, style = filled"),
            PseudoKind::UnknownCallee => Some("fillcolor = lightblue1, style = filled"),
        }
    }
}

/// The short text shown for the kind of `term`.
pub fn terminator_label(term: &Terminator) -> (label: &'static str)
    ensures
        label@ == label_of(term@),
{
    match term {
        Terminator::Goto { .. } => "goto",
        Terminator::FalseEdges { .. } => "false edge",
        Terminator::FalseUnwind { .. } => "false unwind",
        Terminator::SwitchInt { .. } => "switch_int",
        Terminator::Resume => "resume",
        Terminator::Abort => "abort",
        Terminator::Return => "ret",
        Terminator::Unreachable => "unreachable",
        Terminator::GeneratorDrop => "gen drop",
        Terminator::Drop { .. } => "drop",
        Terminator::DropAndReplace { .. } => "drop+replace",
        Terminator::Assert { .. } => "assert",
        Terminator::Yield { .. } => "yield",
        Terminator::Call { .. } => "call",
    }
}

/// The synthetic node that `term` points at, if it needs one.
pub fn pseudo_node(term: &Terminator) -> (kind: Option<PseudoKind>)
    ensures
        kind == pseudo_of(term@),
{
    match term {
        Terminator::Resume => Some(PseudoKind::Resume),
        Terminator::Abort => Some(PseudoKind::Abort),
        Terminator::Return => Some(PseudoKind::Return),
        Terminator::Unreachable => Some(PseudoKind::Unreachable),
        Terminator::GeneratorDrop => Some(PseudoKind::GeneratorDrop),
        Terminator::Call { operand, .. } => match operand {
            CallOperand::Fn(def_id) => Some(PseudoKind::Callee(*def_id)),
            CallOperand::Unknown => Some(PseudoKind::UnknownCallee),
        },
        _ => None,
    }
}

/// The edges of a terminator with one target and an optional second one.
fn secondary_edges(
    src: BasicBlockIndex,
    target: BasicBlockIndex,
    secondary: Option<BasicBlockIndex>,
    label: EdgeLabel,
) -> (edges: Vec<Edge>)
    ensures
        edges@ == edges_with_secondary(src, target, secondary, label),
{
    let mut edges: Vec<Edge> = Vec::new();
    edges.push(Edge { src: Node::Block(src), dst: Node::Block(target), label: None });
    if let Some(other) = secondary {
        edges.push(Edge { src: Node::Block(src), dst: Node::Block(other), label: Some(label) });
    }
    edges
}

/// The one edge from block `src` to block `dst`.
fn single_edge(src: BasicBlockIndex, dst: Node) -> (edges: Vec<Edge>)
    ensures
        edges@ == seq![Edge { src: Node::Block(src), dst, label: None }],
{
    let mut edges: Vec<Edge> = Vec::new();
    edges.push(Edge { src: Node::Block(src), dst, label: None });
    edges
}

/// The edges that the terminator `term` of block `src_bb` gives rise to, in
/// the order in which they are written.
pub fn terminator_edges(src_bb: BasicBlockIndex, term: &Terminator) -> (edges: Vec<Edge>)
    ensures
        edges@ == edges_of(src_bb, term@),
{
    match term {
        Terminator::Goto { target_bb } => single_edge(src_bb, Node::Block(*target_bb)),
        Terminator::FalseEdges { real_target_bb } => single_edge(
            src_bb,
            Node::Block(*real_target_bb),
        ),
        Terminator::FalseUnwind { real_target_bb } => single_edge(
            src_bb,
            Node::Block(*real_target_bb),
        ),
        Terminator::SwitchInt { target_bbs } => {
            let mut edges: Vec<Edge> = Vec::new();
            let mut i: usize = 0;
            while i < target_bbs.len()
                invariant
                    i <= target_bbs.len(),
                    edges@ == Seq::new(i as nat, |k: int| block_edge(src_bb, target_bbs@[k])),
                decreases target_bbs.len() - i,
            {
                edges.push(
                    Edge { src: Node::Block(src_bb), dst: Node::Block(target_bbs[i]), label: None },
                );
                i += 1;
            }
            edges
        },
        Terminator::Resume => single_edge(src_bb, Node::Pseudo),
        Terminator::Abort => single_edge(src_bb, Node::Pseudo),
        Terminator::Return => single_edge(src_bb, Node::Pseudo),
        Terminator::Unreachable => single_edge(src_bb, Node::Pseudo),
        Terminator::GeneratorDrop => single_edge(src_bb, Node::Pseudo),
        Terminator::Drop { target_bb, unwind_bb } => secondary_edges(
            src_bb,
            *target_bb,
            *unwind_bb,
            EdgeLabel::Unwind,
        ),
        Terminator::DropAndReplace { target_bb, unwind_bb } => secondary_edges(
            src_bb,
            *target_bb,
            *unwind_bb,
            EdgeLabel::Unwind,
        ),
        Terminator::Assert { target_bb, cleanup_bb } => secondary_edges(
            src_bb,
            *target_bb,
            *cleanup_bb,
            EdgeLabel::Unwind,
        ),
        Terminator::Yield { resume_bb, drop_bb } => secondary_edges(
            src_bb,
            *resume_bb,
            *drop_bb,
            EdgeLabel::Drop,
        ),
        Terminator::Call { operand: _, cleanup_bb, ret_bb } => {
            let mut edges: Vec<Edge> = single_edge(src_bb, Node::Pseudo);
            if let Some(bb) = cleanup_bb {
                edges.push(
                    Edge {
                        src: Node::Block(src_bb),
                        dst: Node::Block(*bb),
                        label: Some(EdgeLabel::Cleanup),
                    },
                );
            }
            if let Some(bb) = ret_bb {
                edges.push(Edge { src: Node::Pseudo, dst: Node::Block(*bb), label: None });
            }
            edges
        },
    }
}

} // verus!
