//! The graph of one function body, block by block.
//!
//! A pass opens the graph, declares the entry node and its edge to block 0,
//! visits the blocks once each in the order of their indices, and closes the
//! graph. For each block it writes the synthetic node of the terminator (if
//! it has one), the terminator's edges, and then the block's own node.

use vstd::prelude::*;
use crate::decimal::{decimal, decimal_string};
use crate::dot::{edge_line, node_line, style_node, write_edge, write_edge_raw};
use crate::edges::{
    attrs_of,
    edge_label_text,
    edges_of,
    label_of,
    prefix_of,
    pseudo_node,
    pseudo_of,
    terminator_edges,
    terminator_label,
    Edge,
    Node,
};
use crate::mir::{BasicBlock, BasicBlockIndex, BasicBlockView, Mir, MirView, TerminatorView};
use crate::registry::{
    bump,
    count_of,
    counts_after,
    label_at,
    label_text,
    lemma_labels_never_repeat,
    Context,
};

verus! {

/// The lines of `lines` in one piece of text, with the two characters `\n`
/// between neighbours: the renderer breaks the line there.
pub open spec fn joined(lines: Seq<Seq<char>>) -> Seq<char>
    decreases lines.len(),
{
    if lines.len() == 0 {
        Seq::empty()
    } else if lines.len() == 1 {
        lines[0]
    } else {
        joined(lines.drop_last()) + "\\n"@ + lines.last()
    }
}

/// The name under which `node` is written, where `pseudo` names the
/// synthetic node: a block goes by its index in decimal.
pub open spec fn node_name(node: Node, pseudo: Seq<char>) -> Seq<char> {
    match node {
        Node::Block(bb) => decimal(bb as nat),
        Node::Pseudo => pseudo,
    }
}

/// The statement for `edge`, where `pseudo` names the synthetic node.
pub open spec fn edge_text(edge: Edge, pseudo: Seq<char>) -> Seq<char> {
    edge_line(
        node_name(edge.src, pseudo),
        node_name(edge.dst, pseudo),
        match edge.label {
            Some(label) => Some(edge_label_text(label)),
            None => None,
        },
    )
}

/// The statements for `edges`, one after the other.
pub open spec fn edges_text(edges: Seq<Edge>, pseudo: Seq<char>) -> Seq<char>
    decreases edges.len(),
{
    if edges.len() == 0 {
        Seq::empty()
    } else {
        edges_text(edges.drop_last(), pseudo) + edge_text(edges.last(), pseudo)
    }
}

/// The name of the synthetic node that `term` gets when the registry holds
/// `counts`; the empty text for a terminator without one.
pub open spec fn pseudo_label(term: TerminatorView, counts: Map<Seq<char>, nat>) -> Seq<char> {
    match pseudo_of(term) {
        Some(kind) => label_text(prefix_of(kind), count_of(counts, prefix_of(kind))),
        None => Seq::empty(),
    }
}

/// The statement that declares the synthetic node of `term`; nothing for a
/// terminator without one.
pub open spec fn pseudo_text(term: TerminatorView, counts: Map<Seq<char>, nat>) -> Seq<char> {
    match pseudo_of(term) {
        Some(kind) => node_line(pseudo_label(term, counts), None, attrs_of(kind)),
        None => Seq::empty(),
    }
}

/// The registry's counts after the synthetic node of `term`, if it has one,
/// was requested.
pub open spec fn counts_after_terminator(
    counts: Map<Seq<char>, nat>,
    term: TerminatorView,
) -> Map<Seq<char>, nat> {
    match pseudo_of(term) {
        Some(kind) => bump(counts, prefix_of(kind)),
        None => counts,
    }
}

/// The label of a block's node, a record of three fields: the block's
/// index, its statements, and the kind of its terminator.
pub open spec fn block_cell(src: BasicBlockIndex, block: BasicBlockView) -> Seq<char> {
    "{"@ + decimal(src as nat) + " | "@ + joined(block.stmts) + " | "@ + label_of(block.term)
        + "}"@
}

/// The statement that declares the node of block `src`.
pub open spec fn block_node_text(src: BasicBlockIndex, block: BasicBlockView) -> Seq<char> {
    node_line(
        decimal(src as nat),
        Some(block_cell(src, block)),
        Some("shape = record, style=filled, fillcolor=beige"@),
    )
}

/// Everything written for block `src` when the registry holds `counts`:
/// the synthetic node, the edges, the block's node.
pub open spec fn block_text(
    src: BasicBlockIndex,
    block: BasicBlockView,
    counts: Map<Seq<char>, nat>,
) -> Seq<char> {
    pseudo_text(block.term, counts) + edges_text(
        edges_of(src, block.term),
        pseudo_label(block.term, counts),
    ) + block_node_text(src, block)
}

/// The registry's counts after a pass over `blocks`.
pub open spec fn counts_after_blocks(blocks: Seq<BasicBlockView>) -> Map<Seq<char>, nat>
    decreases blocks.len(),
{
    if blocks.len() == 0 {
        Map::empty()
    } else {
        counts_after_terminator(counts_after_blocks(blocks.drop_last()), blocks.last().term)
    }
}

/// Everything written for `blocks`, visited once each in the order of their
/// indices by a pass that starts with a fresh registry. A block's index is
/// its position, which must fit a `BasicBlockIndex`.
pub open spec fn blocks_text(blocks: Seq<BasicBlockView>) -> Seq<char>
    decreases blocks.len(),
{
    if blocks.len() == 0 {
        Seq::empty()
    } else {
        blocks_text(blocks.drop_last()) + block_text(
            (blocks.len() - 1) as BasicBlockIndex,
            blocks.last(),
            counts_after_blocks(blocks.drop_last()),
        )
    }
}

/// The prefixes under which a pass over `blocks` requests its synthetic
/// nodes, in the order of the requests.
pub open spec fn requested_prefixes(blocks: Seq<BasicBlockView>) -> Seq<Seq<char>>
    decreases blocks.len(),
{
    if blocks.len() == 0 {
        Seq::empty()
    } else {
        match pseudo_of(blocks.last().term) {
            Some(kind) => requested_prefixes(blocks.drop_last()).push(prefix_of(kind)),
            None => requested_prefixes(blocks.drop_last()),
        }
    }
}

/// The name of the synthetic node of block `i` in a pass over `blocks`.
pub open spec fn pseudo_label_at(blocks: Seq<BasicBlockView>, i: int) -> Seq<char> {
    pseudo_label(blocks[i].term, counts_after_blocks(blocks.take(i)))
}

/// What opens every graph: the graph's name, the default node shape, the
/// entry node, drawn as a point, and its edge to block 0.
pub open spec fn graph_head() -> Seq<char> {
    "digraph \"g\" {\n"@ + "\tnode [ shape=box ]\n"@ + node_line(
        "__entry"@,
        Some(""@),
        Some("shape=point"@),
    ) + edge_line("__entry"@, decimal(0), None)
}

/// The whole description of the graph of `mir`: the opening, the blocks,
/// and the bracket that closes the graph.
pub open spec fn graph_text(mir: MirView) -> Seq<char> {
    graph_head() + blocks_text(mir.blocks) + "}\n"@
}

/// A pass leaves the registry as its requests alone would: nothing but the
/// synthetic nodes of the blocks is ever requested.
pub proof fn lemma_pass_requests(blocks: Seq<BasicBlockView>)
    ensures
        counts_after_blocks(blocks) == counts_after(requested_prefixes(blocks)),
    decreases blocks.len(),
{
    if blocks.len() > 0 {
        lemma_pass_requests(blocks.drop_last());
        if pseudo_of(blocks.last().term) is Some {
            let requests = requested_prefixes(blocks);
            assert(requests.drop_last() =~= requested_prefixes(blocks.drop_last()));
        }
    }
}

/// The requests of the first `a` blocks open the requests of the first `b`.
proof fn lemma_requests_extend(blocks: Seq<BasicBlockView>, a: int, b: int)
    requires
        0 <= a <= b <= blocks.len(),
    ensures
        requested_prefixes(blocks.take(a)).len() <= requested_prefixes(blocks.take(b)).len(),
        requested_prefixes(blocks.take(a)) == requested_prefixes(blocks.take(b)).take(
            requested_prefixes(blocks.take(a)).len() as int,
        ),
    decreases b - a,
{
    let first = requested_prefixes(blocks.take(a));
    if a < b {
        lemma_requests_extend(blocks, a, b - 1);
        assert(blocks.take(b).drop_last() =~= blocks.take(b - 1));
        let shorter = requested_prefixes(blocks.take(b - 1));
        let longer = requested_prefixes(blocks.take(b));
        assert(longer.take(first.len() as int) =~= shorter.take(first.len() as int));
    } else {
        assert(first =~= first.take(first.len() as int));
    }
}

/// Within one pass no two synthetic nodes get the same name: each
/// terminator that needs a node points at a node of its own.
pub proof fn lemma_pseudo_labels_distinct(blocks: Seq<BasicBlockView>, i: int, j: int)
    requires
        0 <= i < j < blocks.len(),
        pseudo_of(blocks[i].term) is Some,
        pseudo_of(blocks[j].term) is Some,
    ensures
        pseudo_label_at(blocks, i) != pseudo_label_at(blocks, j),
{
    let requests = requested_prefixes(blocks.take(j + 1));
    let before_i = requested_prefixes(blocks.take(i));
    let with_i = requested_prefixes(blocks.take(i + 1));
    let before_j = requested_prefixes(blocks.take(j));
    assert(blocks.take(i + 1).drop_last() =~= blocks.take(i));
    assert(blocks.take(j + 1).drop_last() =~= blocks.take(j));
    assert(blocks.take(i + 1).last() == blocks[i]);
    assert(blocks.take(j + 1).last() == blocks[j]);
    lemma_requests_extend(blocks, i, j + 1);
    lemma_requests_extend(blocks, i + 1, j);
    lemma_requests_extend(blocks, i + 1, j + 1);
    let ri = before_i.len() as int;
    let rj = before_j.len() as int;
    assert(ri < rj);
    assert(requests[ri] == with_i[ri]);
    assert(requests.take(rj) =~= before_j);
    lemma_pass_requests(blocks.take(i));
    lemma_pass_requests(blocks.take(j));
    assert(pseudo_label_at(blocks, i) == label_at(requests, ri));
    assert(pseudo_label_at(blocks, j) == label_at(requests, rj));
    lemma_labels_never_repeat(requests, ri, rj);
}

/// The statements of `blk` as one piece of text, a line each.
pub fn get_statements_text(blk: &BasicBlock) -> (text: String)
    ensures
        text@ == joined(blk@.stmts),
{
    let mut text = String::new();
    let mut i: usize = 0;
    while i < blk.stmts.len()
        invariant
            i <= blk.stmts.len(),
            blk@.stmts.len() == blk.stmts.len(),
            text@ == joined(blk@.stmts.take(i as int)),
        decreases blk.stmts.len() - i,
    {
        if i > 0 {
            text.append("\\n");
        }
        text.append(blk.stmts[i].as_str());
        proof {
            let before = blk@.stmts.take(i as int);
            let now = blk@.stmts.take(i + 1);
            assert(now.drop_last() =~= before);
            assert(now.last() == blk.stmts[i as int]@);
            if i == 0 {
                assert(text@ =~= now[0]);
            }
        }
        i += 1;
    }
    assert(blk@.stmts.take(i as int) =~= blk@.stmts);
    text
}

/// The name under which `node` is written, where `pseudo` names the
/// synthetic node.
fn node_name_string(node: Node, pseudo: &str) -> (name: String)
    ensures
        name@ == node_name(node, pseudo@),
{
    match node {
        Node::Block(bb) => decimal_string(bb as u64),
        Node::Pseudo => String::from_str(pseudo),
    }
}

/// Appends the statement for `edge` to `w`, where `pseudo` names the
/// synthetic node.
fn write_graph_edge(w: &mut String, edge: &Edge, pseudo: &str)
    ensures
        final(w)@ == old(w)@ + edge_text(*edge, pseudo@),
{
    let label: Option<&str> = match edge.label {
        Some(l) => Some(l.as_str()),
        None => None,
    };
    match (edge.src, edge.dst) {
        (Node::Block(src), Node::Block(dst)) => {
            write_edge(w, src, dst, label);
        },
        (src, dst) => {
            let src_name = node_name_string(src, pseudo);
            let dst_name = node_name_string(dst, pseudo);
            write_edge_raw(w, src_name.as_str(), dst_name.as_str(), label);
        },
    }
}

/// Writes block `src_bb` to `fh`: first the synthetic node that its
/// terminator points at, named by `cx`, if it has one; then the
/// terminator's edges; then the node of the block itself.
///
/// `_mir` is the function body that `block` is block `src_bb` of. Nothing
/// is read from it: the terminator's targets are written as they stand,
/// whether or not the body has such blocks.
pub fn write_edges(
    _mir: &Mir,
    cx: &mut Context,
    src_bb: BasicBlockIndex,
    block: &BasicBlock,
    fh: &mut String,
)
    requires
        pseudo_of(block@.term) matches Some(kind) ==> count_of(old(cx)@, prefix_of(kind))
            < usize::MAX,
    ensures
        final(fh)@ == old(fh)@ + block_text(src_bb, block@, old(cx)@),
        final(cx)@ == counts_after_terminator(old(cx)@, block@.term),
{
    let pseudo: String = match pseudo_node(&block.term) {
        Some(kind) => {
            let name = cx.external_node_label(kind.prefix());
            style_node(fh, name.as_str(), None, kind.attrs());
            name
        },
        None => String::new(),
    };
    assert(pseudo@ == pseudo_label(block@.term, old(cx)@));
    assert(fh@ == old(fh)@ + pseudo_text(block@.term, old(cx)@));

    let edges = terminator_edges(src_bb, &block.term);
    let ghost start = fh@;
    let mut i: usize = 0;
    while i < edges.len()
        invariant
            i <= edges.len(),
            fh@ == start + edges_text(edges@.take(i as int), pseudo@),
        decreases edges.len() - i,
    {
        write_graph_edge(fh, &edges[i], pseudo.as_str());
        proof {
            assert(edges@.take(i + 1).drop_last() =~= edges@.take(i as int));
            assert(edges@.take(i + 1).last() == edges@[i as int]);
        }
        i += 1;
    }
    assert(edges@.take(i as int) =~= edges@);

    let src_name = decimal_string(src_bb as u64);
    let mut cell = String::from_str("{");
    cell.append(src_name.as_str());
    cell.append(" | ");
    cell.append(get_statements_text(block).as_str());
    cell.append(" | ");
    cell.append(terminator_label(&block.term));
    cell.append("}");
    assert(cell@ =~= block_cell(src_bb, block@));
    style_node(
        fh,
        src_name.as_str(),
        Some(cell.as_str()),
        Some("shape = record, style=filled, fillcolor=beige"),
    );
}

/// Any one count grows by at most one when a block is written.
proof fn lemma_count_after_terminator(
    counts: Map<Seq<char>, nat>,
    term: TerminatorView,
    prefix: Seq<char>,
)
    ensures
        count_of(counts_after_terminator(counts, term), prefix) <= count_of(counts, prefix) + 1,
{
}

/// The description of the graph of `mir`, from the opening line to the
/// closing bracket.
pub fn graph(mir: &Mir) -> (dot: String)
    requires
        mir@.indexable(),
    ensures
        dot@ == graph_text(mir@),
{
    let mut fh = String::from_str("digraph \"g\" {\n");
    fh.append("\tnode [ shape=box ]\n");
    style_node(&mut fh, "__entry", Some(""), Some("shape=point"));
    write_edge_raw(&mut fh, "__entry", "0", None);
    proof {
        reveal_strlit("0");
        assert("0"@ =~= decimal(0));
        assert(fh@ =~= graph_head());
    }

    let mut ctxt = Context::new();
    let mut i: usize = 0;
    while i < mir.blocks.len()
        invariant
            i <= mir.blocks.len(),
            mir@.blocks.len() == mir.blocks.len(),
            mir@.indexable(),
            fh@ == graph_head() + blocks_text(mir@.blocks.take(i as int)),
            ctxt@ == counts_after_blocks(mir@.blocks.take(i as int)),
            forall|prefix: Seq<char>| #[trigger] count_of(ctxt@, prefix) <= i,
        decreases mir.blocks.len() - i,
    {
        let ghost before = mir@.blocks.take(i as int);
        let ghost now = mir@.blocks.take(i + 1);
        let ghost counts = ctxt@;
        let block = &mir.blocks[i];
        proof {
            assert(now.drop_last() =~= before);
            assert(now.last() == block@);
            assert forall|prefix: Seq<char>| #[trigger]
                count_of(counts_after_terminator(counts, block@.term), prefix) <= i + 1 by {
                lemma_count_after_terminator(counts, block@.term, prefix);
            }
        }
        write_edges(mir, &mut ctxt, i as BasicBlockIndex, block, &mut fh);
        i += 1;
    }
    assert(mir@.blocks.take(i as int) =~= mir@.blocks);
    fh.append("}\n");
    fh
}

} // verus!
