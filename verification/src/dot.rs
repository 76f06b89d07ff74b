//! The two kinds of line a graph description is made of: edges and nodes.

use vstd::prelude::*;
use crate::decimal::{decimal, push_decimal};
use crate::mir::BasicBlockIndex;

verus! {

/// What an optional piece of text holds, if it is there.
pub open spec fn text_of(t: Option<&str>) -> Option<Seq<char>> {
    match t {
        Some(s) => Some(s@),
        None => None,
    }
}

/// The statement for an edge from node `src` to node `dst`, with its line
/// end: `"src" -> "dst";`, or `"src" -> "dst" [label = "text"];` for an
/// edge that carries a label.
pub open spec fn edge_line(src: Seq<char>, dst: Seq<char>, label: Option<Seq<char>>) -> Seq<char> {
    match label {
        Some(text) => "\""@ + src + "\" -> \""@ + dst + "\" [label = \""@ + text + "\"];\n"@,
        None => "\""@ + src + "\" -> \""@ + dst + "\";\n"@,
    }
}

/// The statement for the node `name`, indented by one tab and with its line
/// end: `"name" [ label = "text" ];`, with `, attrs` after the label where
/// attributes are given. A node without a label of its own shows its name.
pub open spec fn node_line(
    name: Seq<char>,
    label: Option<Seq<char>>,
    attrs: Option<Seq<char>>,
) -> Seq<char> {
    let shown = match label {
        Some(text) => text,
        None => name,
    };
    let head = "\t\""@ + name + "\" [ label = \""@ + shown + "\""@;
    match attrs {
        Some(list) => head + ", "@ + list + " ];\n"@,
        None => head + " ];\n"@,
    }
}

/// Appends the edge statement from `src_node` to `dest_node` to `w`.
pub fn write_edge_raw(w: &mut String, src_node: &str, dest_node: &str, edge_label: Option<&str>)
    ensures
        final(w)@ == old(w)@ + edge_line(src_node@, dest_node@, text_of(edge_label)),
{
    w.append("\"");
    w.append(src_node);
    w.append("\" -> \"");
    w.append(dest_node);
    match edge_label {
        Some(text) => {
            w.append("\" [label = \"");
            w.append(text);
            w.append("\"];\n");
        },
        None => {
            w.append("\";\n");
        },
    }
}

/// Appends the edge statement between two blocks, each named by its index
/// in decimal, to `w`.
pub fn write_edge(
    w: &mut String,
    src_node: BasicBlockIndex,
    dest_node: BasicBlockIndex,
    edge_label: Option<&str>,
)
    ensures
        final(w)@ == old(w)@ + edge_line(
            decimal(src_node as nat),
            decimal(dest_node as nat),
            text_of(edge_label),
        ),
{
    let mut src = String::new();
    push_decimal(&mut src, src_node as u64);
    let mut dest = String::new();
    push_decimal(&mut dest, dest_node as u64);
    write_edge_raw(w, src.as_str(), dest.as_str(), edge_label);
}

/// Appends the statement that declares the node `node_name` to `w`. Without
/// a `label` the node is labelled with its own name.
pub fn style_node(w: &mut String, node_name: &str, label: Option<&str>, attrs: Option<&str>)
    ensures
        final(w)@ == old(w)@ + node_line(node_name@, text_of(label), text_of(attrs)),
{
    let shown: &str = match label {
        Some(text) => text,
        None => node_name,
    };
    w.append("\t\"");
    w.append(node_name);
    w.append("\" [ label = \"");
    w.append(shown);
    w.append("\"");
    match attrs {
        Some(list) => {
            w.append(", ");
            w.append(list);
        },
        None => {},
    }
    w.append(" ];\n");
}

} // verus!
