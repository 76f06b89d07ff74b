//! What is kept of a rendered function, and under which names.
//!
//! The description of a function's graph is written to a file of its own,
//! handed to the renderer, which draws the image beside it, and then kept
//! under a name that says what it is.

use vstd::prelude::*;
use crate::edges::{def_id_node_prefix, def_id_prefix, lemma_def_id_prefix_injective};
use crate::mir::DefId;

verus! {

/// The directory that the files of a run are written to.
pub const OUTPUT_DIR: &'static str = "mirs";

/// The program that draws a graph from its description.
pub const RENDERER: &'static str = "dot";

/// The name that the files of the function `d` start with, and the name
/// under which its description is first written.
pub open spec fn file_prefix(d: DefId) -> Seq<char> {
    "mir-"@ + def_id_prefix(d)
}

/// Where the image of the graph described in `graph_path` goes.
pub open spec fn image_path_of(graph_path: Seq<char>) -> Seq<char> {
    graph_path + ".png"@
}

/// Where the description in `graph_path` is kept once the image is drawn.
pub open spec fn description_path_of(graph_path: Seq<char>) -> Seq<char> {
    graph_path + ".dot.txt"@
}

/// The renderer's arguments for the description in `graph_path`: the image
/// format, the image's path as one argument with `-o`, and the description.
pub open spec fn renderer_arguments_of(graph_path: Seq<char>) -> Seq<Seq<char>> {
    seq!["-Tpng"@, "-o"@ + image_path_of(graph_path), graph_path]
}

/// The files of two functions start with the same name only if the two are
/// the same function.
pub proof fn lemma_file_prefix_injective(a: DefId, b: DefId)
    requires
        file_prefix(a) == file_prefix(b),
    ensures
        a == b,
{
    let head = "mir-"@.len() as int;
    let name = file_prefix(a);
    assert(def_id_prefix(a) =~= name.subrange(head, name.len() as int));
    assert(def_id_prefix(b) =~= name.subrange(head, name.len() as int));
    lemma_def_id_prefix_injective(a, b);
}

/// The name that the files of the function `d` start with: `mir-`, then
/// the function's crate hash and its index in decimal, a hyphen between
/// them.
pub fn graph_file_prefix(d: &DefId) -> (name: String)
    ensures
        name@ == file_prefix(*d),
{
    let mut name = String::from_str("mir-");
    name.append(def_id_node_prefix(d).as_str());
    name
}

/// The renderer's arguments for the description in `graph_path`.
pub fn renderer_arguments(graph_path: &str) -> (args: Vec<String>)
    ensures
        args@.map_values(|a: String| a@) == renderer_arguments_of(graph_path@),
{
    let mut output = String::from_str("-o");
    output.append(graph_path);
    output.append(".png");
    let mut args: Vec<String> = Vec::new();
    args.push(String::from_str("-Tpng"));
    args.push(output);
    args.push(String::from_str(graph_path));
    proof {
        let texts = args@.map_values(|a: String| a@);
        assert(texts[1] =~= "-o"@ + image_path_of(graph_path@));
        assert(texts =~= renderer_arguments_of(graph_path@));
    }
    args
}

/// Where the description in `graph_path` is kept once the image is drawn.
pub fn description_path(graph_path: &str) -> (path: String)
    ensures
        path@ == description_path_of(graph_path@),
{
    let mut path = String::from_str(graph_path);
    path.append(".dot.txt");
    path
}

} // verus!
