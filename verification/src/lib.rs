//! Control-flow graphs of MIR function bodies, written out as DOT text.
//!
//! A function body is a sequence of basic blocks, each closed by one
//! terminator. The terminator alone decides which edges leave the block;
//! the rest of this crate turns those edges, the block itself and a few
//! synthetic sink nodes into the lines of a `digraph`.

pub mod artifact;
pub mod decimal;
pub mod dot;
pub mod edges;
pub mod graph;
pub mod mir;
pub mod output;
pub mod registry;
pub mod run;
