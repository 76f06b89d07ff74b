//! The decoded form of a function: blocks, statements and terminators.
//!
//! Nothing here is interpreted. Statements arrive as the one-line text that
//! will be shown for them; terminators name the blocks they may continue in
//! by position in the owning function body.

use vstd::prelude::*;

verus! {

/// The position of a block inside its function body.
pub type BasicBlockIndex = u32;

/// Identifies a function: the hash of its crate and its index inside it.
#[derive(Clone, Copy, Debug, PartialEq, Eq, Structural)]
pub struct DefId {
    pub crate_hash: u64,
    pub def_idx: u32,
}

/// What a call terminator calls.
#[derive(Clone, Copy, Debug, PartialEq, Eq, Structural)]
pub enum CallOperand {
    /// A function that was resolved when the body was built.
    Fn(DefId),
    /// Anything else: the callee is not known statically.
    Unknown,
}

/// The instruction that ends a block and says where control continues.
#[derive(Clone, Debug, PartialEq, Eq)]
pub enum Terminator {
    Goto { target_bb: BasicBlockIndex },
    SwitchInt { target_bbs: Vec<BasicBlockIndex> },
    Resume,
    Abort,
    Return,
    Unreachable,
    Drop { target_bb: BasicBlockIndex, unwind_bb: Option<BasicBlockIndex> },
    DropAndReplace { target_bb: BasicBlockIndex, unwind_bb: Option<BasicBlockIndex> },
    Call {
        operand: CallOperand,
        cleanup_bb: Option<BasicBlockIndex>,
        ret_bb: Option<BasicBlockIndex>,
    },
    Assert { target_bb: BasicBlockIndex, cleanup_bb: Option<BasicBlockIndex> },
    Yield { resume_bb: BasicBlockIndex, drop_bb: Option<BasicBlockIndex> },
    GeneratorDrop,
    FalseEdges { real_target_bb: BasicBlockIndex },
    FalseUnwind { real_target_bb: BasicBlockIndex },
}

/// A terminator as a mathematical value.
pub enum TerminatorView {
    Goto { target_bb: BasicBlockIndex },
    SwitchInt { target_bbs: Seq<BasicBlockIndex> },
    Resume,
    Abort,
    Return,
    Unreachable,
    Drop { target_bb: BasicBlockIndex, unwind_bb: Option<BasicBlockIndex> },
    DropAndReplace { target_bb: BasicBlockIndex, unwind_bb: Option<BasicBlockIndex> },
    Call {
        operand: CallOperand,
        cleanup_bb: Option<BasicBlockIndex>,
        ret_bb: Option<BasicBlockIndex>,
    },
    Assert { target_bb: BasicBlockIndex, cleanup_bb: Option<BasicBlockIndex> },
    Yield { resume_bb: BasicBlockIndex, drop_bb: Option<BasicBlockIndex> },
    GeneratorDrop,
    FalseEdges { real_target_bb: BasicBlockIndex },
    FalseUnwind { real_target_bb: BasicBlockIndex },
}

impl View for Terminator {
    type V = TerminatorView;

    open spec fn view(&self) -> TerminatorView {
        match *self {
            Terminator::Goto { target_bb } => TerminatorView::Goto { target_bb },
            Terminator::SwitchInt { target_bbs } => TerminatorView::SwitchInt {
                target_bbs: target_bbs@,
            },
            Terminator::Resume => TerminatorView::Resume,
            Terminator::Abort => TerminatorView::Abort,
            Terminator::Return => TerminatorView::Return,
            Terminator::Unreachable => TerminatorView::Unreachable,
            Terminator::Drop { target_bb, unwind_bb } => TerminatorView::Drop {
                target_bb,
                unwind_bb,
            },
            Terminator::DropAndReplace { target_bb, unwind_bb } => TerminatorView::DropAndReplace {
                target_bb,
                unwind_bb,
            },
            Terminator::Call { operand, cleanup_bb, ret_bb } => TerminatorView::Call {
                operand,
                cleanup_bb,
                ret_bb,
            },
            Terminator::Assert { target_bb, cleanup_bb } => TerminatorView::Assert {
                target_bb,
                cleanup_bb,
            },
            Terminator::Yield { resume_bb, drop_bb } => TerminatorView::Yield {
                resume_bb,
                drop_bb,
            },
            Terminator::GeneratorDrop => TerminatorView::GeneratorDrop,
            Terminator::FalseEdges { real_target_bb } => TerminatorView::FalseEdges {
                real_target_bb,
            },
            Terminator::FalseUnwind { real_target_bb } => TerminatorView::FalseUnwind {
                real_target_bb,
            },
        }
    }
}

/// A straight-line run of statements closed by one terminator.
#[derive(Clone, Debug, PartialEq, Eq)]
pub struct BasicBlock {
    /// One entry per statement: the single line of text shown for it.
    pub stmts: Vec<String>,
    pub term: Terminator,
}

/// A block as a mathematical value.
pub struct BasicBlockView {
    pub stmts: Seq<Seq<char>>,
    pub term: TerminatorView,
}

impl View for BasicBlock {
    type V = BasicBlockView;

    open spec fn view(&self) -> BasicBlockView {
        BasicBlockView { stmts: self.stmts@.map_values(|s: String| s@), term: self.term@ }
    }
}

/// The body of one function. A block's index is its position in `blocks`;
/// block 0 is where the function is entered.
#[derive(Clone, Debug, PartialEq, Eq)]
pub struct Mir {
    pub def_id: DefId,
    pub blocks: Vec<BasicBlock>,
}

/// A function body as a mathematical value.
pub struct MirView {
    pub def_id: DefId,
    pub blocks: Seq<BasicBlockView>,
}

impl MirView {
    /// Every position in `blocks` can be written as a `BasicBlockIndex`.
    pub open spec fn indexable(self) -> bool {
        self.blocks.len() <= BasicBlockIndex::MAX + 1
    }
}

impl View for Mir {
    type V = MirView;

    open spec fn view(&self) -> MirView {
        MirView { def_id: self.def_id, blocks: self.blocks@.map_values(|b: BasicBlock| b@) }
    }
}

/// One record of the decoded input.
#[derive(Clone, Debug, PartialEq, Eq)]
pub enum Pack {
    Mir(Mir),
}

} // verus!
