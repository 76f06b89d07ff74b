use mir_cfg::graph::{get_statements_text, write_edges};
use mir_cfg::mir::{BasicBlock, CallOperand, DefId, Mir, Terminator};
use mir_cfg::registry::Context;

const BOX: &str = "shape = record, style=filled, fillcolor=beige";

fn bare(term: Terminator) -> BasicBlock {
    BasicBlock { stmts: vec![], term }
}

fn no_body() -> Mir {
    Mir { def_id: DefId { crate_hash: 0, def_idx: 0 }, blocks: vec![] }
}

fn emit(cx: &mut Context, src_bb: u32, block: &BasicBlock) -> String {
    let mut out = String::new();
    write_edges(&no_body(), cx, src_bb, block, &mut out);
    out
}

fn emit_fresh(src_bb: u32, term: Terminator) -> String {
    emit(&mut Context::new(), src_bb, &bare(term))
}

fn node(index: u32, kind: &str) -> String {
    format!("\t\"{}\" [ label = \"{{{} |  | {}}}\", {} ];\n", index, index, kind, BOX)
}

#[test]
fn goto_block_text() {
    let expected = String::from("\"0\" -> \"1\";\n")
        + "\t\"0\" [ label = \"{0 |  | goto}\", shape = record, style=filled, fillcolor=beige ];\n";
    assert_eq!(emit_fresh(0, Terminator::Goto { target_bb: 1 }), expected);
}

#[test]
fn false_edges_block_text() {
    let expected = String::from("\"2\" -> \"7\";\n") + &node(2, "false edge");
    assert_eq!(emit_fresh(2, Terminator::FalseEdges { real_target_bb: 7 }), expected);
}

#[test]
fn false_unwind_block_text() {
    let expected = String::from("\"2\" -> \"7\";\n") + &node(2, "false unwind");
    assert_eq!(emit_fresh(2, Terminator::FalseUnwind { real_target_bb: 7 }), expected);
}

#[test]
fn switch_int_block_text_has_one_line_per_target() {
    let expected = String::from("\"1\" -> \"2\";\n\"1\" -> \"2\";\n\"1\" -> \"3\";\n")
        + &node(1, "switch_int");
    let out = emit_fresh(1, Terminator::SwitchInt { target_bbs: vec![2, 2, 3] });
    assert_eq!(out, expected);
    assert_eq!(out.matches(" -> ").count(), 3);
    assert_eq!(out.matches("[label").count(), 0);
}

#[test]
fn switch_int_without_targets_writes_only_the_node() {
    assert_eq!(emit_fresh(1, Terminator::SwitchInt { target_bbs: vec![] }), node(1, "switch_int"));
}

#[test]
fn switch_int_with_one_target_block_text() {
    let expected = String::from("\"1\" -> \"0\";\n") + &node(1, "switch_int");
    assert_eq!(emit_fresh(1, Terminator::SwitchInt { target_bbs: vec![0] }), expected);
}

#[test]
fn resume_block_text() {
    let expected = String::from("\t\"resume(0)\" [ label = \"resume(0)\", shape=point, color=blue ];\n")
        + "\"2\" -> \"resume(0)\";\n"
        + &node(2, "resume");
    assert_eq!(emit_fresh(2, Terminator::Resume), expected);
}

#[test]
fn abort_block_text() {
    let expected = String::from("\t\"abort(0)\" [ label = \"abort(0)\", shape=point, color=red ];\n")
        + "\"2\" -> \"abort(0)\";\n"
        + &node(2, "abort");
    assert_eq!(emit_fresh(2, Terminator::Abort), expected);
}

#[test]
fn return_block_text() {
    let expected = String::from("\t\"ret(0)\" [ label = \"ret(0)\", shape=point ];\n")
        + "\"2\" -> \"ret(0)\";\n"
        + &node(2, "ret");
    assert_eq!(emit_fresh(2, Terminator::Return), expected);
}

#[test]
fn unreachable_block_text() {
    let expected = String::from("\t\"unreachable(0)\" [ label = \"unreachable(0)\" ];\n")
        + "\"2\" -> \"unreachable(0)\";\n"
        + &node(2, "unreachable");
    assert_eq!(emit_fresh(2, Terminator::Unreachable), expected);
}

#[test]
fn generator_drop_block_text() {
    let expected = String::from("\t\"gen drop(0)\" [ label = \"gen drop(0)\" ];\n")
        + "\"2\" -> \"gen drop(0)\";\n"
        + &node(2, "gen drop");
    assert_eq!(emit_fresh(2, Terminator::GeneratorDrop), expected);
}

#[test]
fn drop_block_text() {
    let with = String::from("\"1\" -> \"2\";\n\"1\" -> \"3\" [label = \"unwind\"];\n") + &node(1, "drop");
    assert_eq!(emit_fresh(1, Terminator::Drop { target_bb: 2, unwind_bb: Some(3) }), with);
    let without = String::from("\"1\" -> \"2\";\n") + &node(1, "drop");
    assert_eq!(emit_fresh(1, Terminator::Drop { target_bb: 2, unwind_bb: None }), without);
}

#[test]
fn drop_and_replace_block_text() {
    let with = String::from("\"1\" -> \"2\";\n\"1\" -> \"3\" [label = \"unwind\"];\n")
        + &node(1, "drop+replace");
    assert_eq!(emit_fresh(1, Terminator::DropAndReplace { target_bb: 2, unwind_bb: Some(3) }), with);
    let without = String::from("\"1\" -> \"2\";\n") + &node(1, "drop+replace");
    assert_eq!(emit_fresh(1, Terminator::DropAndReplace { target_bb: 2, unwind_bb: None }), without);
}

#[test]
fn assert_block_text() {
    let with = String::from("\"1\" -> \"2\";\n\"1\" -> \"3\" [label = \"unwind\"];\n") + &node(1, "assert");
    assert_eq!(emit_fresh(1, Terminator::Assert { target_bb: 2, cleanup_bb: Some(3) }), with);
    let without = String::from("\"1\" -> \"2\";\n") + &node(1, "assert");
    assert_eq!(emit_fresh(1, Terminator::Assert { target_bb: 2, cleanup_bb: None }), without);
}

#[test]
fn yield_block_text() {
    let with = String::from("\"1\" -> \"2\";\n\"1\" -> \"3\" [label = \"drop\"];\n") + &node(1, "yield");
    assert_eq!(emit_fresh(1, Terminator::Yield { resume_bb: 2, drop_bb: Some(3) }), with);
    let without = String::from("\"1\" -> \"2\";\n") + &node(1, "yield");
    assert_eq!(emit_fresh(1, Terminator::Yield { resume_bb: 2, drop_bb: None }), without);
}

#[test]
fn unset_secondary_target_writes_a_single_edge() {
    let cases = [
        Terminator::Assert { target_bb: 9, cleanup_bb: None },
        Terminator::Drop { target_bb: 9, unwind_bb: None },
        Terminator::DropAndReplace { target_bb: 9, unwind_bb: None },
        Terminator::Yield { resume_bb: 9, drop_bb: None },
    ];
    for term in cases.iter() {
        let out = emit_fresh(0, term.clone());
        assert_eq!(out.matches(" -> ").count(), 1);
        assert!(out.starts_with("\"0\" -> \"9\";\n"));
    }
}

#[test]
fn call_block_text_with_cleanup_and_return() {
    let term = Terminator::Call {
        operand: CallOperand::Fn(DefId { crate_hash: 11, def_idx: 22 }),
        cleanup_bb: Some(4),
        ret_bb: Some(5),
    };
    let expected = String::from(
        "\t\"11-22(0)\" [ label = \"11-22(0)\", fillcolor = lightblue1, style = filled ];\n",
    ) + "\"3\" -> \"11-22(0)\";\n"
        + "\"3\" -> \"4\" [label = \"cleanup\"];\n"
        + "\"11-22(0)\" -> \"5\";\n"
        + &node(3, "call");
    let out = emit_fresh(3, term);
    assert_eq!(out, expected);
    assert_eq!(out.matches(" -> ").count(), 3);
}

#[test]
fn call_block_text_without_cleanup() {
    let term = Terminator::Call {
        operand: CallOperand::Fn(DefId { crate_hash: 11, def_idx: 22 }),
        cleanup_bb: None,
        ret_bb: Some(5),
    };
    let expected = String::from(
        "\t\"11-22(0)\" [ label = \"11-22(0)\", fillcolor = lightblue1, style = filled ];\n",
    ) + "\"3\" -> \"11-22(0)\";\n"
        + "\"11-22(0)\" -> \"5\";\n"
        + &node(3, "call");
    assert_eq!(emit_fresh(3, term), expected);
}

#[test]
fn call_block_text_without_return() {
    let term = Terminator::Call {
        operand: CallOperand::Fn(DefId { crate_hash: 11, def_idx: 22 }),
        cleanup_bb: Some(4),
        ret_bb: None,
    };
    let expected = String::from(
        "\t\"11-22(0)\" [ label = \"11-22(0)\", fillcolor = lightblue1, style = filled ];\n",
    ) + "\"3\" -> \"11-22(0)\";\n"
        + "\"3\" -> \"4\" [label = \"cleanup\"];\n"
        + &node(3, "call");
    assert_eq!(emit_fresh(3, term), expected);
}

#[test]
fn call_of_unknown_callee_block_text() {
    let term = Terminator::Call { operand: CallOperand::Unknown, cleanup_bb: None, ret_bb: None };
    let expected = String::from(
        "\t\"???(0)\" [ label = \"???(0)\", fillcolor = lightblue1, style = filled ];\n",
    ) + "\"3\" -> \"???(0)\";\n"
        + &node(3, "call");
    assert_eq!(emit_fresh(3, term), expected);
}

#[test]
fn each_sink_is_a_node_of_its_own() {
    let mut cx = Context::new();
    let first = emit(&mut cx, 0, &bare(Terminator::Return));
    let second = emit(&mut cx, 1, &bare(Terminator::Return));
    let third = emit(&mut cx, 2, &bare(Terminator::Abort));
    let fourth = emit(&mut cx, 3, &bare(Terminator::Return));
    assert!(first.contains("\"0\" -> \"ret(0)\";\n"));
    assert!(second.contains("\"1\" -> \"ret(1)\";\n"));
    assert!(third.contains("\"2\" -> \"abort(0)\";\n"));
    assert!(fourth.contains("\"3\" -> \"ret(2)\";\n"));
}

#[test]
fn blocks_without_a_sink_leave_the_registry_alone() {
    let mut cx = Context::new();
    emit(&mut cx, 0, &bare(Terminator::Goto { target_bb: 1 }));
    emit(&mut cx, 1, &bare(Terminator::SwitchInt { target_bbs: vec![0, 1] }));
    emit(&mut cx, 2, &bare(Terminator::Drop { target_bb: 1, unwind_bb: Some(0) }));
    assert_eq!(cx.external_node_label(String::from("ret")), "ret(0)");
}

#[test]
fn write_edges_appends_to_what_is_there() {
    let mut out = String::from("before\n");
    let mut cx = Context::new();
    write_edges(&no_body(), &mut cx, 0, &bare(Terminator::Goto { target_bb: 0 }), &mut out);
    assert_eq!(out, String::from("before\n\"0\" -> \"0\";\n") + &node(0, "goto"));
}

#[test]
fn targets_outside_the_body_are_written_as_they_stand() {
    let out = emit_fresh(0, Terminator::Goto { target_bb: 4_000_000_000 });
    assert!(out.starts_with("\"0\" -> \"4000000000\";\n"));
}

#[test]
fn statements_are_joined_by_the_line_break_token() {
    let none = BasicBlock { stmts: vec![], term: Terminator::Return };
    assert_eq!(get_statements_text(&none), "");
    let one = BasicBlock { stmts: vec![String::from("Nop")], term: Terminator::Return };
    assert_eq!(get_statements_text(&one), "Nop");
    let three = BasicBlock {
        stmts: vec![String::from("Nop"), String::from("Assign"), String::from("Nop")],
        term: Terminator::Return,
    };
    assert_eq!(get_statements_text(&three), "Nop\\nAssign\\nNop");
    let with_empty = BasicBlock {
        stmts: vec![String::new(), String::from("a"), String::new()],
        term: Terminator::Return,
    };
    assert_eq!(get_statements_text(&with_empty), "\\na\\n");
}

#[test]
fn block_node_shows_index_statements_and_terminator() {
    let block = BasicBlock {
        stmts: vec![String::from("Nop"), String::from("Assign")],
        term: Terminator::Goto { target_bb: 13 },
    };
    let out = emit(&mut Context::new(), 12, &block);
    let expected = String::from("\"12\" -> \"13\";\n")
        + "\t\"12\" [ label = \"{12 | Nop\\nAssign | goto}\", shape = record, style=filled, fillcolor=beige ];\n";
    assert_eq!(out, expected);
}
