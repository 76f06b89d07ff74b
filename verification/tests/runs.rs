use mir_cfg::graph::graph;
use mir_cfg::mir::{BasicBlock, DefId, Mir, Pack, Terminator};
use mir_cfg::run::{render, Action, Fetched, Phase, Rendering, Run};

fn function(index: u32) -> Mir {
    Mir {
        def_id: DefId { crate_hash: 77, def_idx: index },
        blocks: vec![
            BasicBlock { stmts: vec![], term: Terminator::Goto { target_bb: 1 } },
            BasicBlock { stmts: vec![format!("s{}", index)], term: Terminator::Return },
        ],
    }
}

fn record(index: u32) -> Fetched {
    Fetched::Record(Pack::Mir(function(index)))
}

fn rendering(index: u32) -> Rendering {
    Rendering {
        def_id: DefId { crate_hash: 77, def_idx: index },
        file_prefix: format!("mir-77-{}", index),
        dot: graph(&function(index)),
    }
}

#[test]
fn a_new_run_is_running() {
    assert_eq!(Run::new().phase(), Phase::Running);
}

#[test]
fn a_record_is_rendered() {
    let mut run = Run::new();
    assert_eq!(run.step(&record(3)), Action::Render(rendering(3)));
    assert_eq!(run.phase(), Phase::Running);
}

#[test]
fn render_names_the_function_and_describes_its_graph() {
    let r = render(&function(9));
    assert_eq!(r.def_id, DefId { crate_hash: 77, def_idx: 9 });
    assert_eq!(r.file_prefix, "mir-77-9");
    assert_eq!(r.dot, graph(&function(9)));
    assert!(r.dot.contains("{1 | s9 | ret}"));
}

#[test]
fn the_end_of_the_input_finishes_the_run() {
    let mut run = Run::new();
    assert_eq!(run.step(&record(0)), Action::Render(rendering(0)));
    assert_eq!(run.step(&Fetched::End), Action::Finish);
    assert_eq!(run.phase(), Phase::Finished);
}

#[test]
fn an_empty_input_finishes_at_once() {
    let mut run = Run::new();
    assert_eq!(run.step(&Fetched::End), Action::Finish);
    assert_eq!(run.phase(), Phase::Finished);
}

#[test]
fn failure_after_two_of_five_records() {
    let answers = vec![record(1), record(2), Fetched::Failed, record(4), record(5)];
    let mut run = Run::new();
    let mut rendered: Vec<Rendering> = Vec::new();
    let mut aborted = false;
    for answer in answers.iter() {
        match run.step(answer) {
            Action::Render(r) => rendered.push(r),
            Action::Finish => panic!("the run cannot finish: the decoder failed"),
            Action::Abort => aborted = true,
        }
    }
    assert!(aborted);
    assert_eq!(run.phase(), Phase::Failed);
    assert_eq!(rendered, vec![rendering(1), rendering(2)]);
}

#[test]
fn a_failed_run_stays_failed() {
    let mut run = Run::new();
    assert_eq!(run.step(&Fetched::Failed), Action::Abort);
    assert_eq!(run.step(&record(1)), Action::Abort);
    assert_eq!(run.step(&Fetched::End), Action::Abort);
    assert_eq!(run.step(&Fetched::Failed), Action::Abort);
    assert_eq!(run.phase(), Phase::Failed);
}

#[test]
fn a_finished_run_stays_finished() {
    let mut run = Run::new();
    assert_eq!(run.step(&Fetched::End), Action::Finish);
    assert_eq!(run.step(&record(1)), Action::Finish);
    assert_eq!(run.step(&Fetched::Failed), Action::Finish);
    assert_eq!(run.step(&Fetched::End), Action::Finish);
    assert_eq!(run.phase(), Phase::Finished);
}

#[test]
fn a_failure_at_the_first_record_renders_nothing() {
    let answers = vec![Fetched::Failed, record(1)];
    let mut run = Run::new();
    for answer in answers.iter() {
        assert_eq!(run.step(answer), Action::Abort);
    }
}

#[test]
fn records_are_rendered_in_the_order_in_which_they_come() {
    let mut run = Run::new();
    for index in [4u32, 2, 9, 2].iter() {
        assert_eq!(run.step(&record(*index)), Action::Render(rendering(*index)));
        assert_eq!(run.phase(), Phase::Running);
    }
    assert_eq!(run.step(&Fetched::End), Action::Finish);
}
