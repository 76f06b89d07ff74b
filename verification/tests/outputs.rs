use mir_cfg::mir::DefId;
use mir_cfg::output::{description_path, graph_file_prefix, renderer_arguments, OUTPUT_DIR, RENDERER};

#[test]
fn file_names_start_with_the_function_id() {
    assert_eq!(graph_file_prefix(&DefId { crate_hash: 1, def_idx: 2 }), "mir-1-2");
    assert_eq!(graph_file_prefix(&DefId { crate_hash: 0, def_idx: 0 }), "mir-0-0");
    assert_eq!(
        graph_file_prefix(&DefId { crate_hash: 12345678901234567890, def_idx: 4000000000 }),
        "mir-12345678901234567890-4000000000"
    );
}

#[test]
fn different_functions_get_different_names() {
    let a = graph_file_prefix(&DefId { crate_hash: 1, def_idx: 23 });
    let b = graph_file_prefix(&DefId { crate_hash: 12, def_idx: 3 });
    assert_eq!(a, "mir-1-23");
    assert_eq!(b, "mir-12-3");
    assert_ne!(a, b);
}

#[test]
fn renderer_is_asked_for_a_png_beside_the_description() {
    assert_eq!(
        renderer_arguments("mirs/mir-1-2"),
        vec![String::from("-Tpng"), String::from("-omirs/mir-1-2.png"), String::from("mirs/mir-1-2")]
    );
    assert_eq!(renderer_arguments(""), vec![String::from("-Tpng"), String::from("-o.png"), String::new()]);
}

#[test]
fn description_is_kept_as_text() {
    assert_eq!(description_path("mirs/mir-1-2"), "mirs/mir-1-2.dot.txt");
    assert_eq!(description_path(""), ".dot.txt");
}

#[test]
fn where_the_files_go_and_who_draws_them() {
    assert_eq!(OUTPUT_DIR, "mirs");
    assert_eq!(RENDERER, "dot");
}
