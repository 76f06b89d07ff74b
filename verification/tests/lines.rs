use mir_cfg::dot::{style_node, write_edge, write_edge_raw};

#[test]
fn unlabelled_edge_line() {
    let mut w = String::new();
    write_edge_raw(&mut w, "a", "b", None);
    assert_eq!(w, "\"a\" -> \"b\";\n");
}

#[test]
fn labelled_edge_line() {
    let mut w = String::new();
    write_edge_raw(&mut w, "a", "b", Some("why"));
    assert_eq!(w, "\"a\" -> \"b\" [label = \"why\"];\n");
}

#[test]
fn edge_between_blocks_uses_decimal_indices() {
    let mut w = String::from("x");
    write_edge(&mut w, 0, 4294967295, None);
    assert_eq!(w, "x\"0\" -> \"4294967295\";\n");
}

#[test]
fn node_without_label_shows_its_name() {
    let mut w = String::new();
    style_node(&mut w, "ret(0)", None, None);
    assert_eq!(w, "\t\"ret(0)\" [ label = \"ret(0)\" ];\n");
}

#[test]
fn node_with_label_and_attributes() {
    let mut w = String::new();
    style_node(&mut w, "__entry", Some(""), Some("shape=point"));
    assert_eq!(w, "\t\"__entry\" [ label = \"\", shape=point ];\n");
}
