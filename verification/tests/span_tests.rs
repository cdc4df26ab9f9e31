use svtree::any_node::Node;
use svtree::span::Locate;

#[test]
fn attached_span_slices_the_source() {
    let src: Vec<char> = "logic signed [7:0]".chars().collect();
    let l = Locate { offset: 6, line: 1, len: 6, val: None };
    let text: String = l.str(&src).iter().collect();
    assert_eq!(text, "signed");
}

#[test]
fn detached_text_substitutes_for_the_slice() {
    let src: Vec<char> = "whatever".chars().collect();
    let detached: Vec<char> = "signed".chars().collect();
    let l = Locate { offset: 0, line: 1, len: 6, val: Some(detached) };
    let text: String = l.str(&src).iter().collect();
    assert_eq!(text, "signed");
}

#[test]
fn span_leaf_reports_no_children() {
    let l = Locate { offset: 0, line: 1, len: 0, val: None };
    assert_eq!(l.next().len(), 0);
}
