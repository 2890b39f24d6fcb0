use include_tt::group::{check_correct_endgroup, group_stringify, group_stringify_with_fns};
use include_tt::node::{Group, SyntaxNode};
use include_tt::stream::parse_nodes;
use proc_macro2::{Delimiter, Span};

fn group_of(source: &str) -> Group {
    let mut nodes = parse_nodes(source).unwrap();
    assert_eq!(nodes.len(), 1);
    match nodes.pop().unwrap() {
        SyntaxNode::Group(g) => g,
        other => panic!("no group: {other:?}"),
    }
}

#[test]
fn empty_group_has_no_content() {
    assert_eq!(group_stringify(&group_of("[]")).unwrap(), None);
    assert_eq!(group_stringify(&group_of("()")).unwrap(), None);
    // A group whose tokens spell the empty text has content: the empty path.
    assert_eq!(group_stringify(&group_of("[\"\"]")).unwrap(), Some(String::new()));
    assert_eq!(group_stringify(&group_of("[[]]")).unwrap(), Some(String::new()));
}

#[test]
fn composite_path_is_spelled_by_its_tokens() {
    let g = group_of("['e' xamples '/' \"full\" '.' \"tt\"]");
    assert_eq!(group_stringify(&g).unwrap().unwrap(), "examples/full.tt");
    let g = group_of("[examples / full . tt]");
    assert_eq!(group_stringify(&g).unwrap().unwrap(), "examples/full.tt");
    let g = group_of("[. . / [\"a\" (b) {'c'}] \"d\\\\e\"]");
    assert_eq!(group_stringify(&g).unwrap().unwrap(), "../abcd\\\\e");
}

#[test]
fn literal_that_is_no_path_stops_the_spelling() {
    let g = group_of("[a 12 \"b\" '\\n']");
    let d = group_stringify(&g).unwrap_err();
    assert_eq!(d.message, "Literal, Double quotes were expected.");
    let g = group_of("[a \"b\" '\\n' 12]");
    let d = group_stringify(&g).unwrap_err();
    assert_eq!(d.message, "Literal, More char expected, current: 4, exp: 3.");
    let g = group_of("[a [b [1]]]");
    let d = group_stringify(&g).unwrap_err();
    assert_eq!(d.message, "Literal, More char expected, current: 1, exp: 2.");
}

#[test]
fn group_stringify_with_fns_calls_the_matching_continuation() {
    let r = group_stringify_with_fns(&group_of("[a / b]"), |s| s, || "empty".to_string(), |d| d.message);
    assert_eq!(r, "a/b");
    let r = group_stringify_with_fns(&group_of("[]"), |s| s, || "empty".to_string(), |d| d.message);
    assert_eq!(r, "empty");
    let r = group_stringify_with_fns(&group_of("[7]"), |s| s, || "empty".to_string(), |d| d.message);
    assert_eq!(r, "Literal, More char expected, current: 1, exp: 2.");
}

#[test]
fn endgroup_is_checked_after_parentheses() {
    let nodes = parse_nodes("(a) ; {b} , [c] x").unwrap();
    let group = |i: usize| match &nodes[i] {
        SyntaxNode::Group(g) => g,
        other => panic!("no group: {other:?}"),
    };
    let end = vec![';', ','];
    assert_eq!(check_correct_endgroup(group(0), &nodes, 1, &end).unwrap(), Some(1));
    assert_eq!(check_correct_endgroup(group(0), &nodes, 3, &end).unwrap(), Some(3));
    assert_eq!(check_correct_endgroup(group(2), &nodes, 3, &end).unwrap(), None);
    assert_eq!(check_correct_endgroup(group(2), &nodes, 100, &end).unwrap(), None);

    let d = check_correct_endgroup(group(0), &nodes, 1, &vec![',', '.', '!']).unwrap_err();
    assert_eq!(d.message, "`,`, `.`, `!` was expected.");
    let d = check_correct_endgroup(group(0), &nodes, 5, &end).unwrap_err();
    assert_eq!(d.message, "`;`, `,` was expected.");
    let d = check_correct_endgroup(group(0), &nodes, 6, &vec![';']).unwrap_err();
    assert_eq!(d.message, "`;` was expected.");
    let d = check_correct_endgroup(group(0), &nodes, 1, &vec![]).unwrap_err();
    assert_eq!(d.message, " was expected.");
    let d = check_correct_endgroup(group(4), &nodes, 5, &end).unwrap_err();
    assert_eq!(d.message, "Unsupported group type.");
    let bare = Group { delimiter: Delimiter::None, children: Vec::new(), span: Span::call_site() };
    let d = check_correct_endgroup(&bare, &nodes, 1, &end).unwrap_err();
    assert_eq!(d.message, "Unsupported group type.");
}
