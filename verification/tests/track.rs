use include_tt::eq::same_tokens;
use include_tt::node::SyntaxNode;
use include_tt::null::{make_null_group, make_null_ttree};
use include_tt::result::throw_sg_err;
use include_tt::stream::parse_nodes;
use include_tt::text::push_decimal;
use include_tt::track::{make_declaration, PointTrack};
use proc_macro2::{Delimiter, Span};

#[test]
fn decimal_digits_are_written_without_leading_zeros() {
    for n in [0usize, 1, 9, 10, 11, 99, 100, 101, 12345, 1000000, usize::MAX] {
        let mut out = String::from("n=");
        push_decimal(&mut out, n);
        assert_eq!(out, format!("n={n}"));
    }
}

#[test]
fn declaration_names_the_file_under_its_number() {
    let d = make_declaration(7, "examples/full.tt", Span::call_site());
    let expected = parse_nodes(
        "const _TRACKER_FILE_NUM_7: & 'static [u8] = include_bytes!(\"../examples/full.tt\") as &[_];",
    )
    .unwrap();
    assert!(same_tokens(&d, &expected));
    assert_eq!(d.len(), 15);

    let d = make_declaration(120, "a\"b\\c", Span::call_site());
    let expected = parse_nodes(
        "const _TRACKER_FILE_NUM_120: & 'static [u8] = include_bytes!(\"../a\\\"b\\\\c\") as &[_];",
    )
    .unwrap();
    assert!(same_tokens(&d, &expected));
}

#[test]
fn declarations_of_different_numbers_have_different_names() {
    let name = |n: usize| match &make_declaration(n, "f", Span::call_site())[1] {
        SyntaxNode::Ident { text, .. } => text.clone(),
        other => panic!("{other:?}"),
    };
    let numbers = [0usize, 1, 2, 9, 10, 11, 19, 90, 99, 100, 101, 110, 1000, 1001];
    for a in numbers {
        for b in numbers {
            assert_eq!(name(a) == name(b), a == b);
        }
    }
    assert_eq!(name(0), "_TRACKER_FILE_NUM_0");
    assert_eq!(name(1001), "_TRACKER_FILE_NUM_1001");
}

#[test]
fn tracker_collects_declarations_in_order() {
    let span = Span::call_site();
    let mut t = PointTrack::new(3, span);
    assert!(!t.is_rewritten());
    assert_eq!(t.slot, 3);
    let _ = t.data_span();
    t.append_track_file(0, "a");
    assert!(t.is_rewritten());
    t.append_track_file(1, "b");
    t.append_track_files_ts(parse_nodes("x y").unwrap());
    match t.into_token_tree2() {
        SyntaxNode::Group(g) => {
            assert!(matches!(g.delimiter, Delimiter::None));
            let expected = parse_nodes(
                "const _TRACKER_FILE_NUM_0: & 'static [u8] = include_bytes!(\"../a\") as &[_]; \
                 const _TRACKER_FILE_NUM_1: & 'static [u8] = include_bytes!(\"../b\") as &[_]; x y",
            )
            .unwrap();
            assert!(same_tokens(&g.children, &expected));
        },
        other => panic!("{other:?}"),
    }
    match PointTrack::new(0, span).into_token_tree2() {
        SyntaxNode::Group(g) => {
            assert!(matches!(g.delimiter, Delimiter::None));
            assert!(g.children.is_empty());
        },
        other => panic!("{other:?}"),
    }
}

#[test]
fn null_nodes_are_empty_groups_without_delimiters() {
    for node in [make_null_ttree(), make_null_group(Span::call_site())] {
        match node {
            SyntaxNode::Group(g) => {
                assert!(matches!(g.delimiter, Delimiter::None));
                assert!(g.children.is_empty());
            },
            other => panic!("{other:?}"),
        }
    }
    assert!(make_null_ttree() == make_null_group(Span::call_site()));
}

#[test]
fn diagnostic_is_a_call_of_compile_error() {
    let d = throw_sg_err(Span::call_site(), "a \"quoted\" message");
    assert_eq!(d.message, "a \"quoted\" message");
    let nodes = d.into_nodes();
    let expected = parse_nodes("compile_error!(\"a \\\"quoted\\\" message\");").unwrap();
    assert!(same_tokens(&nodes, &expected));
    assert_eq!(nodes.len(), 4);
}
