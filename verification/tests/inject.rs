use include_tt::eq::same_tokens;
use include_tt::loader::{load, IncludeKind, LoadFileAndAutoMakeTreeErr, Loaded, Request};
use include_tt::node::{Group, SyntaxNode};
use include_tt::rules::{
    macro_rule_include, BehMacroArg0, BehMacroInclude, IncludeArr, IncludeStr, IncludeTT,
    IncludeTTAndFixUnkStartToken, Included, CONTENT_MISMATCH, PATH_EXPECTED, STRAY_ARGUMENT,
};
use include_tt::search::{
    find_macro_name, search_include_and_replacegroup, MacroName, SearchGroup, Walk,
    COLON_EXPECTED, GROUP_EXPECTED, SEMICOLON_EXPECTED, UNKNOWN_MACRO,
};
use include_tt::stream::parse_nodes;
use include_tt::{inject, Injected};
use include_tt::literal::ExprLitTryNewErr;
use proc_macro2::{Delimiter, Span};

/// The files of the tests, by path.
const FILES: [(&str, &[u8]); 6] = [
    ("./tests/empty.tt", b""),
    ("./tests/expr_lit.tt", b"\"123\\\"test\""),
    ("./tests/invalid_token.tt", b"\\ b = 30; \\"),
    ("./examples/full.tt", b"a, b"),
    ("examples/full.tt", b"a, b"),
    ("./bin", &[0, 159, 146, 150, b'"', b'\\']),
];

fn read(request: &Request, reads: &mut Vec<String>) -> Result<Vec<u8>, LoadFileAndAutoMakeTreeErr> {
    reads.push(request.path.clone());
    match FILES.iter().find(|(path, _)| *path == request.path) {
        Some((_, bytes)) => Ok(bytes.to_vec()),
        None => Err(LoadFileAndAutoMakeTreeErr::read_to_string(
            "NotFound".to_string(),
            format!("{:?}", request.path),
        )),
    }
}

/// Runs the walk as a caller does: reads each file that is asked for.
fn run_with_reads(source: &str) -> (Injected, Vec<String>) {
    let input = parse_nodes(source).unwrap();
    let mut loaded: Vec<Loaded> = Vec::new();
    let mut reads = Vec::new();
    loop {
        match inject(&input, &loaded) {
            Injected::Need(request) => {
                let read = read(&request, &mut reads);
                loaded.push(load(&request, read));
            },
            other => return (other, reads),
        }
    }
}

fn run(source: &str) -> Injected {
    run_with_reads(source).0
}

/// The nodes with every group without delimiters replaced by its children.
fn flat(nodes: &[SyntaxNode]) -> Vec<SyntaxNode> {
    let mut out = Vec::new();
    for node in nodes {
        match node {
            SyntaxNode::Group(g) if matches!(g.delimiter, Delimiter::None) => {
                out.extend(flat(&g.children));
            },
            SyntaxNode::Group(g) => out.push(SyntaxNode::Group(Group {
                delimiter: g.delimiter,
                children: flat(&g.children),
                span: g.span,
            })),
            other => out.push(other.clone()),
        }
    }
    out
}

fn done(source: &str) -> Vec<SyntaxNode> {
    match run(source) {
        Injected::Done(nodes) => nodes,
        other => panic!("{other:?}"),
    }
}

fn failed(source: &str) -> String {
    match run(source) {
        Injected::Failed(d) => d.message,
        other => panic!("{other:?}"),
    }
}

fn reads_as(source: &str, expected: &str) -> bool {
    same_tokens(&flat(&done(source)), &parse_nodes(expected).unwrap())
}

#[test]
fn break_test_empty_tt() {
    let out = flat(&done(
        "#tt(\"./tests/empty.tt\")
        #break;

        stringify!(#include!(\"./tests/empty.tt\"))",
    ));
    assert!(same_tokens(
        &out,
        &parse_nodes("stringify!(#include!(\"./tests/empty.tt\"))").unwrap()
    ));
    let inner = match &out[2] {
        SyntaxNode::Group(g) => &g.children,
        other => panic!("{other:?}"),
    };
    assert!(same_tokens(inner, &parse_nodes("#include!(\"./tests/empty.tt\")").unwrap()));
}

#[test]
fn empty_test_empty_tt() {
    let out = flat(&done(
        "let tt = concat!(
            #tt(\"./tests/empty.tt\") \"Empty\"
        );
        let str = #str(\"./tests/empty.tt\");
        let arr = #arr(\"./tests/empty.tt\");

        let tt2 = concat!(
            #tt() \"Empty\"
        );
        let str2 = #str();
        let arr2 = #arr();",
    ));
    // The value of each `let`, between `=` and `;`.
    let mut values: Vec<Vec<SyntaxNode>> = Vec::new();
    for statement in out.split(|n| matches!(n, SyntaxNode::Punct { ch: ';', .. })) {
        if !statement.is_empty() {
            values.push(statement[3..].to_vec());
        }
    }
    let is = |i: usize, expected: &str| same_tokens(&values[i], &parse_nodes(expected).unwrap());
    assert_eq!(values.len(), 6);
    assert!(is(0, "concat!(\"Empty\")"));
    assert!(is(3, "concat!(\"Empty\")"));

    assert!(is(1, "\"\""));
    assert!(is(4, "\"\""));

    assert!(is(2, "b\"\""));
    assert!(is(5, "b\"\""));
}

#[test]
fn test_expr_lit() {
    let out = flat(&done("#include_and_break!(\"./tests/expr_lit.tt\")"));
    assert_eq!(out.len(), 1);
    match &out[0] {
        SyntaxNode::Literal { text, .. } => assert_eq!(text, "\"123\\\"test\""),
        other => panic!("{other:?}"),
    }
}

#[test]
fn test_fix_unktoken() {
    assert_eq!("\\".len(), 1);
    assert!(reads_as("#ctt!(\"./tests/invalid_token.tt\")", "b = 30;"));
    // Without the fix the same file does not parse.
    let message = failed("#tt!(\"./tests/invalid_token.tt\")");
    assert!(message.starts_with("Failed to convert to tree `tt`: '"), "{message}");
}

#[test]
fn file_is_spliced_in_as_tree_string_or_bytes() {
    // The file contains `a, b`.
    assert!(reads_as(
        "write!(&mut end_str, \"arg1: {}, arg2: {}\", #include!(\"./examples/full.tt\"));",
        "write!(&mut end_str, \"arg1: {}, arg2: {}\", a, b);",
    ));
    let out = done("#include_str!(\"./examples/full.tt\")");
    assert_eq!(out.len(), 1);
    assert!(matches!(&out[0], SyntaxNode::Literal { text, .. } if text == "\"a, b\""));
    let out = done("#include_arr!(\"./examples/full.tt\")");
    assert_eq!(out.len(), 1);
    assert!(matches!(&out[0], SyntaxNode::Literal { text, .. } if text == "b\"a, b\""));
    let out = done("#include!(\"./examples/full.tt\")");
    assert_eq!(out.len(), 1);
    match &out[0] {
        SyntaxNode::Group(g) => {
            assert!(matches!(g.delimiter, Delimiter::None));
            assert_eq!(g.children.len(), 3);
            assert!(matches!(&g.children[0], SyntaxNode::Ident { text, .. } if text == "a"));
            assert!(matches!(&g.children[1], SyntaxNode::Punct { ch: ',', .. }));
            assert!(matches!(&g.children[2], SyntaxNode::Ident { text, .. } if text == "b"));
        },
        other => panic!("{other:?}"),
    }
}

#[test]
fn bytes_and_text_are_escaped_in_their_literals() {
    let out = done("#arr!(\"./bin\")");
    let expected = proc_macro2::Literal::byte_string(&[0, 159, 146, 150, b'"', b'\\']).to_string();
    assert!(matches!(&out[0], SyntaxNode::Literal { text, .. } if *text == expected));
    assert!(expected.starts_with("b\"") && expected.len() > 8);
    let out = done("#str!(\"./tests/expr_lit.tt\")");
    assert!(
        matches!(&out[0], SyntaxNode::Literal { text, .. } if text == "\"\\\"123\\\\\\\"test\\\"\"")
    );
    // Bytes that are no text fail a string marker.
    let message = failed("#str!(\"./bin\")");
    assert_eq!(
        message,
        "Error loading file, err: 'stream did not contain valid UTF-8', path: ./bin."
    );
}

#[test]
fn every_name_of_a_marker_is_known() {
    for name in ["include", "include_tt", "tt"] {
        assert!(reads_as(&format!("x #{name}!(\"./examples/full.tt\") y"), "x a, b y"));
    }
    for name in ["include_and_fix_unknown_start_token", "include_tt_and_fix_unknown_start_token", "ctt"] {
        assert!(reads_as(&format!("x #{name}!(\"./tests/invalid_token.tt\") y"), "x b = 30; y"));
    }
    for name in ["include_str", "str"] {
        assert!(reads_as(&format!("x #{name}!(\"./examples/full.tt\") y"), "x \"a, b\" y"));
    }
    for name in ["include_arr", "arr", "array"] {
        assert!(reads_as(&format!("x #{name}!(\"./examples/full.tt\") y"), "x b\"a, b\" y"));
    }
    let kinds = [
        ("include_and_break", "a, b"),
        ("include_tt_and_break", "a, b"),
        ("include_str_and_break", "\"a, b\""),
        ("include_arr_and_break", "b\"a, b\""),
    ];
    for (name, content) in kinds {
        assert!(reads_as(
            &format!("x #{name}!(\"./examples/full.tt\") y #str!(\"./examples/full.tt\")"),
            &format!("x {content} y #str!(\"./examples/full.tt\")"),
        ));
    }
    for name in [
        "include_and_fix_unknown_start_token_and_break",
        "include_tt_and_fix_unknown_start_token_and_break",
    ] {
        assert!(reads_as(
            &format!("x #{name}!(\"./tests/invalid_token.tt\") #tt!(\"nowhere\")"),
            "x b = 30; #tt!(\"nowhere\")",
        ));
    }
    assert_eq!(
        find_macro_name(&"include".to_string()),
        Some(MacroName::Include { kind: IncludeKind::Tt, and_break: false })
    );
    assert_eq!(
        find_macro_name(&"include_arr_and_break".to_string()),
        Some(MacroName::Include { kind: IncludeKind::Arr, and_break: true })
    );
    assert_eq!(find_macro_name(&"POINT_TRACKER_FILES".to_string()), Some(MacroName::PointTrackerFiles));
    assert_eq!(find_macro_name(&"break".to_string()), Some(MacroName::Break));
    assert_eq!(find_macro_name(&"BREAK".to_string()), Some(MacroName::Break));
    assert_eq!(find_macro_name(&"AS_IS".to_string()), Some(MacroName::AsIs));
    assert_eq!(find_macro_name(&"Break".to_string()), None);
    assert_eq!(find_macro_name(&"includes".to_string()), None);
    assert_eq!(find_macro_name(&"".to_string()), None);
}

#[test]
fn marker_may_stand_without_its_bang_and_with_any_delimiter() {
    assert!(reads_as("#tt(\"./examples/full.tt\")", "a, b"));
    assert!(reads_as("#tt[\"./examples/full.tt\"]", "a, b"));
    assert!(reads_as("#tt!{\"./examples/full.tt\"}", "a, b"));
    assert!(reads_as("#str{\"./examples/full.tt\"} z", "\"a, b\" z"));
}

#[test]
fn composite_path_resolves_as_the_literal_does() {
    let (spelled, reads) =
        run_with_reads("#include!(['e' xamples '/' \"full\" '.' \"tt\"])");
    assert_eq!(reads, vec!["examples/full.tt".to_string()]);
    let (literal, reads) = run_with_reads("#include!(\"examples/full.tt\")");
    assert_eq!(reads, vec!["examples/full.tt".to_string()]);
    match (spelled, literal) {
        (Injected::Done(a), Injected::Done(b)) => {
            assert!(same_tokens(&a, &b));
            assert!(same_tokens(&flat(&a), &parse_nodes("a, b").unwrap()));
        },
        other => panic!("{other:?}"),
    }
    // The literals of a path are taken as they are: a backslash stays.
    let (_, reads) = run_with_reads("#str!(\"a\\\\b\") #str!([\"a\\\\b\" c])");
    assert_eq!(reads, vec!["a\\\\b".to_string()]);
}

#[test]
fn marker_without_a_path_takes_its_default() {
    let (out, reads) = run_with_reads("#tt!() #ctt!() #str!() #arr!() #tt!([]) #str!([]) #arr!(())");
    assert!(reads.is_empty());
    match out {
        Injected::Done(nodes) => {
            assert_eq!(nodes.len(), 7);
            assert!(same_tokens(&flat(&nodes), &parse_nodes("\"\" b\"\" \"\" b\"\"").unwrap()));
            for i in [0usize, 1, 4] {
                match &nodes[i] {
                    SyntaxNode::Group(g) => {
                        assert!(matches!(g.delimiter, Delimiter::None));
                        assert!(g.children.is_empty());
                    },
                    other => panic!("{other:?}"),
                }
            }
        },
        other => panic!("{other:?}"),
    }
    // A group that spells the empty path is a path: the file is asked for.
    let (out, reads) = run_with_reads("#str!([\"\"])");
    assert_eq!(reads, vec![String::new()]);
    assert!(matches!(out, Injected::Failed(_)));
}

#[test]
fn tokens_after_a_break_are_left_as_they_are() {
    for directive in ["#break;", "#BREAK;", "#AS_IS:"] {
        assert!(reads_as(
            &format!("a #str!(\"./examples/full.tt\") {directive} b #str!(\"./examples/full.tt\") #nonsense (#tt!(\"x\"))"),
            "a \"a, b\" b #str!(\"./examples/full.tt\") #nonsense (#tt!(\"x\"))",
        ));
    }
    let (_, reads) = run_with_reads("#break; #tt!(\"./examples/full.tt\")");
    assert!(reads.is_empty());
}

#[test]
fn break_inside_a_group_ends_the_whole_walk() {
    assert!(reads_as(
        "a ( b [ #str!(\"./examples/full.tt\") #break; #str!(\"x\") ] #str!(\"y\") ) #str!(\"z\")",
        "a ( b [ \"a, b\" #str!(\"x\") ] #str!(\"y\") ) #str!(\"z\")",
    ));
    assert!(reads_as(
        "( #include_str_and_break!(\"./examples/full.tt\") #tt!(\"x\") ) #tt!(\"y\")",
        "( \"a, b\" #tt!(\"x\") ) #tt!(\"y\")",
    ));
}

#[test]
fn groups_are_walked_in_depth_and_in_source_order() {
    let (out, reads) = run_with_reads(
        "#str!(\"./examples/full.tt\") { ( #tt!(\"./tests/empty.tt\") [ #arr!(\"examples/full.tt\") ] ) #str!(\"./tests/expr_lit.tt\") }",
    );
    assert_eq!(reads, vec!["./examples/full.tt", "./tests/empty.tt", "examples/full.tt", "./tests/expr_lit.tt"]);
    match out {
        Injected::Done(nodes) => assert!(same_tokens(
            &flat(&nodes),
            &parse_nodes("\"a, b\" { ( [ b\"a, b\" ] ) \"\\\"123\\\\\\\"test\\\"\" }").unwrap()
        )),
        other => panic!("{other:?}"),
    }
    // The same file is read once for each marker.
    let (_, reads) = run_with_reads("#tt!(\"./examples/full.tt\") #tt!(\"./examples/full.tt\")");
    assert_eq!(reads.len(), 2);
}

#[test]
fn hash_without_a_name_is_left_alone() {
    assert!(reads_as("#[derive(Debug)] struct A; # 1 # # !", "#[derive(Debug)] struct A; # 1 # # !"));
    assert!(reads_as("a #", "a #"));
    // The group after such a hash is walked like any other.
    assert!(reads_as("#[doc = #str!(\"./examples/full.tt\")] fn f() {}", "#[doc = \"a, b\"] fn f() {}"));
    // What the file holds is not walked again.
    assert!(reads_as("#tt!(\"./tests/expr_lit.tt\")", "\"123\\\"test\""));
}

#[test]
fn each_malformed_marker_has_its_diagnostic() {
    assert_eq!(failed("a #unknown!(\"x\")"), UNKNOWN_MACRO);
    assert_eq!(failed("( [ #x ] )"), UNKNOWN_MACRO);
    assert_eq!(failed("#break"), SEMICOLON_EXPECTED);
    assert_eq!(failed("#break:"), SEMICOLON_EXPECTED);
    assert_eq!(failed("#BREAK x"), SEMICOLON_EXPECTED);
    assert_eq!(failed("#AS_IS;"), COLON_EXPECTED);
    assert_eq!(failed("#POINT_TRACKER_FILES;"), COLON_EXPECTED);
    assert_eq!(failed("#POINT_TRACKER_FILES"), COLON_EXPECTED);
    assert_eq!(failed("#include"), GROUP_EXPECTED);
    assert_eq!(failed("#include!"), GROUP_EXPECTED);
    assert_eq!(failed("#include! x"), GROUP_EXPECTED);
    assert_eq!(failed("#include \"x\""), GROUP_EXPECTED);
    assert_eq!(failed("#include!(\"a\" \"b\")"), STRAY_ARGUMENT);
    assert_eq!(failed("#include!(\"a\", )"), STRAY_ARGUMENT);
    assert_eq!(failed("#include!(a)"), PATH_EXPECTED);
    assert_eq!(failed("#include!(/)"), PATH_EXPECTED);
    assert_eq!(failed("#include!(1)"), "More char expected, current: 1, exp: 2.");
    assert_eq!(failed("#include!(12)"), "Double quotes were expected.");
    assert_eq!(failed("#include!('\\n')"), "More char expected, current: 4, exp: 3.");
    assert_eq!(failed("#include!([a 12])"), "Literal, Double quotes were expected.");
}

#[test]
fn first_error_in_source_order_is_the_diagnostic() {
    assert_eq!(failed("#x #y"), UNKNOWN_MACRO);
    assert_eq!(failed("( #break ) #x"), SEMICOLON_EXPECTED);
    let (out, reads) = run_with_reads("#tt!(\"nowhere\") #x #tt!(\"./examples/full.tt\")");
    assert_eq!(reads, vec!["nowhere"]);
    match out {
        Injected::Failed(d) => {
            assert_eq!(d.message, "Error loading file, err: 'NotFound', path: \"nowhere\".");
            let nodes = d.into_nodes();
            assert!(same_tokens(
                &nodes,
                &parse_nodes(
                    "compile_error!(\"Error loading file, err: 'NotFound', path: \\\"nowhere\\\".\");"
                )
                .unwrap()
            ));
        },
        other => panic!("{other:?}"),
    }
    // An error that stands before the marker is found before the file is asked for.
    let (out, reads) = run_with_reads("#x #tt!(\"./examples/full.tt\")");
    assert!(reads.is_empty());
    assert!(matches!(out, Injected::Failed(_)));
}

#[test]
fn missing_file_gives_one_diagnostic_and_leaves_the_input() {
    let source = "a ( #tt!(\"nowhere\") ) b";
    let input = parse_nodes(source).unwrap();
    let request = match inject(&input, &Vec::new()) {
        Injected::Need(request) => request,
        other => panic!("{other:?}"),
    };
    assert_eq!(request, Request { kind: IncludeKind::Tt, path: "nowhere".to_string() });
    let gone = LoadFileAndAutoMakeTreeErr::read_to_string("gone".to_string(), "nowhere".to_string());
    let loaded = vec![load(&request, Err(gone))];
    match inject(&input, &loaded) {
        Injected::Failed(d) => {
            assert_eq!(d.message, "Error loading file, err: 'gone', path: nowhere.");
            assert_eq!(d.into_nodes().len(), 4);
        },
        other => panic!("{other:?}"),
    }
    assert!(same_tokens(&input, &parse_nodes(source).unwrap()));
}

#[test]
fn tracker_declares_each_file_where_its_directive_stood() {
    let out = done(
        "x #POINT_TRACKER_FILES: y #str!(\"./examples/full.tt\") z #str!(\"./examples/full.tt\")",
    );
    assert_eq!(out.len(), 6);
    assert!(matches!(&out[0], SyntaxNode::Ident { text, .. } if text == "x"));
    match &out[1] {
        SyntaxNode::Group(g) => {
            assert!(matches!(g.delimiter, Delimiter::None));
            let expected = parse_nodes(
                "const _TRACKER_FILE_NUM_0: & 'static [u8] = include_bytes!(\".././examples/full.tt\") as &[_]; \
                 const _TRACKER_FILE_NUM_1: & 'static [u8] = include_bytes!(\".././examples/full.tt\") as &[_];",
            )
            .unwrap();
            assert!(same_tokens(&g.children, &expected));
            assert!(g.children[1] != g.children[16]);
        },
        other => panic!("{other:?}"),
    }
    assert!(same_tokens(&out[2..].to_vec(), &parse_nodes("y \"a, b\" z \"a, b\"").unwrap()));
}

#[test]
fn tracker_sees_only_the_loads_after_its_directive() {
    let out = done("#str!(\"./examples/full.tt\") #POINT_TRACKER_FILES: #tt!() #arr!(\"./bin\")");
    assert_eq!(out.len(), 4);
    match &out[1] {
        SyntaxNode::Group(g) => {
            let expected = parse_nodes(
                "const _TRACKER_FILE_NUM_0: & 'static [u8] = include_bytes!(\".././bin\") as &[_];",
            )
            .unwrap();
            assert!(same_tokens(&g.children, &expected));
        },
        other => panic!("{other:?}"),
    }
    // Without a load the directive leaves an empty group.
    let out = done("a #POINT_TRACKER_FILES: b");
    assert_eq!(out.len(), 3);
    assert!(matches!(&out[1], SyntaxNode::Group(g) if g.children.is_empty()));
    // Without a directive nothing is declared.
    assert!(reads_as("#str!(\"./examples/full.tt\")", "\"a, b\""));
    assert_eq!(done("#str!(\"./examples/full.tt\")").len(), 1);
}

#[test]
fn nested_loads_go_to_the_tracker_of_the_enclosing_scope() {
    let out = done(
        "#POINT_TRACKER_FILES: ( #str!(\"./examples/full.tt\") [ #POINT_TRACKER_FILES: #tt!(\"./tests/empty.tt\") ] ) #arr!(\"./bin\") #break; #tt!(\"x\")",
    );
    match &out[0] {
        SyntaxNode::Group(g) => {
            let expected = parse_nodes(
                "const _TRACKER_FILE_NUM_0: & 'static [u8] = include_bytes!(\".././examples/full.tt\") as &[_]; \
                 const _TRACKER_FILE_NUM_1: & 'static [u8] = include_bytes!(\".././tests/empty.tt\") as &[_]; \
                 const _TRACKER_FILE_NUM_2: & 'static [u8] = include_bytes!(\".././bin\") as &[_];",
            )
            .unwrap();
            assert!(same_tokens(&g.children, &expected));
        },
        other => panic!("{other:?}"),
    }
    let bin = proc_macro2::Literal::byte_string(&[0, 159, 146, 150, b'"', b'\\']).to_string();
    assert!(same_tokens(
        &flat(&out[1..]),
        &parse_nodes(&format!("( \"a, b\" [ ] ) {bin} #tt!(\"x\")")).unwrap()
    ));
}

#[test]
fn trackers_of_one_tree_never_share_a_name() {
    let out = done(
        "( #POINT_TRACKER_FILES: #str!(\"./examples/full.tt\") ) #POINT_TRACKER_FILES: #str!(\"./examples/full.tt\") #POINT_TRACKER_FILES: ( #str!(\"./examples/full.tt\") )",
    );
    let mut names = Vec::new();
    let mut groups = vec![&out];
    while let Some(nodes) = groups.pop() {
        for (i, node) in nodes.iter().enumerate() {
            match node {
                SyntaxNode::Group(g) => groups.push(&g.children),
                SyntaxNode::Ident { text, .. } if text == "const" => match &nodes[i + 1] {
                    SyntaxNode::Ident { text, .. } => names.push(text.clone()),
                    other => panic!("{other:?}"),
                },
                _ => {},
            }
        }
    }
    names.sort();
    assert_eq!(names, vec!["_TRACKER_FILE_NUM_0", "_TRACKER_FILE_NUM_1", "_TRACKER_FILE_NUM_2"]);
}

#[test]
fn walk_of_one_scope_reports_how_it_ended() {
    let loaded = Vec::new();
    let nodes = parse_nodes("a (b) c").unwrap();
    let (flow, walk) = search_include_and_replacegroup(&nodes, &loaded, Walk::new());
    assert!(matches!(flow, SearchGroup::Continue));
    assert!(same_tokens(&walk.out, &nodes));
    assert_eq!((walk.cursor, walk.globalposnum), (0, 0));
    assert!(walk.point_track_file.is_none());

    let nodes = parse_nodes("a (#break; b) c").unwrap();
    let (flow, walk) = search_include_and_replacegroup(&nodes, &loaded, Walk::new());
    assert!(matches!(flow, SearchGroup::Break));
    assert!(same_tokens(&walk.out, &parse_nodes("a (b) c").unwrap()));

    let nodes = parse_nodes("a #str!(\"p\") c").unwrap();
    let (flow, _) = search_include_and_replacegroup(&nodes, &loaded, Walk::new());
    assert!(
        matches!(flow, SearchGroup::Need(r) if r == Request { kind: IncludeKind::Str, path: "p".to_string() })
    );
    let (flow, walk) =
        search_include_and_replacegroup(&nodes, &vec![Loaded::Str("text".to_string())], Walk::new());
    assert!(matches!(flow, SearchGroup::Continue));
    assert_eq!((walk.cursor, walk.globalposnum), (1, 0));

    let nodes = parse_nodes("a #zzz c").unwrap();
    let (flow, _) = search_include_and_replacegroup(&nodes, &loaded, Walk::new());
    assert!(matches!(flow, SearchGroup::Error(d) if d.message == UNKNOWN_MACRO));
}

#[test]
fn content_of_another_kind_is_refused() {
    let span = Span::call_site();
    let text = Loaded::Str("t".to_string());
    let bytes = Loaded::Arr(vec![1]);
    let tree = Loaded::Tree(None);
    assert_eq!(IncludeTT::make_tree(&text, span, span).unwrap_err().message, CONTENT_MISMATCH);
    assert_eq!(
        IncludeTTAndFixUnkStartToken::make_tree(&bytes, span, span).unwrap_err().message,
        CONTENT_MISMATCH
    );
    assert_eq!(IncludeStr::make_tree(&tree, span, span).unwrap_err().message, CONTENT_MISMATCH);
    assert_eq!(IncludeArr::make_tree(&text, span, span).unwrap_err().message, CONTENT_MISMATCH);
    assert!(IncludeTT::make_tree(&tree, span, span).is_ok());
    assert!(IncludeStr::make_tree(&text, span, span).is_ok());
    assert!(IncludeArr::make_tree(&bytes, span, span).is_ok());
    assert_eq!(IncludeTT::include_kind(), IncludeKind::Tt);
    assert_eq!(IncludeTTAndFixUnkStartToken::include_kind(), IncludeKind::Ctt);
    assert_eq!(IncludeStr::include_kind(), IncludeKind::Str);
    assert_eq!(IncludeArr::include_kind(), IncludeKind::Arr);
    assert!(matches!(IncludeStr::make_empty_tree(span), SyntaxNode::Literal { text, .. } if text == "\"\""));
    assert!(matches!(IncludeArr::make_empty_tree(span), SyntaxNode::Literal { text, .. } if text == "b\"\""));
}

#[test]
fn marker_rule_asks_for_its_file_until_it_is_there() {
    let group = match parse_nodes("(\"some/path\")").unwrap().pop().unwrap() {
        SyntaxNode::Group(g) => g,
        other => panic!("{other:?}"),
    };
    match macro_rule_include::<IncludeArr>(&group, None) {
        Included::Need(r) => {
            assert_eq!(r, Request { kind: IncludeKind::Arr, path: "some/path".to_string() })
        },
        other => panic!("{other:?}"),
    }
    match macro_rule_include::<IncludeArr>(&group, Some(&Loaded::Arr(vec![b'x']))) {
        Included::Loaded { tree, path } => {
            assert_eq!(path, "some/path");
            assert!(matches!(tree, SyntaxNode::Literal { text, .. } if text == "b\"x\""));
        },
        other => panic!("{other:?}"),
    }
    let empty = Group { delimiter: Delimiter::Parenthesis, children: Vec::new(), span: Span::call_site() };
    assert!(matches!(
        macro_rule_include::<IncludeStr>(&empty, Some(&Loaded::Str("unused".to_string()))),
        Included::Default(SyntaxNode::Literal { text, .. }) if text == "\"\""
    ));
}

#[test]
fn argument_gives_its_path() {
    assert_eq!(BehMacroArg0::Stringify("a/b".to_string()).get_str().unwrap(), "a/b");
    assert_eq!(BehMacroArg0::Stringify("\"a\"".to_string()).get_str().unwrap(), "\"a\"");
    assert_eq!(BehMacroArg0::ExpMakeExprLit("\"a\"".to_string()).get_str().unwrap(), "a");
    assert_eq!(
        BehMacroArg0::ExpMakeExprLit("a".to_string()).get_str().unwrap_err(),
        ExprLitTryNewErr::ExpLen { current: 1, exp: 2 }
    );
    let len = |arg: BehMacroArg0| arg.get_str_with_fns(|s| Ok(s.to_string()), Err);
    assert_eq!(len(BehMacroArg0::Stringify("a/b".to_string())), Ok("a/b".to_string()));
    assert_eq!(len(BehMacroArg0::ExpMakeExprLit("'c'".to_string())), Ok("c".to_string()));
    assert_eq!(len(BehMacroArg0::ExpMakeExprLit("'c".to_string())), Err(ExprLitTryNewErr::ExpQuotes));
}
