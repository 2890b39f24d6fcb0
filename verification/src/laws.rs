//! What holds of the library as a whole.

use crate::group::{group_stringified, stringified, stringified_all};
use crate::literal::{
    byte_len, inner_text, lemma_byte_len_bounds, quoted_by, unquoted, ExprLitTryNewErr,
};
use crate::loader::{load_error_message, IncludeKind, LoadErr, LoadedView, RequestView};
use crate::node::{span_of, Node};
use crate::result::DiagnosticView;
use crate::rules::{argument_path, included, made_tree, resolved, IncludedView};
use crate::search::{
    broken, finished, is_punct, leaf_step, macro_name, registered, scan_from, start,
    tracker_started, Flow, MacroName, Step, WalkView,
};
use crate::track::{declaration, lemma_tracker_name_injective, tracker_name};
use crate::{injected, InjectedView};
use proc_macro2::{Delimiter, Span};
use vstd::prelude::*;
use vstd::utf8::is_ascii_chars_encode_utf8;

verus! {

/// A text of fewer than two bytes is no literal: it is reported with its
/// length and the two bytes that were expected.
pub proof fn law_short_literal(a: Seq<char>)
    requires
        byte_len(a) < 2,
    ensures
        unquoted(a) == Err::<Seq<char>, ExprLitTryNewErr>(
            ExprLitTryNewErr::ExpLen { current: byte_len(a) as usize, exp: 2 },
        ),
{
}

/// A text in single quotes that has not exactly three bytes is reported
/// with its length and the three bytes that were expected.
pub proof fn law_single_quoted_length(a: Seq<char>)
    requires
        quoted_by(a, '\''),
        byte_len(a) != 3,
    ensures
        unquoted(a) == Err::<Seq<char>, ExprLitTryNewErr>(
            ExprLitTryNewErr::ExpLen { current: byte_len(a) as usize, exp: 3 },
        ),
{
    lemma_byte_len_bounds(a);
}

/// A text of three bytes in single quotes unwraps to what stands between
/// the quotes.
pub proof fn law_single_quoted(a: Seq<char>)
    requires
        quoted_by(a, '\''),
        byte_len(a) == 3,
    ensures
        unquoted(a) == Ok::<Seq<char>, ExprLitTryNewErr>(inner_text(a)),
{
}

/// One character of one byte between single quotes unwraps to that
/// character.
pub proof fn law_single_character(c: char)
    requires
        c <= '\u{7f}',
    ensures
        unquoted(seq!['\'', c, '\'']) == Ok::<Seq<char>, ExprLitTryNewErr>(seq![c]),
{
    let a = seq!['\'', c, '\''];
    is_ascii_chars_encode_utf8(a);
    assert(inner_text(a) =~= seq![c]);
}

/// Any text between double quotes unwraps to exactly that text.
pub proof fn law_double_quoted(inner: Seq<char>)
    ensures
        unquoted(seq!['"'] + inner + seq!['"']) == Ok::<Seq<char>, ExprLitTryNewErr>(inner),
{
    let a = seq!['"'] + inner + seq!['"'];
    lemma_byte_len_bounds(a);
    assert(inner_text(a) =~= inner);
}

/// A group without children spells no path at all, while a group that
/// holds the literal `""` spells the path that is empty: the two differ.
pub proof fn law_empty_group_is_no_content(span: Span)
    ensures
        group_stringified(Seq::empty()) == Ok::<Option<Seq<char>>, DiagnosticView>(None),
        group_stringified(seq![Node::Literal { text: seq!['"', '"'], span }]) == Ok::<
            Option<Seq<char>>,
            DiagnosticView,
        >(Some(Seq::empty())),
{
    let literal = Node::Literal { text: seq!['"', '"'], span };
    law_double_quoted(Seq::empty());
    assert(seq!['"'] + Seq::<char>::empty() + seq!['"'] =~= seq!['"', '"']);
    assert(stringified(literal) == Ok::<Seq<char>, DiagnosticView>(Seq::empty()));
    assert(stringified_all(seq![literal], 1) == Ok::<Seq<char>, DiagnosticView>(Seq::empty()));
}

/// A path spelled by a group of tokens and the same path written as one
/// literal come to the same: the same request while the file is not loaded,
/// the same node or the same diagnostic once it is.
pub proof fn law_composite_path(
    kind: IncludeKind,
    spelled: Node,
    literal: Node,
    delimiter: Delimiter,
    group_span: Span,
    next: Option<LoadedView>,
)
    requires
        argument_path(spelled) is Ok,
        argument_path(spelled) == argument_path(literal),
    ensures
        included(kind, Node::Group { delimiter, children: seq![spelled], span: group_span }, next)
            == included(
            kind,
            Node::Group { delimiter, children: seq![literal], span: group_span },
            next,
        ),
{
}

/// Nodes that are neither groups nor `#`.
pub open spec fn plain(nodes: Seq<Node>) -> bool {
    forall|j: int|
        0 <= j < nodes.len() ==> !(#[trigger] nodes[j] is Group) && !is_punct(nodes, j, '#')
}

/// A directive that ends the walk: `#`, one of its names, and the
/// punctuation that closes it.
pub open spec fn is_break(directive: Seq<Node>) -> bool {
    &&& directive.len() == 3
    &&& is_punct(directive, 0, '#')
    &&& directive[1] is Ident
    &&& {
        let name = macro_name(directive[1]->Ident_text);
        ||| name == Some(MacroName::Break) && is_punct(directive, 2, ';')
        ||| name == Some(MacroName::AsIs) && is_punct(directive, 2, ':')
    }
}

/// The directive that starts a tracker: `#`, its name, and the colon.
pub open spec fn is_tracker(directive: Seq<Node>) -> bool {
    &&& directive.len() == 3
    &&& is_punct(directive, 0, '#')
    &&& directive[1] is Ident
    &&& macro_name(directive[1]->Ident_text) == Some(MacroName::PointTrackerFiles)
    &&& is_punct(directive, 2, ':')
}

/// A marker with its `!`: the `#`, a name of the given kind, the `!` and
/// an argument list that holds one path.
pub open spec fn is_marker(marker: Seq<Node>, kind: IncludeKind, and_break: bool) -> bool {
    &&& marker.len() == 4
    &&& is_punct(marker, 0, '#')
    &&& marker[1] is Ident
    &&& macro_name(marker[1]->Ident_text) == Some(MacroName::Include { kind, and_break })
    &&& is_punct(marker, 2, '!')
    &&& marker[3] is Group
    &&& marker[3]->Group_children.len() == 1
    &&& argument_path(marker[3]->Group_children[0]) matches Ok(Some(_))
}

/// The path of a marker.
pub open spec fn marker_path(marker: Seq<Node>) -> Seq<char> {
    match argument_path(marker[3]->Group_children[0]) {
        Ok(Some((path, _))) => path,
        _ => Seq::empty(),
    }
}

/// The place of the path of a marker.
pub open spec fn marker_path_span(marker: Seq<Node>) -> Span {
    match argument_path(marker[3]->Group_children[0]) {
        Ok(Some((_, span))) => span,
        _ => span_of(marker[3]),
    }
}

/// What a marker makes of a loaded file.
pub open spec fn marker_tree(marker: Seq<Node>, kind: IncludeKind, loaded: LoadedView) -> Result<
    Node,
    DiagnosticView,
> {
    made_tree(kind, loaded, span_of(marker[3]), marker_path_span(marker))
}

/// The walk passes over plain nodes and hands each to the output as it
/// is.
proof fn lemma_plain_prefix(
    nodes: Seq<Node>,
    i: int,
    k: int,
    loaded: Seq<LoadedView>,
    w: WalkView,
    inherited: bool,
)
    requires
        0 <= i <= k <= nodes.len(),
        plain(nodes.subrange(0, k)),
    ensures
        scan_from(nodes, i, loaded, w, inherited) == scan_from(
            nodes,
            k,
            loaded,
            WalkView { out: w.out + nodes.subrange(i, k), ..w },
            inherited,
        ),
    decreases k - i,
{
    if i < k {
        assert(nodes.subrange(0, k)[i] == nodes[i]);
        assert(!is_punct(nodes.subrange(0, k), i, '#'));
        let next = WalkView { out: w.out.push(nodes[i]), ..w };
        assert(leaf_step(nodes, i, loaded, w, inherited) == Step::Next { skip: 0, walk: next });
        lemma_plain_prefix(nodes, i + 1, k, loaded, next, inherited);
        assert(next.out + nodes.subrange(i + 1, k) =~= w.out + nodes.subrange(i, k));
    } else {
        assert(w.out + nodes.subrange(i, k) =~= w.out);
    }
}

/// The walk passes over plain nodes to the end of the scope.
proof fn lemma_plain_suffix(
    nodes: Seq<Node>,
    i: int,
    loaded: Seq<LoadedView>,
    w: WalkView,
    inherited: bool,
)
    requires
        0 <= i <= nodes.len(),
        plain(nodes.subrange(i, nodes.len() as int)),
    ensures
        scan_from(nodes, i, loaded, w, inherited) == (
            Flow::Continue,
            finished(
                WalkView { out: w.out + nodes.subrange(i, nodes.len() as int), ..w },
                inherited,
            ),
        ),
    decreases nodes.len() - i,
{
    let n = nodes.len() as int;
    if i < n {
        assert(nodes.subrange(i, n)[0] == nodes[i]);
        assert(!is_punct(nodes.subrange(i, n), 0, '#'));
        let next = WalkView { out: w.out.push(nodes[i]), ..w };
        assert(leaf_step(nodes, i, loaded, w, inherited) == Step::Next { skip: 0, walk: next });
        assert forall|j: int| 0 <= j < n - (i + 1) implies !(#[trigger] nodes.subrange(i + 1, n)[j]
            is Group) && !is_punct(nodes.subrange(i + 1, n), j, '#') by {
            assert(nodes.subrange(i + 1, n)[j] == nodes.subrange(i, n)[j + 1]);
            assert(!is_punct(nodes.subrange(i, n), j + 1, '#'));
        }
        lemma_plain_suffix(nodes, i + 1, loaded, next, inherited);
        assert(next.out + nodes.subrange(i + 1, n) =~= w.out + nodes.subrange(i, n));
    } else {
        assert(w.out + nodes.subrange(i, n) =~= w.out);
    }
}

/// The walk from the start of a tree to the end of its plain first nodes.
proof fn lemma_walk_to(nodes: Seq<Node>, before: Seq<Node>, loaded: Seq<LoadedView>)
    requires
        plain(before),
        before.len() <= nodes.len(),
        nodes.subrange(0, before.len() as int) == before,
    ensures
        scan_from(nodes, 0, loaded, start(), false) == scan_from(
            nodes,
            before.len() as int,
            loaded,
            WalkView { out: before, ..start() },
            false,
        ),
{
    lemma_plain_prefix(nodes, 0, before.len() as int, loaded, start(), false);
    assert(start().out + before =~= before);
}

/// The step at a marker whose file is loaded and good: the marker's node
/// goes to the output, the file is used, and the tracker gets its
/// declaration.
proof fn lemma_marker_step(
    nodes: Seq<Node>,
    i: int,
    marker: Seq<Node>,
    loaded: Seq<LoadedView>,
    w: WalkView,
    inherited: bool,
    kind: IncludeKind,
    tree: Node,
)
    requires
        0 <= i,
        i + 4 <= nodes.len(),
        nodes.subrange(i, i + 4) == marker,
        is_marker(marker, kind, false),
        w.cursor < loaded.len(),
        marker_tree(marker, kind, loaded[w.cursor as int]) == Ok::<Node, DiagnosticView>(tree),
    ensures
        scan_from(nodes, i, loaded, w, inherited) == scan_from(
            nodes,
            i + 4,
            loaded,
            registered(
                WalkView { out: w.out.push(tree), cursor: w.cursor + 1, ..w },
                marker_path(marker),
            ),
            inherited,
        ),
{
    assert(nodes[i] == marker[0]);
    assert(nodes[i + 1] == marker[1]);
    assert(nodes[i + 2] == marker[2]);
    assert(nodes[i + 3] == marker[3]);
}

/// Where the walk comes to a directive that ends it, the scope is left at
/// once and every node after the directive goes to the output as it is.
pub proof fn law_break_stops_scope(
    nodes: Seq<Node>,
    i: int,
    loaded: Seq<LoadedView>,
    w: WalkView,
    inherited: bool,
)
    requires
        0 <= i,
        i + 3 <= nodes.len(),
        is_break(nodes.subrange(i, i + 3)),
    ensures
        scan_from(nodes, i, loaded, w, inherited) == (
            Flow::Break,
            broken(nodes, i + 3, w, inherited),
        ),
{
    let directive = nodes.subrange(i, i + 3);
    assert(nodes[i] == directive[0]);
    assert(nodes[i + 1] == directive[1]);
    assert(nodes[i + 2] == directive[2]);
}

/// The nodes after a directive that ends the walk are left as they are,
/// whatever they look like: a tree of plain nodes, the directive and
/// anything at all comes out as the plain nodes and that anything.
pub proof fn law_break_leaves_rest(
    before: Seq<Node>,
    directive: Seq<Node>,
    rest: Seq<Node>,
    loaded: Seq<LoadedView>,
)
    requires
        plain(before),
        is_break(directive),
    ensures
        injected(before + directive + rest, loaded) == InjectedView::Done(before + rest),
{
    let nodes = before + directive + rest;
    let k = before.len() as int;
    assert(nodes.subrange(0, k) =~= before);
    lemma_walk_to(nodes, before, loaded);
    assert(nodes.subrange(k, k + 3) =~= directive);
    law_break_stops_scope(nodes, k, loaded, WalkView { out: before, ..start() }, false);
    assert(nodes.subrange(k + 3, nodes.len() as int) =~= rest);
}

/// A marker whose file is not loaded yet makes the walk ask for that file,
/// by the marker's kind and path, whatever follows the marker.
pub proof fn law_marker_asks_for_its_file(
    before: Seq<Node>,
    marker: Seq<Node>,
    rest: Seq<Node>,
    kind: IncludeKind,
    and_break: bool,
)
    requires
        plain(before),
        is_marker(marker, kind, and_break),
    ensures
        injected(before + marker + rest, Seq::empty()) == InjectedView::Need(
            RequestView { kind, path: marker_path(marker) },
        ),
{
    let nodes = before + marker + rest;
    let k = before.len() as int;
    assert(nodes.subrange(0, k) =~= before);
    lemma_walk_to(nodes, before, Seq::empty());
    assert(nodes[k] == marker[0]);
    assert(nodes[k + 1] == marker[1]);
    assert(nodes[k + 2] == marker[2]);
    assert(nodes[k + 3] == marker[3]);
}

/// A marker between plain nodes is replaced, where it stands, by the one
/// node that it makes of its file; the nodes around it stay as they are.
pub proof fn law_marker_is_replaced_in_place(
    before: Seq<Node>,
    marker: Seq<Node>,
    after: Seq<Node>,
    loaded: Seq<LoadedView>,
    kind: IncludeKind,
    tree: Node,
)
    requires
        plain(before),
        plain(after),
        is_marker(marker, kind, false),
        loaded.len() > 0,
        marker_tree(marker, kind, loaded[0]) == Ok::<Node, DiagnosticView>(tree),
    ensures
        injected(before + marker + after, loaded) == InjectedView::Done(
            before + seq![tree] + after,
        ),
{
    let nodes = before + marker + after;
    let k = before.len() as int;
    let n = nodes.len() as int;
    assert(nodes.subrange(0, k) =~= before);
    lemma_walk_to(nodes, before, loaded);
    assert(nodes.subrange(k, k + 4) =~= marker);
    lemma_marker_step(
        nodes,
        k,
        marker,
        loaded,
        WalkView { out: before, ..start() },
        false,
        kind,
        tree,
    );
    assert(nodes.subrange(k + 4, n) =~= after);
    lemma_plain_suffix(
        nodes,
        k + 4,
        loaded,
        WalkView { out: before.push(tree), cursor: 1, ..start() },
        false,
    );
    assert(before.push(tree) + after =~= before + seq![tree] + after);
}

/// A marker whose file could not be read comes to the one diagnostic of
/// that failure, at the place of the path.
pub proof fn law_failed_file(
    kind: IncludeKind,
    path: Seq<char>,
    group_span: Span,
    literal_span: Span,
    e: LoadErr,
)
    ensures
        resolved(kind, path, group_span, literal_span, Some(LoadedView::Failed(e)))
            == IncludedView::Failed(
            DiagnosticView { message: load_error_message(e), span: literal_span },
        ),
{
}

/// A tree of plain nodes and then a marker whose file could not be read
/// comes to exactly one diagnostic, whatever follows the marker: nothing of
/// the tree is in the result.
pub proof fn law_failed_file_fails_all(
    before: Seq<Node>,
    marker: Seq<Node>,
    rest: Seq<Node>,
    loaded: Seq<LoadedView>,
    kind: IncludeKind,
    and_break: bool,
    e: LoadErr,
)
    requires
        plain(before),
        is_marker(marker, kind, and_break),
        loaded.len() > 0,
        loaded[0] == LoadedView::Failed(e),
    ensures
        injected(before + marker + rest, loaded) == InjectedView::Failed(
            DiagnosticView { message: load_error_message(e), span: marker_path_span(marker) },
        ),
{
    let nodes = before + marker + rest;
    let k = before.len() as int;
    assert(nodes.subrange(0, k) =~= before);
    lemma_walk_to(nodes, before, loaded);
    assert(nodes[k] == marker[0]);
    assert(nodes[k + 1] == marker[1]);
    assert(nodes[k + 2] == marker[2]);
    assert(nodes[k + 3] == marker[3]);
}

/// The names of the declarations differ where their numbers differ.
pub proof fn law_declaration_names_differ(a: nat, b: nat)
    requires
        a != b,
    ensures
        tracker_name(a) != tracker_name(b),
{
    if tracker_name(a) == tracker_name(b) {
        lemma_tracker_name_injective(a, b);
    }
}

/// Two files loaded one after the other under one tracker give two
/// declarations, in the order of the loads, under two different names, each
/// with the path of its file; and the tracker leaves them, in that order,
/// where its directive stood.
pub proof fn law_sibling_declarations(w: WalkView, first: Seq<char>, second: Seq<char>)
    requires
        w.tracker is Some,
        0 <= w.tracker->0.slot < w.out.len(),
    ensures
        ({
            let t = w.tracker->0;
            let after = registered(registered(w, first), second);
            let one = declaration(w.globalposnum, first, t.span);
            let two = declaration(w.globalposnum + 1, second, t.span);
            &&& after.tracker is Some
            &&& after.tracker->0.data == t.data + one + two
            &&& one[1]->Ident_text == tracker_name(w.globalposnum)
            &&& two[1]->Ident_text == tracker_name(w.globalposnum + 1)
            &&& one[1] != two[1]
            &&& finished(after, false).out[t.slot] == Node::Group {
                delimiter: Delimiter::None,
                children: t.data + one + two,
                span: t.span,
            }
        }),
{
    law_declaration_names_differ(w.globalposnum, w.globalposnum + 1);
}

/// Two sibling markers that read the same file after a tracker's directive
/// give two declarations with the numbers 0 and 1, and so with two names,
/// each for that file; the declarations stand, in the order of the loads,
/// in one group where the directive stood, and each marker is replaced by
/// its node.
pub proof fn law_tracker_declares_siblings(
    before: Seq<Node>,
    directive: Seq<Node>,
    first: Seq<Node>,
    second: Seq<Node>,
    loaded: Seq<LoadedView>,
    kind: IncludeKind,
    one: Node,
    two: Node,
)
    requires
        plain(before),
        is_tracker(directive),
        is_marker(first, kind, false),
        is_marker(second, kind, false),
        marker_path(first) == marker_path(second),
        loaded.len() >= 2,
        marker_tree(first, kind, loaded[0]) == Ok::<Node, DiagnosticView>(one),
        marker_tree(second, kind, loaded[1]) == Ok::<Node, DiagnosticView>(two),
    ensures
        ({
            let span = span_of(directive[2]);
            let path = marker_path(first);
            injected(before + directive + first + second, loaded) == InjectedView::Done(
                before + seq![
                    Node::Group {
                        delimiter: Delimiter::None,
                        children: declaration(0, path, span) + declaration(1, path, span),
                        span,
                    },
                    one,
                    two,
                ],
            )
        }),
        tracker_name(0) != tracker_name(1),
{
    let nodes = before + directive + first + second;
    let k = before.len() as int;
    let span = span_of(directive[2]);
    let path = marker_path(first);
    assert(nodes.subrange(0, k) =~= before);
    lemma_walk_to(nodes, before, loaded);
    let w0 = WalkView { out: before, ..start() };
    assert(nodes[k] == directive[0]);
    assert(nodes[k + 1] == directive[1]);
    assert(nodes[k + 2] == directive[2]);
    let w1 = tracker_started(w0, false, span);
    assert(scan_from(nodes, k, loaded, w0, false) == scan_from(nodes, k + 3, loaded, w1, false));
    assert(nodes.subrange(k + 3, k + 7) =~= first);
    lemma_marker_step(nodes, k + 3, first, loaded, w1, false, kind, one);
    let w2 = registered(WalkView { out: w1.out.push(one), cursor: 1, ..w1 }, path);
    assert(nodes.subrange(k + 7, k + 11) =~= second);
    lemma_marker_step(nodes, k + 7, second, loaded, w2, false, kind, two);
    let w3 = registered(WalkView { out: w2.out.push(two), cursor: 2, ..w2 }, path);
    assert(scan_from(nodes, k + 11, loaded, w3, false) == (Flow::Continue, finished(w3, false)));
    assert(w3.tracker->0.slot == k);
    assert(w3.tracker->0.data =~= declaration(0, path, span) + declaration(1, path, span));
    assert(finished(w3, false).out =~= before + seq![
        Node::Group {
            delimiter: Delimiter::None,
            children: declaration(0, path, span) + declaration(1, path, span),
            span,
        },
        one,
        two,
    ]);
    law_declaration_names_differ(0, 1);
}

/// A marker inside a group, under a tracker that was started outside the
/// group, gives its declaration to that tracker: the declaration stands
/// where the directive stood, and the group holds the marker's node.
pub proof fn law_nested_load_reaches_tracker(
    before: Seq<Node>,
    directive: Seq<Node>,
    marker: Seq<Node>,
    delimiter: Delimiter,
    group_span: Span,
    loaded: Seq<LoadedView>,
    kind: IncludeKind,
    tree: Node,
)
    requires
        plain(before),
        is_tracker(directive),
        is_marker(marker, kind, false),
        loaded.len() >= 1,
        marker_tree(marker, kind, loaded[0]) == Ok::<Node, DiagnosticView>(tree),
    ensures
        ({
            let span = span_of(directive[2]);
            let group = Node::Group { delimiter, children: marker, span: group_span };
            injected(before + directive + seq![group], loaded) == InjectedView::Done(
                before + seq![
                    Node::Group {
                        delimiter: Delimiter::None,
                        children: declaration(0, marker_path(marker), span),
                        span,
                    },
                    Node::Group { delimiter, children: seq![tree], span: group_span },
                ],
            )
        }),
{
    let span = span_of(directive[2]);
    let group = Node::Group { delimiter, children: marker, span: group_span };
    let nodes = before + directive + seq![group];
    let k = before.len() as int;
    assert(nodes.subrange(0, k) =~= before);
    lemma_walk_to(nodes, before, loaded);
    let w0 = WalkView { out: before, ..start() };
    assert(nodes[k] == directive[0]);
    assert(nodes[k + 1] == directive[1]);
    assert(nodes[k + 2] == directive[2]);
    let w1 = tracker_started(w0, false, span);
    assert(scan_from(nodes, k, loaded, w0, false) == scan_from(nodes, k + 3, loaded, w1, false));
    assert(nodes[k + 3] == group);
    let entered = WalkView { out: Seq::empty(), ..w1 };
    assert(marker.subrange(0, 4) =~= marker);
    lemma_marker_step(marker, 0, marker, loaded, entered, true, kind, tree);
    let inner = registered(
        WalkView { out: entered.out.push(tree), cursor: 1, ..entered },
        marker_path(marker),
    );
    assert(scan_from(marker, 4, loaded, inner, true) == (Flow::Continue, inner));
    assert(inner.out =~= seq![tree]);
    let w2 = WalkView {
        out: w1.out.push(Node::Group { delimiter, children: inner.out, span: group_span }),
        ..inner
    };
    assert(scan_from(nodes, k + 3, loaded, w1, false) == scan_from(nodes, k + 4, loaded, w2, false));
    assert(scan_from(nodes, k + 4, loaded, w2, false) == (Flow::Continue, finished(w2, false)));
    assert(w2.tracker->0.slot == k);
    assert(w2.tracker->0.data =~= declaration(0, marker_path(marker), span));
    assert(finished(w2, false).out =~= before + seq![
        Node::Group {
            delimiter: Delimiter::None,
            children: declaration(0, marker_path(marker), span),
            span,
        },
        Node::Group { delimiter, children: seq![tree], span: group_span },
    ]);
}

/// A break inside a group ends the scope around the group too: the group
/// goes to the output as far as it was walked, and the nodes behind it as
/// they are.
pub proof fn law_break_ends_enclosing_scope(
    nodes: Seq<Node>,
    i: int,
    loaded: Seq<LoadedView>,
    w: WalkView,
    inherited: bool,
)
    requires
        0 <= i < nodes.len(),
        nodes[i] is Group,
        scan_from(
            nodes[i]->Group_children,
            0,
            loaded,
            WalkView { out: Seq::empty(), ..w },
            w.tracker is Some,
        ).0 is Break,
    ensures
        ({
            let sub = scan_from(
                nodes[i]->Group_children,
                0,
                loaded,
                WalkView { out: Seq::empty(), ..w },
                w.tracker is Some,
            ).1;
            let rebuilt = Node::Group {
                delimiter: nodes[i]->Group_delimiter,
                children: sub.out,
                span: span_of(nodes[i]),
            };
            scan_from(nodes, i, loaded, w, inherited) == (
                Flow::Break,
                broken(nodes, i + 1, WalkView { out: w.out.push(rebuilt), ..sub }, inherited),
            )
        }),
{
}

/// An error inside a group, or a file that is needed there, is the error
/// or the need of the scope around the group: nothing behind it is walked.
pub proof fn law_failure_ends_enclosing_scope(
    nodes: Seq<Node>,
    i: int,
    loaded: Seq<LoadedView>,
    w: WalkView,
    inherited: bool,
)
    requires
        0 <= i < nodes.len(),
        nodes[i] is Group,
        ({
            let flow = scan_from(
                nodes[i]->Group_children,
                0,
                loaded,
                WalkView { out: Seq::empty(), ..w },
                w.tracker is Some,
            ).0;
            flow is Error || flow is Need
        }),
    ensures
        scan_from(nodes, i, loaded, w, inherited).0 == scan_from(
            nodes[i]->Group_children,
            0,
            loaded,
            WalkView { out: Seq::empty(), ..w },
            w.tracker is Some,
        ).0,
{
}

/// A step that does not ask for a file is the same step when more files
/// are loaded.
proof fn lemma_step_stable(
    nodes: Seq<Node>,
    i: int,
    loaded: Seq<LoadedView>,
    extra: Seq<LoadedView>,
    w: WalkView,
    inherited: bool,
)
    requires
        0 <= i < nodes.len(),
        !(leaf_step(nodes, i, loaded, w, inherited) matches Step::Stop { flow: Flow::Need(_), .. }),
    ensures
        leaf_step(nodes, i, loaded + extra, w, inherited) == leaf_step(
            nodes,
            i,
            loaded,
            w,
            inherited,
        ),
{
    if w.cursor < loaded.len() {
        assert((loaded + extra)[w.cursor as int] == loaded[w.cursor as int]);
    }
}

/// A walk that does not ask for a file is the same walk when more files
/// are loaded.
proof fn lemma_scan_stable(
    nodes: Seq<Node>,
    i: int,
    loaded: Seq<LoadedView>,
    extra: Seq<LoadedView>,
    w: WalkView,
    inherited: bool,
)
    requires
        !(scan_from(nodes, i, loaded, w, inherited).0 is Need),
    ensures
        scan_from(nodes, i, loaded + extra, w, inherited) == scan_from(
            nodes,
            i,
            loaded,
            w,
            inherited,
        ),
    decreases nodes, nodes.len() - i,
{
    if 0 <= i < nodes.len() {
        match nodes[i] {
            Node::Group { delimiter, children, span } => {
                let entered = WalkView { out: Seq::empty(), ..w };
                let (flow, sub) = scan_from(children, 0, loaded, entered, w.tracker is Some);
                lemma_scan_stable(children, 0, loaded, extra, entered, w.tracker is Some);
                if flow is Continue {
                    let after = WalkView {
                        out: w.out.push(Node::Group { delimiter, children: sub.out, span }),
                        ..sub
                    };
                    lemma_scan_stable(nodes, i + 1, loaded, extra, after, inherited);
                }
            },
            _ => {
                lemma_step_stable(nodes, i, loaded, extra, w, inherited);
                match leaf_step(nodes, i, loaded, w, inherited) {
                    Step::Next { skip, walk } => {
                        lemma_scan_stable(nodes, i + 1 + skip, loaded, extra, walk, inherited);
                    },
                    Step::Stop { .. } => {},
                }
            },
        }
    }
}

/// Once the walk has come to its end or to its error with the files that
/// are loaded, more loaded files change nothing: files are used in the
/// order of the markers, and none beyond the last marker.
pub proof fn law_loaded_files_decide(
    nodes: Seq<Node>,
    loaded: Seq<LoadedView>,
    extra: Seq<LoadedView>,
)
    requires
        !(injected(nodes, loaded) is Need),
    ensures
        injected(nodes, loaded + extra) == injected(nodes, loaded),
{
    lemma_scan_stable(nodes, 0, loaded, extra, start(), false);
}

/// The names of the directives: `break` and `BREAK` end the walk before a
/// `;`, `AS_IS` before a `:`, and `POINT_TRACKER_FILES` starts a tracker.
pub proof fn law_directive_names()
    ensures
        macro_name("break"@) == Some(MacroName::Break),
        macro_name("BREAK"@) == Some(MacroName::Break),
        macro_name("AS_IS"@) == Some(MacroName::AsIs),
        macro_name("POINT_TRACKER_FILES"@) == Some(MacroName::PointTrackerFiles),
{
    lemma_names();
}

/// The names of the markers, by kind; the short names have no form that
/// ends the walk.
pub proof fn law_marker_names()
    ensures
        macro_name("include"@) == Some(
            MacroName::Include { kind: IncludeKind::Tt, and_break: false },
        ),
        macro_name("tt"@) == Some(MacroName::Include { kind: IncludeKind::Tt, and_break: false }),
        macro_name("ctt"@) == Some(
            MacroName::Include { kind: IncludeKind::Ctt, and_break: false },
        ),
        macro_name("include_str"@) == Some(
            MacroName::Include { kind: IncludeKind::Str, and_break: false },
        ),
        macro_name("str"@) == Some(MacroName::Include { kind: IncludeKind::Str, and_break: false }),
        macro_name("include_arr"@) == Some(
            MacroName::Include { kind: IncludeKind::Arr, and_break: false },
        ),
        macro_name("arr"@) == Some(MacroName::Include { kind: IncludeKind::Arr, and_break: false }),
        macro_name("array"@) == Some(
            MacroName::Include { kind: IncludeKind::Arr, and_break: false },
        ),
        macro_name("include_and_break"@) == Some(
            MacroName::Include { kind: IncludeKind::Tt, and_break: true },
        ),
        macro_name("include_str_and_break"@) == Some(
            MacroName::Include { kind: IncludeKind::Str, and_break: true },
        ),
        macro_name("include_arr_and_break"@) == Some(
            MacroName::Include { kind: IncludeKind::Arr, and_break: true },
        ),
{
    lemma_names();
}

/// The lengths of the names of the vocabulary, and the characters by which
/// names of one length differ.
proof fn lemma_names()
    ensures
        "include"@.len() == 7,
        "include_tt"@.len() == 10,
        "tt"@.len() == 2,
        "include_and_break"@.len() == 17,
        "include_tt_and_break"@.len() == 20,
        "include_and_fix_unknown_start_token"@.len() == 35,
        "include_tt_and_fix_unknown_start_token"@.len() == 38,
        "ctt"@.len() == 3,
        "include_and_fix_unknown_start_token_and_break"@.len() == 45,
        "include_tt_and_fix_unknown_start_token_and_break"@.len() == 48,
        "include_str"@.len() == 11,
        "str"@.len() == 3,
        "include_str_and_break"@.len() == 21,
        "include_arr"@.len() == 11,
        "arr"@.len() == 3,
        "array"@.len() == 5,
        "include_arr_and_break"@.len() == 21,
        "POINT_TRACKER_FILES"@.len() == 19,
        "break"@.len() == 5,
        "BREAK"@.len() == 5,
        "AS_IS"@.len() == 5,
        "ctt"@[0] == 'c',
        "str"@[0] == 's',
        "arr"@[0] == 'a',
        "include_str"@[8] == 's',
        "include_arr"@[8] == 'a',
        "include_str_and_break"@[8] == 's',
        "include_arr_and_break"@[8] == 'a',
        "array"@[0] == 'a',
        "break"@[0] == 'b',
        "BREAK"@[0] == 'B',
        "AS_IS"@[0] == 'A',
{
    reveal_strlit("include");
    reveal_strlit("include_tt");
    reveal_strlit("tt");
    reveal_strlit("include_and_break");
    reveal_strlit("include_tt_and_break");
    reveal_strlit("include_and_fix_unknown_start_token");
    reveal_strlit("include_tt_and_fix_unknown_start_token");
    reveal_strlit("ctt");
    reveal_strlit("include_and_fix_unknown_start_token_and_break");
    reveal_strlit("include_tt_and_fix_unknown_start_token_and_break");
    reveal_strlit("include_str");
    reveal_strlit("str");
    reveal_strlit("include_str_and_break");
    reveal_strlit("include_arr");
    reveal_strlit("arr");
    reveal_strlit("array");
    reveal_strlit("include_arr_and_break");
    reveal_strlit("POINT_TRACKER_FILES");
    reveal_strlit("break");
    reveal_strlit("BREAK");
    reveal_strlit("AS_IS");
}

} // verus!
