//! The walk over the tree: markers are found, worked out and replaced, in
//! source order and depth first.

use crate::loader::{loaded_views, IncludeKind, Loaded, LoadedView, Request, RequestView};
use crate::node::{
    clone_nodes_from, lemma_group_view, lemma_views_add, lemma_views_push, lemma_views_update,
    span_of, views, Group, Node, SyntaxNode,
};
use crate::null::{make_null_group, null_group};
use crate::result::{throw_sg_err, Diagnostic, DiagnosticView};
use crate::rules::{
    included, macro_rule_include, next_view, IncludeArr, IncludeStr, IncludeTT,
    IncludeTTAndFixUnkStartToken, Included, IncludedView,
};
use crate::text::is_text;
use crate::track::{declaration, tracker_group, PointTrack, PointTrackView};
use proc_macro2::Span;
use vstd::prelude::*;

verus! {

/// The message for a name after `#` that is no macro of this library.
pub const UNKNOWN_MACRO: &'static str =
    "Unknown macro, expected `include`, `include_tt`, `include_and_fix_unknown_start_token`, `include_tt_and_fix_unknown_start_token`, `include_str`, `include_arr`, `include_and_break`, `include_tt_and_break`, `include_and_fix_unknown_start_token_and_break`, `include_tt_and_fix_unknown_start_token_and_break`, `include_str_and_break`, `include_arr_and_break`.";

/// The message for a directive that lacks its colon.
pub const COLON_EXPECTED: &'static str = "`:` was expected.";

/// The message for a directive that lacks its semicolon.
pub const SEMICOLON_EXPECTED: &'static str = "`;` was expected.";

/// The message for a marker that lacks its argument list.
pub const GROUP_EXPECTED: &'static str =
    "A group with the path was expected, as in `#include!(\"path\")`.";

/// What a name after `#` asks for.
#[derive(Debug, Clone, Copy, PartialEq, Eq, Structural)]
pub enum MacroName {
    /// A marker that splices in a file; with `and_break` the walk ends
    /// after it.
    Include { kind: IncludeKind, and_break: bool },
    /// `POINT_TRACKER_FILES:` starts the tracking of the files read.
    PointTrackerFiles,
    /// `break;` or `BREAK;` ends the walk.
    Break,
    /// `AS_IS:` ends the walk.
    AsIs,
}

/// The macro that a name stands for, if any.
pub open spec fn macro_name(name: Seq<char>) -> Option<MacroName> {
    if name == "include"@ || name == "include_tt"@ || name == "tt"@ {
        Some(MacroName::Include { kind: IncludeKind::Tt, and_break: false })
    } else if name == "include_and_break"@ || name == "include_tt_and_break"@ {
        Some(MacroName::Include { kind: IncludeKind::Tt, and_break: true })
    } else if name == "include_and_fix_unknown_start_token"@ || name
        == "include_tt_and_fix_unknown_start_token"@ || name == "ctt"@ {
        Some(MacroName::Include { kind: IncludeKind::Ctt, and_break: false })
    } else if name == "include_and_fix_unknown_start_token_and_break"@ || name
        == "include_tt_and_fix_unknown_start_token_and_break"@ {
        Some(MacroName::Include { kind: IncludeKind::Ctt, and_break: true })
    } else if name == "include_str"@ || name == "str"@ {
        Some(MacroName::Include { kind: IncludeKind::Str, and_break: false })
    } else if name == "include_str_and_break"@ {
        Some(MacroName::Include { kind: IncludeKind::Str, and_break: true })
    } else if name == "include_arr"@ || name == "arr"@ || name == "array"@ {
        Some(MacroName::Include { kind: IncludeKind::Arr, and_break: false })
    } else if name == "include_arr_and_break"@ {
        Some(MacroName::Include { kind: IncludeKind::Arr, and_break: true })
    } else if name == "POINT_TRACKER_FILES"@ {
        Some(MacroName::PointTrackerFiles)
    } else if name == "break"@ || name == "BREAK"@ {
        Some(MacroName::Break)
    } else if name == "AS_IS"@ {
        Some(MacroName::AsIs)
    } else {
        None
    }
}

/// The macro that a name stands for, if any.
pub fn find_macro_name(name: &String) -> (r: Option<MacroName>)
    ensures
        r == macro_name(name@),
{
    if is_text(name, "include") || is_text(name, "include_tt") || is_text(name, "tt") {
        Some(MacroName::Include { kind: IncludeKind::Tt, and_break: false })
    } else if is_text(name, "include_and_break") || is_text(name, "include_tt_and_break") {
        Some(MacroName::Include { kind: IncludeKind::Tt, and_break: true })
    } else if is_text(name, "include_and_fix_unknown_start_token") || is_text(
        name,
        "include_tt_and_fix_unknown_start_token",
    ) || is_text(name, "ctt") {
        Some(MacroName::Include { kind: IncludeKind::Ctt, and_break: false })
    } else if is_text(name, "include_and_fix_unknown_start_token_and_break") || is_text(
        name,
        "include_tt_and_fix_unknown_start_token_and_break",
    ) {
        Some(MacroName::Include { kind: IncludeKind::Ctt, and_break: true })
    } else if is_text(name, "include_str") || is_text(name, "str") {
        Some(MacroName::Include { kind: IncludeKind::Str, and_break: false })
    } else if is_text(name, "include_str_and_break") {
        Some(MacroName::Include { kind: IncludeKind::Str, and_break: true })
    } else if is_text(name, "include_arr") || is_text(name, "arr") || is_text(name, "array") {
        Some(MacroName::Include { kind: IncludeKind::Arr, and_break: false })
    } else if is_text(name, "include_arr_and_break") {
        Some(MacroName::Include { kind: IncludeKind::Arr, and_break: true })
    } else if is_text(name, "POINT_TRACKER_FILES") {
        Some(MacroName::PointTrackerFiles)
    } else if is_text(name, "break") || is_text(name, "BREAK") {
        Some(MacroName::Break)
    } else if is_text(name, "AS_IS") {
        Some(MacroName::AsIs)
    } else {
        None
    }
}

/// How the walk of one scope ended.
#[derive(Debug)]
pub enum SearchGroup {
    /// The scope was walked to its end.
    Continue,
    /// A directive ended the whole walk; what came after it is untouched.
    Break,
    /// The walk failed and the whole tree is given up.
    Error(Diagnostic),
    /// The walk cannot go on before this file is loaded.
    Need(Request),
}

/// The mathematical value of a [`SearchGroup`].
pub ghost enum Flow {
    Continue,
    Break,
    Error(DiagnosticView),
    Need(RequestView),
}

impl View for SearchGroup {
    type V = Flow;

    open spec fn view(&self) -> Flow {
        match self {
            SearchGroup::Continue => Flow::Continue,
            SearchGroup::Break => Flow::Break,
            SearchGroup::Error(d) => Flow::Error(d@),
            SearchGroup::Need(request) => Flow::Need(request@),
        }
    }
}

/// What the walk carries along: the output of the scope that is walked, how
/// many loaded files have been used, how many declarations have been made,
/// and the tracker that is active, if any.
#[derive(Debug)]
pub struct Walk {
    pub out: Vec<SyntaxNode>,
    pub cursor: usize,
    pub globalposnum: usize,
    pub point_track_file: Option<PointTrack>,
}

/// The mathematical value of a [`Walk`].
pub ghost struct WalkView {
    pub out: Seq<Node>,
    pub cursor: nat,
    pub globalposnum: nat,
    pub tracker: Option<PointTrackView>,
}

impl View for Walk {
    type V = WalkView;

    open spec fn view(&self) -> WalkView {
        WalkView {
            out: views(self.out@),
            cursor: self.cursor as nat,
            globalposnum: self.globalposnum as nat,
            tracker: match self.point_track_file {
                Some(t) => Some(t@),
                None => None,
            },
        }
    }
}

/// The walk before its first step.
pub open spec fn start() -> WalkView {
    WalkView { out: Seq::empty(), cursor: 0, globalposnum: 0, tracker: None }
}

/// A walk's numbers are in order: no more declarations than files used, no
/// more files used than there are; a tracker that came from an enclosing
/// scope is still there, and one of this scope points into its output.
pub open spec fn wf(w: WalkView, inherited: bool, files: nat) -> bool {
    &&& w.globalposnum <= w.cursor <= files
    &&& inherited ==> w.tracker is Some
    &&& !inherited && w.tracker is Some ==> 0 <= w.tracker->0.slot < w.out.len()
}

/// The walk as it leaves a scope: a tracker that the scope declared puts its
/// group where the directive stood, and is gone.
pub open spec fn finished(w: WalkView, inherited: bool) -> WalkView {
    if inherited {
        w
    } else {
        match w.tracker {
            Some(t) => WalkView { out: w.out.update(t.slot, tracker_group(t)), tracker: None, ..w },
            None => w,
        }
    }
}

/// The walk as it leaves a scope after a break: the nodes from `from` on
/// go to the output as they are.
pub open spec fn broken(nodes: Seq<Node>, from: int, w: WalkView, inherited: bool) -> WalkView {
    finished(WalkView { out: w.out + nodes.subrange(from, nodes.len() as int), ..w }, inherited)
}

/// The walk after a `POINT_TRACKER_FILES:` directive at the given place.
///
/// Under a tracker of an enclosing scope the directive leaves an inert
/// group and that tracker goes on. Otherwise a tracker of this scope, if
/// there is one, is finished, and a new one starts at the directive.
pub open spec fn tracker_started(w: WalkView, inherited: bool, span: Span) -> WalkView {
    if inherited {
        WalkView { out: w.out.push(null_group(span)), ..w }
    } else {
        let f = finished(w, false);
        WalkView {
            out: f.out.push(null_group(span)),
            tracker: Some(PointTrackView { slot: f.out.len() as int, span, data: Seq::empty() }),
            ..f
        }
    }
}

/// The walk after a file was loaded: the active tracker, if any, gets the
/// declaration with the next number.
pub open spec fn registered(w: WalkView, path: Seq<char>) -> WalkView {
    match w.tracker {
        Some(t) => WalkView {
            tracker: Some(
                PointTrackView { data: t.data + declaration(w.globalposnum, path, t.span), ..t },
            ),
            globalposnum: w.globalposnum + 1,
            ..w
        },
        None => w,
    }
}

/// Whether the punctuation `c` stands at position `i`.
pub open spec fn is_punct(nodes: Seq<Node>, i: int, c: char) -> bool {
    0 <= i < nodes.len() && nodes[i] is Punct && nodes[i]->Punct_ch == c
}

/// The loaded file whose turn it is.
pub open spec fn next_loaded(loaded: Seq<LoadedView>, cursor: nat) -> Option<LoadedView> {
    if cursor < loaded.len() {
        Some(loaded[cursor as int])
    } else {
        None
    }
}

/// One step of the walk at a node that is no group.
pub ghost enum Step {
    /// The walk goes on `skip` nodes after the next one.
    Next { skip: nat, walk: WalkView },
    /// The walk of the scope ends here.
    Stop { flow: Flow, walk: WalkView },
}

/// The step after a marker was replaced at position `at`: the walk goes on
/// behind it, or ends where the marker asks for a break.
pub open spec fn settled(
    nodes: Seq<Node>,
    i: int,
    at: int,
    walk: WalkView,
    and_break: bool,
    inherited: bool,
) -> Step {
    if and_break {
        Step::Stop { flow: Flow::Break, walk: broken(nodes, at + 1, walk, inherited) }
    } else {
        Step::Next { skip: (at - i) as nat, walk }
    }
}

/// The step at position `i`, where no group stands.
///
/// A `#` before a name is a macro: an unknown name is an error. `break;`,
/// `BREAK;` and `AS_IS:` vanish and end the walk, `POINT_TRACKER_FILES:`
/// starts a tracker, and each needs its closing punctuation. A marker takes
/// an optional `!` and then its argument list, and is replaced by what
/// [`included`] makes of it. Every other node, a `#` without a name after it
/// too, goes to the output as it is.
pub open spec fn leaf_step(
    nodes: Seq<Node>,
    i: int,
    loaded: Seq<LoadedView>,
    w: WalkView,
    inherited: bool,
) -> Step {
    if is_punct(nodes, i, '#') && i + 1 < nodes.len() && nodes[i + 1] is Ident {
        let name_span = span_of(nodes[i + 1]);
        match macro_name(nodes[i + 1]->Ident_text) {
            None => Step::Stop {
                flow: Flow::Error(DiagnosticView { message: UNKNOWN_MACRO@, span: name_span }),
                walk: w,
            },
            Some(MacroName::AsIs) => if is_punct(nodes, i + 2, ':') {
                Step::Stop { flow: Flow::Break, walk: broken(nodes, i + 3, w, inherited) }
            } else {
                Step::Stop {
                    flow: Flow::Error(DiagnosticView { message: COLON_EXPECTED@, span: name_span }),
                    walk: w,
                }
            },
            Some(MacroName::Break) => if is_punct(nodes, i + 2, ';') {
                Step::Stop { flow: Flow::Break, walk: broken(nodes, i + 3, w, inherited) }
            } else {
                Step::Stop {
                    flow: Flow::Error(
                        DiagnosticView { message: SEMICOLON_EXPECTED@, span: name_span },
                    ),
                    walk: w,
                }
            },
            Some(MacroName::PointTrackerFiles) => if is_punct(nodes, i + 2, ':') {
                Step::Next { skip: 2, walk: tracker_started(w, inherited, span_of(nodes[i + 2])) }
            } else {
                Step::Stop {
                    flow: Flow::Error(DiagnosticView { message: COLON_EXPECTED@, span: name_span }),
                    walk: w,
                }
            },
            Some(MacroName::Include { kind, and_break }) => {
                let at = if is_punct(nodes, i + 2, '!') {
                    i + 3
                } else {
                    i + 2
                };
                if at < nodes.len() && nodes[at] is Group {
                    match included(kind, nodes[at], next_loaded(loaded, w.cursor)) {
                        IncludedView::Default(tree) => settled(
                            nodes,
                            i,
                            at,
                            WalkView { out: w.out.push(tree), ..w },
                            and_break,
                            inherited,
                        ),
                        IncludedView::Loaded { tree, path } => settled(
                            nodes,
                            i,
                            at,
                            registered(
                                WalkView { out: w.out.push(tree), cursor: w.cursor + 1, ..w },
                                path,
                            ),
                            and_break,
                            inherited,
                        ),
                        IncludedView::Failed(d) => Step::Stop { flow: Flow::Error(d), walk: w },
                        IncludedView::Need(request) => Step::Stop {
                            flow: Flow::Need(request),
                            walk: w,
                        },
                    }
                } else {
                    Step::Stop {
                        flow: Flow::Error(
                            DiagnosticView { message: GROUP_EXPECTED@, span: name_span },
                        ),
                        walk: w,
                    }
                }
            },
        }
    } else {
        Step::Next { skip: 0, walk: WalkView { out: w.out.push(nodes[i]), ..w } }
    }
}

/// The walk of one scope from position `i` on.
///
/// A group is walked first, as a scope of its own under the tracker that is
/// active, and goes to the output rebuilt; a break or a failure inside it
/// ends this scope too. Other nodes take a [`leaf_step`]. At the end of the
/// scope the walk is [`finished`]. Where the walk fails or needs a file, it
/// is handed back as it stood there.
pub open spec fn scan_from(
    nodes: Seq<Node>,
    i: int,
    loaded: Seq<LoadedView>,
    w: WalkView,
    inherited: bool,
) -> (Flow, WalkView)
    decreases nodes, nodes.len() - i,
{
    if i < 0 || i >= nodes.len() {
        (Flow::Continue, finished(w, inherited))
    } else {
        match nodes[i] {
            Node::Group { delimiter, children, span } => {
                let (flow, sub) = scan_from(
                    children,
                    0,
                    loaded,
                    WalkView { out: Seq::empty(), ..w },
                    w.tracker is Some,
                );
                let after = WalkView {
                    out: w.out.push(Node::Group { delimiter, children: sub.out, span }),
                    ..sub
                };
                match flow {
                    Flow::Continue => scan_from(nodes, i + 1, loaded, after, inherited),
                    Flow::Break => (Flow::Break, broken(nodes, i + 1, after, inherited)),
                    _ => (flow, sub),
                }
            },
            _ => match leaf_step(nodes, i, loaded, w, inherited) {
                Step::Next { skip, walk } => scan_from(nodes, i + 1 + skip, loaded, walk, inherited),
                Step::Stop { flow, walk } => (flow, walk),
            },
        }
    }
}

/// The walk of one scope.
pub open spec fn scan(nodes: Seq<Node>, loaded: Seq<LoadedView>, w: WalkView) -> (Flow, WalkView) {
    scan_from(nodes, 0, loaded, w, w.tracker is Some)
}

impl Walk {
    /// The walk before its first step.
    pub fn new() -> (w: Self)
        ensures
            w@ == start(),
    {
        let w = Walk { out: Vec::new(), cursor: 0, globalposnum: 0, point_track_file: None };
        assert(views(w.out@) =~= Seq::<Node>::empty());
        w
    }

    fn push(self, node: SyntaxNode) -> (r: Self)
        ensures
            r@ == (WalkView { out: self@.out.push(node@), ..self@ }),
    {
        let mut w = self;
        proof {
            lemma_views_push(w.out@, node);
        }
        w.out.push(node);
        w
    }

    fn finish(self, inherited: bool) -> (r: Self)
        requires
            !inherited && self@.tracker is Some ==> 0 <= self@.tracker->0.slot < self@.out.len(),
        ensures
            r@ == finished(self@, inherited),
    {
        if inherited {
            return self;
        }
        let Walk { out, cursor, globalposnum, point_track_file } = self;
        match point_track_file {
            Some(t) => {
                let mut out = out;
                let slot = t.slot;
                let group = t.into_token_tree2();
                proof {
                    lemma_views_update(out@, slot as int, group);
                }
                out.set(slot, group);
                Walk { out, cursor, globalposnum, point_track_file: None }
            },
            None => Walk { out, cursor, globalposnum, point_track_file: None },
        }
    }

    fn break_off(self, nodes: &Vec<SyntaxNode>, from: usize, inherited: bool) -> (r: Self)
        requires
            from <= nodes.len(),
            !inherited && self@.tracker is Some ==> 0 <= self@.tracker->0.slot < self@.out.len(),
        ensures
            r@ == broken(views(nodes@), from as int, self@, inherited),
    {
        let mut w = self;
        let mut rest = clone_nodes_from(nodes, from);
        proof {
            lemma_views_add(w.out@, rest@);
        }
        w.out.append(&mut rest);
        w.finish(inherited)
    }

    fn track(self, inherited: bool, span: Span) -> (r: Self)
        requires
            !inherited && self@.tracker is Some ==> 0 <= self@.tracker->0.slot < self@.out.len(),
        ensures
            r@ == tracker_started(self@, inherited, span),
    {
        if inherited {
            self.push(make_null_group(span))
        } else {
            let mut w = self.finish(false);
            let slot = w.out.len();
            w = w.push(make_null_group(span));
            w.point_track_file = Some(PointTrack::new(slot, span));
            w
        }
    }

    fn register(self, path: &str) -> (r: Self)
        requires
            self@.globalposnum < usize::MAX,
        ensures
            r@ == registered(self@, path@),
    {
        let Walk { out, cursor, globalposnum, point_track_file } = self;
        match point_track_file {
            Some(t) => {
                let mut t = t;
                t.append_track_file(globalposnum, path);
                Walk { out, cursor, globalposnum: globalposnum + 1, point_track_file: Some(t) }
            },
            None => Walk { out, cursor, globalposnum, point_track_file: None },
        }
    }
}

/// A walk at the end of its scope: no tracker but one of an enclosing
/// scope is left.
pub open spec fn wf_done(w: WalkView, inherited: bool, files: nat) -> bool {
    &&& w.globalposnum <= w.cursor <= files
    &&& inherited <==> w.tracker is Some
}

enum Stepped {
    Next { skip: usize, walk: Walk },
    Stop { flow: SearchGroup, walk: Walk },
}

spec fn agrees(r: Stepped, step: Step, before: WalkView, inherited: bool, files: nat) -> bool {
    match step {
        Step::Next { skip, walk } => r matches Stepped::Next { skip: s, walk: w } && s == skip
            && w@ == walk && wf(walk, inherited, files) && same_slot(before, walk, inherited),
        Step::Stop { flow, walk } => r matches Stepped::Stop { flow: f, walk: w } && f@ == flow
            && w@ == walk && (flow is Break ==> wf_done(walk, inherited, files) && same_slot(
            before,
            walk,
            inherited,
        )),
    }
}

/// Under a tracker of an enclosing scope, that tracker keeps its place.
pub open spec fn same_slot(before: WalkView, after: WalkView, inherited: bool) -> bool {
    inherited ==> before.tracker is Some && after.tracker is Some && after.tracker->0.slot
        == before.tracker->0.slot
}

fn punct_at(nodes: &Vec<SyntaxNode>, j: usize, c: char) -> (r: bool)
    ensures
        r == is_punct(views(nodes@), j as int, c),
{
    if j < nodes.len() {
        match &nodes[j] {
            SyntaxNode::Punct { ch, .. } => *ch == c,
            _ => false,
        }
    } else {
        false
    }
}

fn include_by_kind(kind: IncludeKind, group: &Group, next: Option<&Loaded>) -> (r: Included)
    ensures
        r@ == included(kind, group@, next_view(next)),
{
    match kind {
        IncludeKind::Tt => macro_rule_include::<IncludeTT>(group, next),
        IncludeKind::Ctt => macro_rule_include::<IncludeTTAndFixUnkStartToken>(group, next),
        IncludeKind::Str => macro_rule_include::<IncludeStr>(group, next),
        IncludeKind::Arr => macro_rule_include::<IncludeArr>(group, next),
    }
}

fn settle(
    nodes: &Vec<SyntaxNode>,
    i: usize,
    at: usize,
    walk: Walk,
    and_break: bool,
    inherited: bool,
    Ghost(files): Ghost<nat>,
    Ghost(before): Ghost<WalkView>,
) -> (r: Stepped)
    requires
        i < at < nodes.len(),
        wf(walk@, inherited, files),
        same_slot(before, walk@, inherited),
    ensures
        agrees(
            r,
            settled(views(nodes@), i as int, at as int, walk@, and_break, inherited),
            before,
            inherited,
            files,
        ),
{
    if and_break {
        Stepped::Stop { flow: SearchGroup::Break, walk: walk.break_off(nodes, at + 1, inherited) }
    } else {
        Stepped::Next { skip: at - i, walk }
    }
}

fn failed(span: Span, message: &str, walk: Walk) -> (r: Stepped)
    ensures
        r matches Stepped::Stop { flow, walk: w } && flow@ == Flow::Error(
            DiagnosticView { message: message@, span },
        ) && w@ == walk@,
{
    Stepped::Stop { flow: SearchGroup::Error(throw_sg_err(span, message)), walk }
}

/// One step of the walk at a node that is no group: see [`leaf_step`].
fn marker_step(
    nodes: &Vec<SyntaxNode>,
    i: usize,
    loaded: &Vec<Loaded>,
    w: Walk,
    inherited: bool,
) -> (r: Stepped)
    requires
        i < nodes.len(),
        wf(w@, inherited, loaded.len() as nat),
    ensures
        agrees(
            r,
            leaf_step(views(nodes@), i as int, loaded_views(loaded@), w@, inherited),
            w@,
            inherited,
            loaded.len() as nat,
        ),
        r matches Stepped::Next { skip, .. } ==> i + 1 + skip <= nodes.len(),
{
    let ghost files = loaded.len() as nat;
    let ghost before = w@;
    if !(punct_at(nodes, i, '#') && i + 1 < nodes.len()) {
        return Stepped::Next { skip: 0, walk: w.push(nodes[i].clone()) };
    }
    let (name, name_span) = match &nodes[i + 1] {
        SyntaxNode::Ident { text, span } => (text, *span),
        _ => {
            return Stepped::Next { skip: 0, walk: w.push(nodes[i].clone()) };
        },
    };
    match find_macro_name(name) {
        None => failed(name_span, UNKNOWN_MACRO, w),
        Some(MacroName::AsIs) => {
            if punct_at(nodes, i + 2, ':') {
                Stepped::Stop {
                    flow: SearchGroup::Break,
                    walk: w.break_off(nodes, i + 3, inherited),
                }
            } else {
                failed(name_span, COLON_EXPECTED, w)
            }
        },
        Some(MacroName::Break) => {
            if punct_at(nodes, i + 2, ';') {
                Stepped::Stop {
                    flow: SearchGroup::Break,
                    walk: w.break_off(nodes, i + 3, inherited),
                }
            } else {
                failed(name_span, SEMICOLON_EXPECTED, w)
            }
        },
        Some(MacroName::PointTrackerFiles) => {
            if punct_at(nodes, i + 2, ':') {
                Stepped::Next { skip: 2, walk: w.track(inherited, nodes[i + 2].span()) }
            } else {
                failed(name_span, COLON_EXPECTED, w)
            }
        },
        Some(MacroName::Include { kind, and_break }) => {
            let at = if punct_at(nodes, i + 2, '!') {
                i + 3
            } else {
                i + 2
            };
            if at >= nodes.len() {
                return failed(name_span, GROUP_EXPECTED, w);
            }
            match &nodes[at] {
                SyntaxNode::Group(group) => {
                    proof {
                        lemma_group_view(*group);
                    }
                    let next = if w.cursor < loaded.len() {
                        Some(&loaded[w.cursor])
                    } else {
                        None
                    };
                    match include_by_kind(kind, group, next) {
                        Included::Default(tree) => settle(
                            nodes,
                            i,
                            at,
                            w.push(tree),
                            and_break,
                            inherited,
                            Ghost(files),
                            Ghost(before),
                        ),
                        Included::Loaded { tree, path } => {
                            let mut w = w.push(tree);
                            w.cursor = w.cursor + 1;
                            let w = w.register(path.as_str());
                            settle(nodes, i, at, w, and_break, inherited, Ghost(files), Ghost(before))
                        },
                        Included::Failed(d) => Stepped::Stop { flow: SearchGroup::Error(d), walk: w },
                        Included::Need(request) => Stepped::Stop {
                            flow: SearchGroup::Need(request),
                            walk: w,
                        },
                    }
                },
                _ => failed(name_span, GROUP_EXPECTED, w),
            }
        },
    }
}

/// Walks one scope: finds the macros in `nodes`, works each out and puts
/// what it stands for in its place. See [`scan`].
pub fn search_include_and_replacegroup(
    nodes: &Vec<SyntaxNode>,
    loaded: &Vec<Loaded>,
    walk: Walk,
) -> (r: (SearchGroup, Walk))
    requires
        wf(walk@, walk@.tracker is Some, loaded.len() as nat),
    ensures
        (r.0@, r.1@) == scan(views(nodes@), loaded_views(loaded@), walk@),
        r.0 is Continue || r.0 is Break ==> wf_done(
            r.1@,
            walk@.tracker is Some,
            loaded.len() as nat,
        ) && same_slot(walk@, r.1@, walk@.tracker is Some),
    decreases nodes,
{
    let ghost ns = views(nodes@);
    let ghost ls = loaded_views(loaded@);
    let ghost files = loaded.len() as nat;
    let ghost total = scan(ns, ls, walk@);
    let ghost first = walk@;
    let inherited = walk.point_track_file.is_some();
    let mut w = walk;
    let mut i: usize = 0;
    while i < nodes.len()
        invariant
            i <= nodes.len(),
            ns == views(nodes@),
            ls == loaded_views(loaded@),
            files == loaded.len(),
            first == walk@,
            inherited == (first.tracker is Some),
            total == scan(ns, ls, first),
            wf(w@, inherited, files),
            same_slot(first, w@, inherited),
            scan_from(ns, i as int, ls, w@, inherited) == total,
        decreases nodes.len() - i,
    {
        match &nodes[i] {
            SyntaxNode::Group(group) => {
                proof {
                    lemma_group_view(*group);
                }
                let Walk { out, cursor, globalposnum, point_track_file } = w;
                let sub = Walk { out: Vec::new(), cursor, globalposnum, point_track_file };
                assert(views(sub.out@) =~= Seq::<Node>::empty());
                let (flow, sub) = search_include_and_replacegroup(&group.children, loaded, sub);
                let ends = match flow {
                    SearchGroup::Continue => false,
                    SearchGroup::Break => true,
                    other => {
                        return (other, sub);
                    },
                };
                let Walk { out: children, cursor, globalposnum, point_track_file } = sub;
                let rebuilt = Group { delimiter: group.delimiter, children, span: group.span };
                proof {
                    lemma_group_view(rebuilt);
                }
                let after = Walk { out, cursor, globalposnum, point_track_file }.push(
                    SyntaxNode::Group(rebuilt),
                );
                if ends {
                    return (SearchGroup::Break, after.break_off(nodes, i + 1, inherited));
                }
                w = after;
                i += 1;
            },
            _ => {
                match marker_step(nodes, i, loaded, w, inherited) {
                    Stepped::Next { skip, walk } => {
                        w = walk;
                        i = i + 1 + skip;
                    },
                    Stepped::Stop { flow, walk } => {
                        return (flow, walk);
                    },
                }
            },
        }
    }
    (SearchGroup::Continue, w.finish(inherited))
}

} // verus!
