//! The four markers and what each makes of its argument and of its file.

use crate::group::{group_stringified, group_stringify};
use crate::literal::{literal_error_message, unquoted, ExprLit, ExprLitTryNewErr};
use crate::loader::{
    load_error_message, IncludeKind, Loaded, LoadedView, Request, RequestView,
};
use crate::node::{clone_nodes_from, lemma_group_view, span_of, views, Group, Node, SyntaxNode};
use crate::null::{make_null_group, null_group};
use crate::result::{throw_sg_err, Diagnostic, DiagnosticView, TreeResult};
use crate::stream::{
    byte_string_literal, byte_string_literal_text, string_literal, string_literal_text,
};
use proc_macro2::{Delimiter, Span};
use vstd::prelude::*;

verus! {

/// The message for a marker with more than one argument.
pub const STRAY_ARGUMENT: &'static str =
    "Specify a valid path to the file written with `\"/Test.tt\"`, or `'T'`, or use a group of different trees `[/, \"Test\", '/']`.";

/// The message for a marker whose argument is neither a literal nor a
/// group.
pub const PATH_EXPECTED: &'static str =
    "The path was expected as a single string (example: \"../test.tt\") or a path formatted as separate TokenTrees (example: ['.' '.' test \".tt\"]).";

/// The message for a marker that is handed the content of another kind of
/// marker.
pub const CONTENT_MISMATCH: &'static str = "The file was loaded for a macro of another kind.";

/// The argument of a marker: a path, written as one literal or spelled by a
/// group of tokens.
#[derive(Debug)]
pub enum BehMacroArg0 {
    /// The source text of a literal, quotes included.
    ExpMakeExprLit(String),
    /// The text that a group of tokens spells.
    Stringify(String),
}

impl BehMacroArg0 {
    /// The path that the argument denotes. A literal is unwrapped; spelled
    /// text is the path as it is. Backslashes are never unshielded.
    pub open spec fn path(&self) -> Result<Seq<char>, ExprLitTryNewErr> {
        match self {
            BehMacroArg0::Stringify(a) => Ok(a@),
            BehMacroArg0::ExpMakeExprLit(a) => unquoted(a@),
        }
    }

    /// The path that the argument denotes.
    pub fn get_str(&self) -> (r: Result<String, ExprLitTryNewErr>)
        ensures
            match r {
                Ok(p) => self.path() == Ok::<Seq<char>, ExprLitTryNewErr>(p@),
                Err(e) => self.path() == Err::<Seq<char>, ExprLitTryNewErr>(e),
            },
    {
        match self {
            BehMacroArg0::Stringify(a) => Ok(a.clone()),
            BehMacroArg0::ExpMakeExprLit(a) => match ExprLit::try_new(a.as_str()) {
                Ok(lit) => Ok(lit.as_str().to_owned()),
                Err(e) => Err(e),
            },
        }
    }

    /// Hands the path that the argument denotes, or the error of its
    /// literal, to one of two continuations.
    pub fn get_str_with_fns<R>(
        &self,
        next: impl FnOnce(&str) -> R,
        err: impl FnOnce(ExprLitTryNewErr) -> R,
    ) -> (r: R)
        requires
            match self.path() {
                Ok(p) => forall|s: &str| s@ == p ==> next.requires((s,)),
                Err(e) => err.requires((e,)),
            },
        ensures
            match self.path() {
                Ok(p) => exists|s: &str| s@ == p && next.ensures((s,), r),
                Err(e) => err.ensures((e,), r),
            },
    {
        match self {
            BehMacroArg0::Stringify(a) => next(a.as_str()),
            BehMacroArg0::ExpMakeExprLit(a) => match ExprLit::try_new(a.as_str()) {
                Ok(lit) => next(lit.as_str()),
                Err(e) => err(e),
            },
        }
    }
}

/// What a marker without a path stands for: an inert group for the tree
/// markers, the empty string or the empty byte string for the others.
pub open spec fn empty_tree(kind: IncludeKind, group_span: Span) -> Node {
    match kind {
        IncludeKind::Tt | IncludeKind::Ctt => null_group(group_span),
        IncludeKind::Str => Node::Literal {
            text: string_literal_text(Seq::empty()),
            span: group_span,
        },
        IncludeKind::Arr => Node::Literal {
            text: byte_string_literal_text(Seq::empty()),
            span: group_span,
        },
    }
}

/// What a marker makes of the content of its file.
///
/// The tokens of a tree go into a group without delimiters, the text into a
/// string literal, the bytes into a byte string literal, each at the place
/// of the marker's argument list. A file that failed gives its diagnostic at
/// the place of the path, and so does content of another kind.
pub open spec fn made_tree(
    kind: IncludeKind,
    loaded: LoadedView,
    group_span: Span,
    literal_span: Span,
) -> Result<Node, DiagnosticView> {
    match loaded {
        LoadedView::Failed(e) => Err(
            DiagnosticView { message: load_error_message(e), span: literal_span },
        ),
        LoadedView::Tree(tree) if kind == IncludeKind::Tt || kind == IncludeKind::Ctt => Ok(
            Node::Group {
                delimiter: Delimiter::None,
                children: match tree {
                    Some(nodes) => nodes,
                    None => Seq::empty(),
                },
                span: group_span,
            },
        ),
        LoadedView::Str(text) if kind == IncludeKind::Str => Ok(
            Node::Literal { text: string_literal_text(text), span: group_span },
        ),
        LoadedView::Arr(bytes) if kind == IncludeKind::Arr => Ok(
            Node::Literal { text: byte_string_literal_text(bytes), span: group_span },
        ),
        _ => Err(DiagnosticView { message: CONTENT_MISMATCH@, span: literal_span }),
    }
}

/// The behaviour of one marker.
pub trait BehMacroInclude {
    /// Which marker this is.
    spec fn kind() -> IncludeKind;

    /// Which marker this is.
    fn include_kind() -> (k: IncludeKind)
        ensures
            k == Self::kind(),
    ;

    /// The node that stands for the content of the marker's file.
    /// `group_span` is the place of the marker's argument list,
    /// `literal_span` the place of the path in it.
    fn make_tree(arg0: &Loaded, group_span: Span, literal_span: Span) -> (r: TreeResult<SyntaxNode>)
        ensures
            match r {
                Ok(tree) => made_tree(Self::kind(), arg0@, group_span, literal_span) == Ok::<
                    Node,
                    DiagnosticView,
                >(tree@),
                Err(d) => made_tree(Self::kind(), arg0@, group_span, literal_span) == Err::<
                    Node,
                    DiagnosticView,
                >(d@),
            },
    ;

    /// The node that stands for a marker without a path.
    fn make_empty_tree(group_span: Span) -> (r: SyntaxNode)
        ensures
            r@ == empty_tree(Self::kind(), group_span),
    ;
}

fn failed_tree(arg0: &Loaded, literal_span: Span) -> (d: Diagnostic)
    ensures
        d@ == match arg0@ {
            LoadedView::Failed(e) => DiagnosticView {
                message: load_error_message(e),
                span: literal_span,
            },
            _ => DiagnosticView { message: CONTENT_MISMATCH@, span: literal_span },
        },
{
    match arg0 {
        Loaded::Failed(e) => e.clone().into_tt_err(literal_span),
        _ => throw_sg_err(literal_span, CONTENT_MISMATCH),
    }
}

fn group_tree(arg0: &Loaded, group_span: Span, literal_span: Span) -> (r: TreeResult<SyntaxNode>)
    ensures
        match r {
            Ok(tree) => made_tree(IncludeKind::Tt, arg0@, group_span, literal_span) == Ok::<
                Node,
                DiagnosticView,
            >(tree@),
            Err(d) => made_tree(IncludeKind::Tt, arg0@, group_span, literal_span) == Err::<
                Node,
                DiagnosticView,
            >(d@),
        },
        made_tree(IncludeKind::Tt, arg0@, group_span, literal_span) == made_tree(
            IncludeKind::Ctt,
            arg0@,
            group_span,
            literal_span,
        ),
{
    match arg0 {
        Loaded::Tree(tree) => {
            let children = match tree {
                Some(nodes) => {
                    let c = clone_nodes_from(nodes, 0);
                    assert(views(nodes@).subrange(0, nodes.len() as int) =~= views(nodes@));
                    c
                },
                None => {
                    let c: Vec<SyntaxNode> = Vec::new();
                    c
                },
            };
            let g = Group { delimiter: Delimiter::None, children, span: group_span };
            proof {
                lemma_group_view(g);
            }
            Ok(SyntaxNode::Group(g))
        },
        _ => Err(failed_tree(arg0, literal_span)),
    }
}

/// The marker that splices in the tokens of a file.
pub struct IncludeTT;

impl BehMacroInclude for IncludeTT {
    open spec fn kind() -> IncludeKind {
        IncludeKind::Tt
    }

    fn include_kind() -> (k: IncludeKind) {
        IncludeKind::Tt
    }

    fn make_tree(arg0: &Loaded, group_span: Span, literal_span: Span) -> (r: TreeResult<
        SyntaxNode,
    >) {
        group_tree(arg0, group_span, literal_span)
    }

    fn make_empty_tree(group_span: Span) -> (r: SyntaxNode) {
        make_null_group(group_span)
    }
}

/// The marker that splices in the tokens of a file whose stray backslashes
/// were blanked before the parse.
pub struct IncludeTTAndFixUnkStartToken;

impl BehMacroInclude for IncludeTTAndFixUnkStartToken {
    open spec fn kind() -> IncludeKind {
        IncludeKind::Ctt
    }

    fn include_kind() -> (k: IncludeKind) {
        IncludeKind::Ctt
    }

    fn make_tree(arg0: &Loaded, group_span: Span, literal_span: Span) -> (r: TreeResult<
        SyntaxNode,
    >) {
        group_tree(arg0, group_span, literal_span)
    }

    fn make_empty_tree(group_span: Span) -> (r: SyntaxNode) {
        make_null_group(group_span)
    }
}

/// The marker that splices in the text of a file as a string literal.
pub struct IncludeStr;

impl BehMacroInclude for IncludeStr {
    open spec fn kind() -> IncludeKind {
        IncludeKind::Str
    }

    fn include_kind() -> (k: IncludeKind) {
        IncludeKind::Str
    }

    fn make_tree(arg0: &Loaded, group_span: Span, literal_span: Span) -> (r: TreeResult<
        SyntaxNode,
    >) {
        match arg0 {
            Loaded::Str(data) => Ok(
                SyntaxNode::Literal { text: string_literal(data.as_str()), span: group_span },
            ),
            _ => Err(failed_tree(arg0, literal_span)),
        }
    }

    fn make_empty_tree(group_span: Span) -> (r: SyntaxNode) {
        let empty = String::new();
        SyntaxNode::Literal { text: string_literal(empty.as_str()), span: group_span }
    }
}

/// The marker that splices in the bytes of a file as a byte string literal.
pub struct IncludeArr;

impl BehMacroInclude for IncludeArr {
    open spec fn kind() -> IncludeKind {
        IncludeKind::Arr
    }

    fn include_kind() -> (k: IncludeKind) {
        IncludeKind::Arr
    }

    fn make_tree(arg0: &Loaded, group_span: Span, literal_span: Span) -> (r: TreeResult<
        SyntaxNode,
    >) {
        match arg0 {
            Loaded::Arr(data) => Ok(
                SyntaxNode::Literal { text: byte_string_literal(data), span: group_span },
            ),
            _ => Err(failed_tree(arg0, literal_span)),
        }
    }

    fn make_empty_tree(group_span: Span) -> (r: SyntaxNode) {
        let empty: Vec<u8> = Vec::new();
        SyntaxNode::Literal { text: byte_string_literal(&empty), span: group_span }
    }
}

/// What a marker came to.
#[derive(Debug)]
pub enum Included {
    /// The marker names no file: this node stands for it.
    Default(SyntaxNode),
    /// The file at `path` was taken from the loaded files: `tree` stands
    /// for the marker.
    Loaded { tree: SyntaxNode, path: String },
    /// The marker is wrong, or its file failed.
    Failed(Diagnostic),
    /// The file has not been loaded yet.
    Need(Request),
}

/// The mathematical value of an [`Included`].
pub ghost enum IncludedView {
    Default(Node),
    Loaded { tree: Node, path: Seq<char> },
    Failed(DiagnosticView),
    Need(RequestView),
}

impl View for Included {
    type V = IncludedView;

    open spec fn view(&self) -> IncludedView {
        match self {
            Included::Default(tree) => IncludedView::Default(tree@),
            Included::Loaded { tree, path } => IncludedView::Loaded { tree: tree@, path: path@ },
            Included::Failed(d) => IncludedView::Failed(d@),
            Included::Need(request) => IncludedView::Need(request@),
        }
    }
}

/// What a marker with a path comes to: a request for the file while it is
/// not loaded, else what [`made_tree`] makes of its content.
pub open spec fn resolved(
    kind: IncludeKind,
    path: Seq<char>,
    group_span: Span,
    literal_span: Span,
    next: Option<LoadedView>,
) -> IncludedView {
    match next {
        None => IncludedView::Need(RequestView { kind, path }),
        Some(loaded) => match made_tree(kind, loaded, group_span, literal_span) {
            Ok(tree) => IncludedView::Loaded { tree, path },
            Err(d) => IncludedView::Failed(d),
        },
    }
}

/// The path that the one argument of a marker denotes, with the place of
/// the argument; `None` where the argument is a group without children.
pub open spec fn argument_path(arg: Node) -> Result<Option<(Seq<char>, Span)>, DiagnosticView> {
    match arg {
        Node::Group { children, span, .. } => match group_stringified(children) {
            Ok(Some(path)) => Ok(Some((path, span))),
            Ok(None) => Ok(None),
            Err(d) => Err(d),
        },
        Node::Literal { text, span } => match unquoted(text) {
            Ok(path) => Ok(Some((path, span))),
            Err(e) => Err(DiagnosticView { message: literal_error_message(e), span }),
        },
        other => Err(DiagnosticView { message: PATH_EXPECTED@, span: span_of(other) }),
    }
}

/// What a marker of the given kind with the argument list `group` comes to,
/// where `next` is the loaded file that is its turn, if there is one.
///
/// No argument, or an empty group as argument, gives the marker's default
/// without a file. One literal or one group of tokens gives the path. A
/// second argument is an error at its place.
pub open spec fn included(kind: IncludeKind, group: Node, next: Option<LoadedView>) -> IncludedView {
    let args = group->Group_children;
    if args.len() > 1 {
        IncludedView::Failed(DiagnosticView { message: STRAY_ARGUMENT@, span: span_of(args[1]) })
    } else if args.len() == 0 {
        IncludedView::Default(empty_tree(kind, span_of(group)))
    } else {
        match argument_path(args[0]) {
            Err(d) => IncludedView::Failed(d),
            Ok(None) => IncludedView::Default(empty_tree(kind, span_of(group))),
            Ok(Some((path, literal_span))) => resolved(
                kind,
                path,
                span_of(group),
                literal_span,
                next,
            ),
        }
    }
}

/// The value of the loaded file that is handed to a marker.
pub open spec fn next_view(next: Option<&Loaded>) -> Option<LoadedView> {
    match next {
        Some(loaded) => Some(loaded@),
        None => None,
    }
}

/// Works out one marker from its argument list: see [`included`].
pub fn macro_rule_include<A>(group: &Group, next: Option<&Loaded>) -> (r: Included) where
    A: BehMacroInclude,

    ensures
        r@ == included(A::kind(), group@, next_view(next)),
{
    let n = group.children.len();
    if n > 1 {
        return Included::Failed(throw_sg_err(group.children[1].span(), STRAY_ARGUMENT));
    }
    if n == 0 {
        return Included::Default(A::make_empty_tree(group.span));
    }
    let (arg0, literal_span) = match &group.children[0] {
        SyntaxNode::Group(g_stream) => {
            proof {
                lemma_group_view(*g_stream);
            }
            match group_stringify(g_stream) {
                Ok(Some(stringify)) => (BehMacroArg0::Stringify(stringify), g_stream.span),
                Ok(None) => {
                    return Included::Default(A::make_empty_tree(group.span));
                },
                Err(d) => {
                    return Included::Failed(d);
                },
            }
        },
        SyntaxNode::Literal { text, span } => (BehMacroArg0::ExpMakeExprLit(text.clone()), *span),
        other => {
            return Included::Failed(throw_sg_err(other.span(), PATH_EXPECTED));
        },
    };
    let path = match arg0.get_str() {
        Ok(path) => path,
        Err(e) => {
            return Included::Failed(e.into_tt_err(literal_span));
        },
    };
    match next {
        None => Included::Need(Request { kind: A::include_kind(), path }),
        Some(loaded) => match A::make_tree(loaded, group.span, literal_span) {
            Ok(tree) => Included::Loaded { tree, path },
            Err(d) => Included::Failed(d),
        },
    }
}

} // verus!
