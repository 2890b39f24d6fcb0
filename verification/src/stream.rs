//! Where the tree meets `proc_macro2` and `syn`: token streams are read into
//! nodes, text is parsed into a token stream, and literals get their source
//! text.

use crate::node::{lemma_group_view, shapes, views, Group, Node, Shape, SyntaxNode};
use proc_macro2::{Delimiter, Literal, Spacing, Span, TokenStream, TokenTree};
use vstd::prelude::*;

verus! {

/// `proc_macro2::TokenStream`: a sequence of token trees.
#[verifier::external_type_specification]
#[verifier::external_body]
pub struct ExTokenStream(TokenStream);

/// `proc_macro2::TokenTree`: one token, or a delimited group of them.
#[verifier::external_type_specification]
#[verifier::external_body]
pub struct ExTokenTree(TokenTree);

/// The token trees that a stream holds, in order, as nodes.
pub uninterp spec fn stream_nodes(ts: TokenStream) -> Seq<Node>;

/// What one token tree holds, as a node: its text or its character and its
/// place; for a group its delimiter, its place and the nodes of its stream.
pub uninterp spec fn tree_node(tt: TokenTree) -> Node;

/// What `syn::parse_str` makes of a text: the shapes of the tokens, or the
/// message of the error.
pub uninterp spec fn parsed_tokens(text: Seq<char>) -> Result<Seq<Shape>, Seq<char>>;

/// The source text of the string literal that denotes `s`.
pub uninterp spec fn string_literal_text(s: Seq<char>) -> Seq<char>;

/// The source text of the byte string literal that denotes `bytes`.
pub uninterp spec fn byte_string_literal_text(bytes: Seq<u8>) -> Seq<char>;

/// One token tree, taken apart one level deep.
enum TreePart {
    Ident { text: String, span: Span },
    Punct { ch: char, spacing: Spacing, span: Span },
    Literal { text: String, span: Span },
    Group { delimiter: Delimiter, stream: TokenStream, span: Span },
}

impl View for TreePart {
    type V = Node;

    closed spec fn view(&self) -> Node {
        match self {
            TreePart::Ident { text, span } => Node::Ident { text: text@, span: *span },
            TreePart::Punct { ch, spacing, span } => Node::Punct {
                ch: *ch,
                spacing: *spacing,
                span: *span,
            },
            TreePart::Literal { text, span } => Node::Literal { text: text@, span: *span },
            TreePart::Group { delimiter, stream, span } => Node::Group {
                delimiter: *delimiter,
                children: stream_nodes(*stream),
                span: *span,
            },
        }
    }
}

/// Calls `TokenStream::into_iter` on a copy of the stream and collects the
/// trees. Claims that the trees come out in the stream's order, one for each
/// node of [`stream_nodes`].
#[verifier::external_body]
fn stream_trees(ts: &TokenStream) -> (trees: Vec<TokenTree>)
    ensures
        trees@.len() == stream_nodes(*ts).len(),
        forall|i: int| 0 <= i < trees@.len() ==> tree_node(#[trigger] trees@[i]) == stream_nodes(*ts)[i],
{
    ts.clone().into_iter().collect()
}

/// Reads one token tree through the accessors of `proc_macro2`: the text of
/// an `Ident` or `Literal` as `to_string` gives it, `Punct::as_char` and
/// `Punct::spacing`, `Group::delimiter` and `Group::stream`, and `span` of
/// each. Claims that these are what [`tree_node`] names.
#[verifier::external_body]
fn tree_part(tt: &TokenTree) -> (part: TreePart)
    ensures
        part@ == tree_node(*tt),
{
    match tt {
        TokenTree::Ident(i) => TreePart::Ident { text: i.to_string(), span: i.span() },
        TokenTree::Punct(p) => TreePart::Punct { ch: p.as_char(), spacing: p.spacing(), span: p.span() },
        TokenTree::Literal(l) => TreePart::Literal { text: l.to_string(), span: l.span() },
        TokenTree::Group(g) => TreePart::Group { delimiter: g.delimiter(), stream: g.stream(), span: g.span() },
    }
}

/// Calls `syn::parse_str` for a `TokenStream`. Claims that the outcome is a
/// function of the text: the same text gives tokens of the same shapes, or
/// the same error, whose `Debug` text is handed back.
#[verifier::external_body]
fn parse_stream(text: &str) -> (r: Result<TokenStream, String>)
    ensures
        match r {
            Ok(ts) => parsed_tokens(text@) == Ok::<Seq<Shape>, Seq<char>>(
                shapes(stream_nodes(ts)),
            ),
            Err(message) => parsed_tokens(text@) == Err::<Seq<Shape>, Seq<char>>(message@),
        },
{
    match syn::parse_str::<TokenStream>(text) {
        Ok(ts) => Ok(ts),
        Err(e) => Err(format!("{e:?}")),
    }
}

/// Calls `Literal::string` and takes the literal's text. Claims that the
/// text is a function of the string.
#[verifier::external_body]
pub(crate) fn string_literal(s: &str) -> (text: String)
    ensures
        text@ == string_literal_text(s@),
{
    Literal::string(s).to_string()
}

/// Calls `Literal::byte_string` and takes the literal's text. Claims that
/// the text is a function of the bytes.
#[verifier::external_body]
pub(crate) fn byte_string_literal(bytes: &Vec<u8>) -> (text: String)
    ensures
        text@ == byte_string_literal_text(bytes@),
{
    Literal::byte_string(bytes).to_string()
}

/// Calls `Span::call_site`. Nothing is claimed of the place.
#[verifier::external_body]
pub(crate) fn call_site() -> Span {
    Span::call_site()
}

/// Reads a token stream into nodes, groups included, at every depth.
pub fn nodes_from_stream(ts: &TokenStream) -> (nodes: Vec<SyntaxNode>)
    ensures
        views(nodes@) == stream_nodes(*ts),
    decreases stream_nodes(*ts),
{
    let trees = stream_trees(ts);
    let mut nodes: Vec<SyntaxNode> = Vec::new();
    let mut i: usize = 0;
    while i < trees.len()
        invariant
            i <= trees.len(),
            trees@.len() == stream_nodes(*ts).len(),
            forall|j: int|
                0 <= j < trees@.len() ==> tree_node(#[trigger] trees@[j]) == stream_nodes(*ts)[j],
            views(nodes@) == stream_nodes(*ts).subrange(0, i as int),
        decreases trees.len() - i,
    {
        let part = tree_part(&trees[i]);
        let node = match part {
            TreePart::Ident { text, span } => SyntaxNode::Ident { text, span },
            TreePart::Punct { ch, spacing, span } => SyntaxNode::Punct { ch, spacing, span },
            TreePart::Literal { text, span } => SyntaxNode::Literal { text, span },
            TreePart::Group { delimiter, stream, span } => {
                assert(stream_nodes(*ts)[i as int]->Group_children == stream_nodes(stream));
                let children = nodes_from_stream(&stream);
                let g = Group { delimiter, children, span };
                proof {
                    lemma_group_view(g);
                }
                SyntaxNode::Group(g)
            },
        };
        proof {
            assert(stream_nodes(*ts).subrange(0, i + 1) =~= stream_nodes(*ts).subrange(
                0,
                i as int,
            ).push(node@));
        }
        nodes.push(node);
        i += 1;
    }
    nodes
}

/// Parses a text into nodes. The outcome is the one that [`parsed_tokens`]
/// names for the text: nodes of those shapes, or that message.
pub fn parse_nodes(text: &str) -> (r: Result<Vec<SyntaxNode>, String>)
    ensures
        match r {
            Ok(nodes) => parsed_tokens(text@) == Ok::<Seq<Shape>, Seq<char>>(
                shapes(views(nodes@)),
            ),
            Err(message) => parsed_tokens(text@) == Err::<Seq<Shape>, Seq<char>>(message@),
        },
{
    match parse_stream(text) {
        Ok(ts) => Ok(nodes_from_stream(&ts)),
        Err(message) => Err(message),
    }
}

} // verus!
