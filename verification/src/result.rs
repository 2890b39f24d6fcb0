//! Diagnostics: an error message anchored at a place, and the tokens that
//! make the compiler report it there.

use crate::node::{lemma_group_view, views, Group, Node, SyntaxNode};
use crate::stream::{string_literal, string_literal_text};
use proc_macro2::{Delimiter, Spacing, Span};
use vstd::prelude::*;

verus! {

/// An error found while the tree was rewritten. It ends the whole walk.
#[derive(Debug)]
pub struct Diagnostic {
    pub message: String,
    pub span: Span,
}

/// The mathematical value of a [`Diagnostic`].
pub ghost struct DiagnosticView {
    pub message: Seq<char>,
    pub span: Span,
}

impl View for Diagnostic {
    type V = DiagnosticView;

    open spec fn view(&self) -> DiagnosticView {
        DiagnosticView { message: self.message@, span: self.span }
    }
}

/// The outcome of a step that builds part of the tree: the part, or the
/// diagnostic that aborts the walk.
pub type TreeResult<T> = Result<T, Diagnostic>;

/// The tokens `compile_error!("message");`, every one of them at the
/// diagnostic's place.
pub open spec fn diagnostic_nodes(d: DiagnosticView) -> Seq<Node> {
    seq![
        Node::Ident { text: "compile_error"@, span: d.span },
        Node::Punct { ch: '!', spacing: Spacing::Alone, span: d.span },
        Node::Group {
            delimiter: Delimiter::Parenthesis,
            children: seq![Node::Literal { text: string_literal_text(d.message), span: d.span }],
            span: d.span,
        },
        Node::Punct { ch: ';', spacing: Spacing::Alone, span: d.span },
    ]
}

/// A diagnostic with the given message at the given place.
pub fn throw_sg_err(span: Span, message: &str) -> (d: Diagnostic)
    ensures
        d@ == (DiagnosticView { message: message@, span }),
{
    Diagnostic { message: message.to_owned(), span }
}

impl Clone for Diagnostic {
    fn clone(&self) -> (d: Self)
        ensures
            d@ == self@,
    {
        Diagnostic { message: self.message.clone(), span: self.span }
    }
}

impl Diagnostic {
    /// The tokens that replace the whole input when the walk has failed.
    pub fn into_nodes(&self) -> (nodes: Vec<SyntaxNode>)
        ensures
            views(nodes@) == diagnostic_nodes(self@),
    {
        let span = self.span;
        let mut inner: Vec<SyntaxNode> = Vec::new();
        inner.push(SyntaxNode::Literal { text: string_literal(self.message.as_str()), span });
        let g = Group { delimiter: Delimiter::Parenthesis, children: inner, span };
        let mut nodes: Vec<SyntaxNode> = Vec::new();
        nodes.push(SyntaxNode::Ident { text: "compile_error".to_owned(), span });
        nodes.push(SyntaxNode::Punct { ch: '!', spacing: Spacing::Alone, span });
        nodes.push(SyntaxNode::Group(g));
        nodes.push(SyntaxNode::Punct { ch: ';', spacing: Spacing::Alone, span });
        proof {
            lemma_group_view(g);
            assert(views(g.children@) =~= seq![
                Node::Literal { text: string_literal_text(self.message@), span },
            ]);
        }
        nodes
    }
}

} // verus!
