//! Inert nodes: a group without delimiters and without children, which
//! leaves no trace in the source that the tree stands for.

use crate::node::{Group, Node, SyntaxNode};
use crate::stream::call_site;
use proc_macro2::{Delimiter, Span};
use vstd::prelude::*;

verus! {

/// The empty group without delimiters at the given place.
pub open spec fn null_group(span: Span) -> Node {
    Node::Group { delimiter: Delimiter::None, children: Seq::empty(), span }
}

/// An inert node at the place of the macro's call.
pub fn make_null_ttree() -> (r: SyntaxNode)
    ensures
        exists|span: Span| r@ == null_group(span),
{
    let r = make_null_group(call_site());
    r
}

/// An inert node at the given place.
pub fn make_null_group(group_span: Span) -> (r: SyntaxNode)
    ensures
        r@ == null_group(group_span),
{
    let g = Group { delimiter: Delimiter::None, children: Vec::new(), span: group_span };
    SyntaxNode::Group(g)
}

} // verus!
