//! Equality of trees: two trees are equal where they hold the same tokens
//! in the same order, wherever in the source each token came from.

use crate::node::{lemma_group_shape, lemma_group_view, shape, shapes, views, Group, SyntaxNode};
use proc_macro2::{Delimiter, Spacing};
use vstd::prelude::*;
use vstd::std_specs::cmp::PartialEqSpecImpl;

verus! {

/// Whether two delimiters are the same.
pub fn same_delimiter(a: Delimiter, b: Delimiter) -> (r: bool)
    ensures
        r == (a == b),
{
    match (a, b) {
        (Delimiter::Parenthesis, Delimiter::Parenthesis) => true,
        (Delimiter::Brace, Delimiter::Brace) => true,
        (Delimiter::Bracket, Delimiter::Bracket) => true,
        (Delimiter::None, Delimiter::None) => true,
        _ => false,
    }
}

/// Whether two spacings are the same.
pub fn same_spacing(a: Spacing, b: Spacing) -> (r: bool)
    ensures
        r == (a == b),
{
    match (a, b) {
        (Spacing::Alone, Spacing::Alone) => true,
        (Spacing::Joint, Spacing::Joint) => true,
        _ => false,
    }
}

/// Whether two nodes have the same shape.
pub fn same_node(a: &SyntaxNode, b: &SyntaxNode) -> (r: bool)
    ensures
        r == (shape(a@) == shape(b@)),
    decreases a,
{
    match (a, b) {
        (SyntaxNode::Ident { text: x, .. }, SyntaxNode::Ident { text: y, .. }) => *x == *y,
        (
            SyntaxNode::Punct { ch: x, spacing: s, .. },
            SyntaxNode::Punct { ch: y, spacing: t, .. },
        ) => *x == *y && same_spacing(*s, *t),
        (SyntaxNode::Literal { text: x, .. }, SyntaxNode::Literal { text: y, .. }) => *x == *y,
        (SyntaxNode::Group(g), SyntaxNode::Group(h)) => {
            proof {
                lemma_group_view(*g);
                lemma_group_view(*h);
                lemma_group_shape(g.delimiter, views(g.children@), g.span);
                lemma_group_shape(h.delimiter, views(h.children@), h.span);
            }
            same_delimiter(g.delimiter, h.delimiter) && same_nodes_upto(g, &h.children)
        },
        _ => false,
    }
}

fn same_nodes_upto(g: &Group, b: &Vec<SyntaxNode>) -> (r: bool)
    ensures
        r == (shapes(views(g.children@)) == shapes(views(b@))),
    decreases g, 0nat,
{
    let ghost x = shapes(views(g.children@));
    let ghost y = shapes(views(b@));
    if g.children.len() != b.len() {
        assert(x.len() != y.len());
        return false;
    }
    let mut i: usize = 0;
    while i < g.children.len()
        invariant
            i <= g.children.len(),
            g.children.len() == b.len(),
            x == shapes(views(g.children@)),
            y == shapes(views(b@)),
            forall|j: int| 0 <= j < i ==> x[j] == y[j],
        decreases g.children.len() - i,
    {
        if !same_node(&g.children[i], &b[i]) {
            assert(x[i as int] != y[i as int]);
            return false;
        }
        i += 1;
    }
    assert(x =~= y);
    true
}

/// Whether two sequences of nodes have the same shapes.
pub fn same_tokens(a: &Vec<SyntaxNode>, b: &Vec<SyntaxNode>) -> (r: bool)
    ensures
        r == (shapes(views(a@)) == shapes(views(b@))),
{
    let ghost x = shapes(views(a@));
    let ghost y = shapes(views(b@));
    if a.len() != b.len() {
        assert(x.len() != y.len());
        return false;
    }
    let mut i: usize = 0;
    while i < a.len()
        invariant
            i <= a.len(),
            a.len() == b.len(),
            x == shapes(views(a@)),
            y == shapes(views(b@)),
            forall|j: int| 0 <= j < i ==> x[j] == y[j],
        decreases a.len() - i,
    {
        if !same_node(&a[i], &b[i]) {
            assert(x[i as int] != y[i as int]);
            return false;
        }
        i += 1;
    }
    assert(x =~= y);
    true
}

impl PartialEq for SyntaxNode {
    fn eq(&self, other: &Self) -> (r: bool) {
        same_node(self, other)
    }
}

impl PartialEqSpecImpl for SyntaxNode {
    open spec fn obeys_eq_spec() -> bool {
        true
    }

    open spec fn eq_spec(&self, other: &Self) -> bool {
        shape(self@) == shape(other@)
    }
}

} // verus!
