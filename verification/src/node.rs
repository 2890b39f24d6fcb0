//! The syntax tree: leaves and groups, each with the place in the source that
//! it came from.

use proc_macro2::{Delimiter, Spacing, Span};
use vstd::prelude::*;

verus! {

/// `proc_macro2::Span`: a place in the source text. Nothing is known of what
/// a value holds; it is handed on from node to node.
#[verifier::external_type_specification]
#[verifier::external_body]
pub struct ExSpan(Span);

/// `proc_macro2::Delimiter`: which brackets surround a group.
#[verifier::external_type_specification]
pub struct ExDelimiter(Delimiter);

/// `proc_macro2::Spacing`: whether a punctuation character is glued to the
/// one after it.
#[verifier::external_type_specification]
pub struct ExSpacing(Spacing);

/// A group: delimiter kind, the children in source order, and the place of
/// the whole group.
#[derive(Debug)]
pub struct Group {
    pub delimiter: Delimiter,
    pub children: Vec<SyntaxNode>,
    pub span: Span,
}

/// One element of the tree.
#[derive(Debug)]
pub enum SyntaxNode {
    Ident { text: String, span: Span },
    Punct { ch: char, spacing: Spacing, span: Span },
    /// A literal as written in the source, quotes and suffix included.
    Literal { text: String, span: Span },
    Group(Group),
}

/// The mathematical value of a [`SyntaxNode`].
pub ghost enum Node {
    Ident { text: Seq<char>, span: Span },
    Punct { ch: char, spacing: Spacing, span: Span },
    Literal { text: Seq<char>, span: Span },
    Group { delimiter: Delimiter, children: Seq<Node>, span: Span },
}

/// A [`Node`] without its places: what two trees must share to be the same
/// tokens.
pub ghost enum Shape {
    Ident(Seq<char>),
    Punct(char, Spacing),
    Literal(Seq<char>),
    Group(Delimiter, Seq<Shape>),
}

impl View for SyntaxNode {
    type V = Node;

    open spec fn view(&self) -> Node {
        node_of(*self)
    }
}

/// The value of a node.
pub open spec fn node_of(n: SyntaxNode) -> Node
    decreases n, 0nat,
{
    match n {
        SyntaxNode::Ident { text, span } => Node::Ident { text: text@, span },
        SyntaxNode::Punct { ch, spacing, span } => Node::Punct { ch, spacing, span },
        SyntaxNode::Literal { text, span } => Node::Literal { text: text@, span },
        SyntaxNode::Group(g) => Node::Group {
            delimiter: g.delimiter,
            children: nodes_of(g.children@, g.children@.len()),
            span: g.span,
        },
    }
}

/// The values of the first `k` nodes of `s`.
pub open spec fn nodes_of(s: Seq<SyntaxNode>, k: nat) -> Seq<Node>
    decreases s, k,
{
    if k == 0 || k > s.len() {
        Seq::empty()
    } else {
        nodes_of(s, (k - 1) as nat).push(node_of(s[k - 1]))
    }
}

impl View for Group {
    type V = Node;

    /// A group seen as the node that holds it.
    open spec fn view(&self) -> Node {
        Node::Group { delimiter: self.delimiter, children: views(self.children@), span: self.span }
    }
}

/// The values of a sequence of nodes, in order.
pub open spec fn views(s: Seq<SyntaxNode>) -> Seq<Node> {
    Seq::new(s.len(), |i: int| s[i]@)
}

/// The place of a node.
pub open spec fn span_of(n: Node) -> Span {
    match n {
        Node::Ident { span, .. } => span,
        Node::Punct { span, .. } => span,
        Node::Literal { span, .. } => span,
        Node::Group { span, .. } => span,
    }
}

/// A node with its places taken away, at every depth.
pub open spec fn shape(n: Node) -> Shape
    decreases n, 0nat,
{
    match n {
        Node::Ident { text, .. } => Shape::Ident(text),
        Node::Punct { ch, spacing, .. } => Shape::Punct(ch, spacing),
        Node::Literal { text, .. } => Shape::Literal(text),
        Node::Group { delimiter, children, .. } => Shape::Group(
            delimiter,
            shapes_of(children, children.len()),
        ),
    }
}

/// The shapes of the first `k` nodes of `s`.
pub open spec fn shapes_of(s: Seq<Node>, k: nat) -> Seq<Shape>
    decreases s, k,
{
    if k == 0 || k > s.len() {
        Seq::empty()
    } else {
        shapes_of(s, (k - 1) as nat).push(shape(s[k - 1]))
    }
}

/// The shapes of a sequence of nodes, in order.
pub open spec fn shapes(s: Seq<Node>) -> Seq<Shape> {
    Seq::new(s.len(), |i: int| shape(s[i]))
}

proof fn lemma_nodes_of(s: Seq<SyntaxNode>, k: nat)
    requires
        k <= s.len(),
    ensures
        nodes_of(s, k) == views(s).subrange(0, k as int),
    decreases k,
{
    if k > 0 {
        lemma_nodes_of(s, (k - 1) as nat);
    }
}

proof fn lemma_shapes_of(s: Seq<Node>, k: nat)
    requires
        k <= s.len(),
    ensures
        shapes_of(s, k) == shapes(s).subrange(0, k as int),
    decreases k,
{
    if k > 0 {
        lemma_shapes_of(s, (k - 1) as nat);
    }
}

/// A group node's value holds the values of the group's children.
pub proof fn lemma_group_view(g: Group)
    ensures
        SyntaxNode::Group(g)@ == g@,
{
    lemma_nodes_of(g.children@, g.children@.len());
    assert(SyntaxNode::Group(g)@->Group_children =~= views(g.children@));
}

/// A group's shape holds the shapes of its children.
pub proof fn lemma_group_shape(delimiter: Delimiter, children: Seq<Node>, span: Span)
    ensures
        shape(Node::Group { delimiter, children, span }) == Shape::Group(
            delimiter,
            shapes(children),
        ),
{
    lemma_shapes_of(children, children.len());
    assert(shape(Node::Group { delimiter, children, span })->Group_1 =~= shapes(children));
}

/// Pushing a node onto a vector pushes its value onto the vector's values.
pub proof fn lemma_views_push(s: Seq<SyntaxNode>, n: SyntaxNode)
    ensures
        views(s.push(n)) == views(s).push(n@),
{
}

/// The values of a concatenation are the concatenation of the values.
pub proof fn lemma_views_add(a: Seq<SyntaxNode>, b: Seq<SyntaxNode>)
    ensures
        views(a + b) == views(a) + views(b),
{
}

/// Replacing a node replaces its value.
pub proof fn lemma_views_update(s: Seq<SyntaxNode>, i: int, n: SyntaxNode)
    requires
        0 <= i < s.len(),
    ensures
        views(s.update(i, n)) == views(s).update(i, n@),
{
}

impl SyntaxNode {
    /// The place of this node.
    pub fn span(&self) -> (s: Span)
        ensures
            s == span_of(self@),
    {
        match self {
            SyntaxNode::Ident { span, .. } => *span,
            SyntaxNode::Punct { span, .. } => *span,
            SyntaxNode::Literal { span, .. } => *span,
            SyntaxNode::Group(g) => g.span,
        }
    }
}

impl Clone for SyntaxNode {
    fn clone(&self) -> (r: Self)
        ensures
            r@ == self@,
        decreases self,
    {
        match self {
            SyntaxNode::Ident { text, span } => SyntaxNode::Ident {
                text: text.clone(),
                span: *span,
            },
            SyntaxNode::Punct { ch, spacing, span } => SyntaxNode::Punct {
                ch: *ch,
                spacing: *spacing,
                span: *span,
            },
            SyntaxNode::Literal { text, span } => SyntaxNode::Literal {
                text: text.clone(),
                span: *span,
            },
            SyntaxNode::Group(g) => {
                let children = clone_nodes_of(g);
                let r = Group { delimiter: g.delimiter, children, span: g.span };
                proof {
                    lemma_group_view(r);
                    lemma_group_view(*g);
                }
                SyntaxNode::Group(r)
            },
        }
    }
}

impl Clone for Group {
    fn clone(&self) -> (r: Self)
        ensures
            r@ == self@,
        decreases self,
    {
        let children = clone_nodes_of(self);
        Group { delimiter: self.delimiter, children, span: self.span }
    }
}

/// A copy of the children of a group.
fn clone_nodes_of(g: &Group) -> (r: Vec<SyntaxNode>)
    ensures
        views(r@) == views(g.children@),
    decreases g, 0nat,
{
    let mut out: Vec<SyntaxNode> = Vec::new();
    let mut i: usize = 0;
    while i < g.children.len()
        invariant
            i <= g.children.len(),
            out.len() == i,
            forall|j: int| 0 <= j < i ==> out[j]@ == g.children[j]@,
        decreases g.children.len() - i,
    {
        let c = g.children[i].clone();
        out.push(c);
        i += 1;
    }
    out
}

/// A copy of `nodes[from..]`.
pub fn clone_nodes_from(nodes: &Vec<SyntaxNode>, from: usize) -> (r: Vec<SyntaxNode>)
    requires
        from <= nodes.len(),
    ensures
        views(r@) == views(nodes@).subrange(from as int, nodes.len() as int),
{
    let mut out: Vec<SyntaxNode> = Vec::new();
    let mut i: usize = from;
    while i < nodes.len()
        invariant
            from <= i <= nodes.len(),
            out.len() == i - from,
            forall|j: int| 0 <= j < i - from ==> out[j]@ == nodes[from + j]@,
        decreases nodes.len() - i,
    {
        let c = nodes[i].clone();
        out.push(c);
        i += 1;
    }
    out
}

} // verus!
