//! Tracking of the files that were read: for each of them a constant is
//! declared that makes the compiler read the file too, so that a change of
//! the file is seen.

use crate::node::{lemma_group_view, lemma_views_add, views, Group, Node, SyntaxNode};
use crate::stream::{string_literal, string_literal_text};
use crate::text::{decimal, lemma_decimal_injective, push_decimal};
use proc_macro2::{Delimiter, Spacing, Span};
use vstd::prelude::*;
use vstd::string::StringExecFns;

verus! {

/// The name of the constant with the given number.
pub open spec fn tracker_name(num: nat) -> Seq<char> {
    "_TRACKER_FILE_NUM_"@ + decimal(num)
}

/// The path of a tracked file as the declaration writes it: seen from the
/// directory of the source file, one level below the crate's root.
pub open spec fn tracker_path(path: Seq<char>) -> Seq<char> {
    "../"@ + path
}

/// The tokens of
/// `const _TRACKER_FILE_NUM_<num>: &'static [u8] = include_bytes!("../<path>") as &[_];`,
/// every one of them at the given place.
pub open spec fn declaration(num: nat, path: Seq<char>, span: Span) -> Seq<Node> {
    seq![
        Node::Ident { text: "const"@, span },
        Node::Ident { text: tracker_name(num), span },
        Node::Punct { ch: ':', spacing: Spacing::Alone, span },
        Node::Punct { ch: '&', spacing: Spacing::Alone, span },
        Node::Punct { ch: '\'', spacing: Spacing::Joint, span },
        Node::Ident { text: "static"@, span },
        Node::Group {
            delimiter: Delimiter::Bracket,
            children: seq![Node::Ident { text: "u8"@, span }],
            span,
        },
        Node::Punct { ch: '=', spacing: Spacing::Alone, span },
        Node::Ident { text: "include_bytes"@, span },
        Node::Punct { ch: '!', spacing: Spacing::Alone, span },
        Node::Group {
            delimiter: Delimiter::Parenthesis,
            children: seq![
                Node::Literal { text: string_literal_text(tracker_path(path)), span },
            ],
            span,
        },
        Node::Ident { text: "as"@, span },
        Node::Punct { ch: '&', spacing: Spacing::Alone, span },
        Node::Group {
            delimiter: Delimiter::Bracket,
            children: seq![Node::Ident { text: "_"@, span }],
            span,
        },
        Node::Punct { ch: ';', spacing: Spacing::Alone, span },
    ]
}

fn ident(text: &str, span: Span) -> (r: SyntaxNode)
    ensures
        r@ == (Node::Ident { text: text@, span }),
{
    SyntaxNode::Ident { text: text.to_owned(), span }
}

fn punct(ch: char, spacing: Spacing, span: Span) -> (r: SyntaxNode)
    ensures
        r@ == (Node::Punct { ch, spacing, span }),
{
    SyntaxNode::Punct { ch, spacing, span }
}

fn group_of_one(delimiter: Delimiter, child: SyntaxNode, span: Span) -> (r: SyntaxNode)
    ensures
        r@ == (Node::Group { delimiter, children: seq![child@], span }),
{
    let mut children: Vec<SyntaxNode> = Vec::new();
    children.push(child);
    let g = Group { delimiter, children, span };
    proof {
        lemma_group_view(g);
        assert(views(g.children@) =~= seq![child@]);
    }
    SyntaxNode::Group(g)
}

/// The declaration that tracks one file.
pub fn make_declaration(num: usize, path: &str, span: Span) -> (r: Vec<SyntaxNode>)
    ensures
        views(r@) == declaration(num as nat, path@, span),
{
    let mut name = "_TRACKER_FILE_NUM_".to_owned();
    push_decimal(&mut name, num);
    let mut file = "../".to_owned();
    file.append(path);
    let literal = SyntaxNode::Literal { text: string_literal(file.as_str()), span };
    let mut r: Vec<SyntaxNode> = Vec::new();
    r.push(ident("const", span));
    r.push(SyntaxNode::Ident { text: name, span });
    r.push(punct(':', Spacing::Alone, span));
    r.push(punct('&', Spacing::Alone, span));
    r.push(punct('\'', Spacing::Joint, span));
    r.push(ident("static", span));
    r.push(group_of_one(Delimiter::Bracket, ident("u8", span), span));
    r.push(punct('=', Spacing::Alone, span));
    r.push(ident("include_bytes", span));
    r.push(punct('!', Spacing::Alone, span));
    r.push(group_of_one(Delimiter::Parenthesis, literal, span));
    r.push(ident("as", span));
    r.push(punct('&', Spacing::Alone, span));
    r.push(group_of_one(Delimiter::Bracket, ident("_", span), span));
    r.push(punct(';', Spacing::Alone, span));
    r
}

/// Two declarations with the same name have the same number.
pub proof fn lemma_tracker_name_injective(a: nat, b: nat)
    requires
        tracker_name(a) == tracker_name(b),
    ensures
        a == b,
{
    let prefix = "_TRACKER_FILE_NUM_"@;
    assert(decimal(a) =~= tracker_name(a).subrange(
        prefix.len() as int,
        tracker_name(a).len() as int,
    ));
    assert(decimal(b) =~= tracker_name(b).subrange(
        prefix.len() as int,
        tracker_name(b).len() as int,
    ));
    lemma_decimal_injective(a, b);
}

/// The files tracked since a `POINT_TRACKER_FILES:` directive: where in the
/// output of its scope the directive stood, the place of the directive, and
/// the declarations made so far, in the order of the loads.
#[derive(Debug)]
pub struct PointTrack {
    pub slot: usize,
    pub data_span: Span,
    pub data: Vec<SyntaxNode>,
}

/// The mathematical value of a [`PointTrack`].
pub ghost struct PointTrackView {
    pub slot: int,
    pub span: Span,
    pub data: Seq<Node>,
}

impl View for PointTrack {
    type V = PointTrackView;

    open spec fn view(&self) -> PointTrackView {
        PointTrackView { slot: self.slot as int, span: self.data_span, data: views(self.data@) }
    }
}

/// The group that a tracker leaves where its directive stood.
pub open spec fn tracker_group(t: PointTrackView) -> Node {
    Node::Group { delimiter: Delimiter::None, children: t.data, span: t.span }
}

impl PointTrack {
    /// A tracker without files, for a directive whose place in the output is
    /// `slot`.
    pub fn new(slot: usize, data_span: Span) -> (t: Self)
        ensures
            t@ == (PointTrackView { slot: slot as int, span: data_span, data: Seq::empty() }),
    {
        let t = PointTrack { slot, data_span, data: Vec::new() };
        assert(views(t.data@) =~= Seq::<Node>::empty());
        t
    }

    /// The place of the directive.
    pub fn data_span(&self) -> (s: Span)
        ensures
            s == self@.span,
    {
        self.data_span
    }

    /// Whether a file has been tracked.
    pub fn is_rewritten(&self) -> (r: bool)
        ensures
            r == (self@.data.len() > 0),
    {
        self.data.len() > 0
    }

    /// The group of all declarations, to stand where the directive stood.
    pub fn into_token_tree2(self) -> (r: SyntaxNode)
        ensures
            r@ == tracker_group(self@),
    {
        let g = Group { delimiter: Delimiter::None, children: self.data, span: self.data_span };
        proof {
            lemma_group_view(g);
        }
        SyntaxNode::Group(g)
    }

    /// Tracks one file: the declaration with the number `num` is added.
    pub fn append_track_file(&mut self, num: usize, path: &str)
        ensures
            final(self)@ == (PointTrackView {
                data: old(self)@.data + declaration(num as nat, path@, old(self)@.span),
                ..old(self)@
            }),
    {
        let ts = make_declaration(num, path, self.data_span);
        self.append_track_files_ts(ts);
    }

    /// Adds tokens to the declarations.
    pub fn append_track_files_ts(&mut self, ts: Vec<SyntaxNode>)
        ensures
            final(self)@ == (PointTrackView { data: old(self)@.data + views(ts@), ..old(self)@ }),
    {
        let mut ts = ts;
        proof {
            lemma_views_add(self.data@, ts@);
        }
        self.data.append(&mut ts);
    }
}

} // verus!
