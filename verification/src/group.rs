//! Groups read as text: the path that a bracketed group of tokens spells,
//! and the check of what follows a group.

use crate::literal::{literal_error_message, unquoted, ExprLit, ExprLitTryNewErr};
use crate::node::{lemma_group_view, span_of, views, Group, Node, SyntaxNode};
use crate::result::{throw_sg_err, Diagnostic, DiagnosticView, TreeResult};
use crate::text::push_char;
use proc_macro2::{Delimiter, Span};
use vstd::prelude::*;
use vstd::string::StringExecFns;

verus! {

/// The diagnostic of a literal inside a group that is no literal of a path.
pub open spec fn literal_diagnostic(e: ExprLitTryNewErr, span: Span) -> DiagnosticView {
    DiagnosticView { message: "Literal, "@ + literal_error_message(e), span }
}

/// The text that one node contributes to a path: an identifier its name, a
/// punctuation its character, a literal the text between its quotes, with
/// backslashes left as they are; a group the texts of its children, and
/// nothing for its delimiters.
pub open spec fn stringified(n: Node) -> Result<Seq<char>, DiagnosticView>
    decreases n, 0nat,
{
    match n {
        Node::Ident { text, .. } => Ok(text),
        Node::Punct { ch, .. } => Ok(seq![ch]),
        Node::Literal { text, span } => match unquoted(text) {
            Ok(inner) => Ok(inner),
            Err(e) => Err(literal_diagnostic(e, span)),
        },
        Node::Group { children, .. } => stringified_all(children, 0),
    }
}

/// The texts of the nodes from position `i` on, one after the other, or
/// the diagnostic of the first literal that fails.
pub open spec fn stringified_all(s: Seq<Node>, i: int) -> Result<Seq<char>, DiagnosticView>
    decreases s, s.len() - i,
{
    if i < 0 || i >= s.len() {
        Ok(Seq::empty())
    } else {
        match stringified(s[i]) {
            Err(d) => Err(d),
            Ok(head) => match stringified_all(s, i + 1) {
                Err(d) => Err(d),
                Ok(tail) => Ok(head + tail),
            },
        }
    }
}

/// The path that a group spells: none for a group without children, which
/// is not the same as a path that is empty.
pub open spec fn group_stringified(children: Seq<Node>) -> Result<Option<Seq<char>>, DiagnosticView> {
    if children.len() == 0 {
        Ok(None)
    } else {
        match stringified_all(children, 0) {
            Ok(text) => Ok(Some(text)),
            Err(d) => Err(d),
        }
    }
}

/// A text put in front of the outcome of a later part.
pub open spec fn prepended(acc: Seq<char>, rest: Result<Seq<char>, DiagnosticView>) -> Result<
    Seq<char>,
    DiagnosticView,
> {
    match rest {
        Ok(tail) => Ok(acc + tail),
        Err(d) => Err(d),
    }
}

/// Appends the text of one node to `w`.
fn g_stringify(tt: &SyntaxNode, w: &mut String) -> (r: TreeResult<()>)
    ensures
        match r {
            Ok(_) => prepended(old(w)@, stringified(tt@)) == Ok::<Seq<char>, DiagnosticView>(
                final(w)@,
            ),
            Err(d) => stringified(tt@) == Err::<Seq<char>, DiagnosticView>(d@),
        },
    decreases tt, 1nat,
{
    match tt {
        SyntaxNode::Group(group) => {
            proof {
                lemma_group_view(*group);
            }
            g_stringify_all(group, w)
        },
        SyntaxNode::Ident { text, .. } => {
            w.append(text.as_str());
            Ok(())
        },
        SyntaxNode::Punct { ch, .. } => {
            push_char(w, *ch);
            assert(final(w)@ =~= old(w)@ + seq![*ch]);
            Ok(())
        },
        SyntaxNode::Literal { text, span } => match ExprLit::try_new(text.as_str()) {
            Ok(sspath) => {
                w.append(sspath.as_str());
                Ok(())
            },
            Err(e) => {
                let inner = e.into_tt_err(*span);
                let mut message = "Literal, ".to_owned();
                message.append(inner.message.as_str());
                Err(Diagnostic { message, span: *span })
            },
        },
    }
}

/// Appends the texts of the children of a group to `w`.
fn g_stringify_all(group: &Group, w: &mut String) -> (r: TreeResult<()>)
    ensures
        match r {
            Ok(_) => prepended(old(w)@, stringified_all(views(group.children@), 0)) == Ok::<
                Seq<char>,
                DiagnosticView,
            >(final(w)@),
            Err(d) => stringified_all(views(group.children@), 0) == Err::<
                Seq<char>,
                DiagnosticView,
            >(d@),
        },
    decreases group, 0nat,
{
    let ghost s = views(group.children@);
    let ghost start = w@;
    let ghost mut acc: Seq<char> = Seq::empty();
    let mut i: usize = 0;
    while i < group.children.len()
        invariant
            i <= group.children.len(),
            s == views(group.children@),
            w@ == start + acc,
            stringified_all(s, 0) == prepended(acc, stringified_all(s, i as int)),
        decreases group.children.len() - i,
    {
        match g_stringify(&group.children[i], w) {
            Ok(_) => {
                proof {
                    let head = stringified(s[i as int])->Ok_0;
                    match stringified_all(s, i + 1) {
                        Ok(tail) => {
                            assert(acc + (head + tail) =~= (acc + head) + tail);
                        },
                        Err(_) => {},
                    }
                    acc = acc + head;
                }
            },
            Err(d) => {
                return Err(d);
            },
        }
        i += 1;
    }
    Ok(())
}

/// The path that a group of tokens spells.
///
/// A group without children gives `None`: the caller then takes its
/// default. A group whose tokens spell the empty text gives `Some("")`.
pub fn group_stringify(group: &Group) -> (r: TreeResult<Option<String>>)
    ensures
        match r {
            Ok(Some(text)) => group_stringified(views(group.children@)) == Ok::<
                Option<Seq<char>>,
                DiagnosticView,
            >(Some(text@)),
            Ok(None) => group_stringified(views(group.children@)) == Ok::<
                Option<Seq<char>>,
                DiagnosticView,
            >(None),
            Err(d) => group_stringified(views(group.children@)) == Err::<
                Option<Seq<char>>,
                DiagnosticView,
            >(d@),
        },
        group.children@.len() == 0 ==> r matches Ok(None),
{
    if group.children.len() == 0 {
        return Ok(None);
    }
    let mut result = String::new();
    match g_stringify_all(group, &mut result) {
        Ok(_) => Ok(Some(result)),
        Err(d) => Err(d),
    }
}

/// As [`group_stringify`], with the outcome handed to one of three
/// continuations.
pub fn group_stringify_with_fns<R>(
    group: &Group,
    next: impl FnOnce(String) -> R,
    empty: impl FnOnce() -> R,
    err: impl FnOnce(Diagnostic) -> R,
) -> (r: R)
    requires
        forall|text: String| next.requires((text,)),
        empty.requires(()),
        forall|d: Diagnostic| err.requires((d,)),
    ensures
        match group_stringified(views(group.children@)) {
            Ok(Some(path)) => exists|text: String| text@ == path && next.ensures((text,), r),
            Ok(None) => empty.ensures((), r),
            Err(e) => exists|d: Diagnostic| d@ == e && err.ensures((d,), r),
        },
{
    match group_stringify(group) {
        Ok(Some(text)) => next(text),
        Ok(None) => empty(),
        Err(d) => err(d),
    }
}

/// The characters of `endgroup` from position `i` on, each between
/// backquotes, with a comma and a space between two of them.
pub open spec fn quoted_list(endgroup: Seq<char>, i: int) -> Seq<char>
    decreases endgroup.len() - i,
{
    if i < 0 || i >= endgroup.len() {
        Seq::empty()
    } else {
        (if i == 0 {
            "`"@
        } else {
            ", `"@
        }) + seq![endgroup[i]] + "`"@ + quoted_list(endgroup, i + 1)
    }
}

/// The message that one of `endgroup` was expected.
pub open spec fn expected_message(endgroup: Seq<char>) -> Seq<char> {
    quoted_list(endgroup, 0) + " was expected."@
}

/// What has to follow a group, and whether it does.
///
/// After a group in parentheses one of the characters of `endgroup` must
/// stand at `nodes[pos]`; the result is then its position. After a group in
/// braces nothing is asked and nothing is taken. Other groups are refused.
pub open spec fn endgroup_checked(
    group: Node,
    nodes: Seq<Node>,
    pos: int,
    endgroup: Seq<char>,
) -> Result<Option<int>, DiagnosticView> {
    match group->Group_delimiter {
        Delimiter::Parenthesis => if 0 <= pos < nodes.len() {
            match nodes[pos] {
                Node::Punct { ch, span, .. } => if endgroup.contains(ch) {
                    Ok(Some(pos))
                } else {
                    Err(DiagnosticView { message: expected_message(endgroup), span })
                },
                other => Err(
                    DiagnosticView { message: expected_message(endgroup), span: span_of(other) },
                ),
            }
        } else {
            Err(DiagnosticView { message: expected_message(endgroup), span: span_of(group) })
        },
        Delimiter::Brace => Ok(None),
        Delimiter::Bracket | Delimiter::None => Err(
            DiagnosticView { message: "Unsupported group type."@, span: span_of(group) },
        ),
    }
}

fn make_endroup_str(endgroup: &Vec<char>) -> (r: String)
    ensures
        r@ == quoted_list(endgroup@, 0),
{
    let mut out = String::new();
    let mut i: usize = 0;
    while i < endgroup.len()
        invariant
            i <= endgroup.len(),
            out@ + quoted_list(endgroup@, i as int) == quoted_list(endgroup@, 0),
        decreases endgroup.len() - i,
    {
        if i == 0 {
            out.append("`");
        } else {
            out.append(", `");
        }
        push_char(&mut out, endgroup[i]);
        out.append("`");
        i += 1;
    }
    out
}

fn expected(endgroup: &Vec<char>, span: Span) -> (d: Diagnostic)
    ensures
        d@ == (DiagnosticView { message: expected_message(endgroup@), span }),
{
    let mut message = make_endroup_str(endgroup);
    message.append(" was expected.");
    Diagnostic { message, span }
}

fn is_endgroup(ch: char, endgroup: &Vec<char>) -> (r: bool)
    ensures
        r == endgroup@.contains(ch),
{
    let mut i: usize = 0;
    while i < endgroup.len()
        invariant
            i <= endgroup.len(),
            forall|j: int| 0 <= j < i ==> endgroup@[j] != ch,
        decreases endgroup.len() - i,
    {
        if endgroup[i] == ch {
            return true;
        }
        i += 1;
    }
    false
}

/// Checks what follows a group: see [`endgroup_checked`].
pub fn check_correct_endgroup(
    group: &Group,
    nodes: &Vec<SyntaxNode>,
    pos: usize,
    endgroup: &Vec<char>,
) -> (r: TreeResult<Option<usize>>)
    ensures
        match r {
            Ok(Some(at)) => endgroup_checked(group@, views(nodes@), pos as int, endgroup@) == Ok::<
                Option<int>,
                DiagnosticView,
            >(Some(at as int)),
            Ok(None) => endgroup_checked(group@, views(nodes@), pos as int, endgroup@) == Ok::<
                Option<int>,
                DiagnosticView,
            >(None),
            Err(d) => endgroup_checked(group@, views(nodes@), pos as int, endgroup@) == Err::<
                Option<int>,
                DiagnosticView,
            >(d@),
        },
{
    match group.delimiter {
        Delimiter::Parenthesis => {
            if pos < nodes.len() {
                match &nodes[pos] {
                    SyntaxNode::Punct { ch, span, .. } => {
                        if is_endgroup(*ch, endgroup) {
                            Ok(Some(pos))
                        } else {
                            Err(expected(endgroup, *span))
                        }
                    },
                    other => Err(expected(endgroup, other.span())),
                }
            } else {
                Err(expected(endgroup, group.span))
            }
        },
        Delimiter::Brace => Ok(None),
        Delimiter::Bracket | Delimiter::None => Err(
            throw_sg_err(group.span, "Unsupported group type."),
        ),
    }
}

} // verus!
