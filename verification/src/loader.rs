//! From the bytes of a file to what a marker splices in: a parsed tree, a
//! text, or the bytes themselves.

use crate::literal::byte_len;
use crate::node::{shapes, views, Node, Shape, SyntaxNode};
use crate::result::{Diagnostic, DiagnosticView};
use crate::stream::{parse_nodes, parsed_tokens};
use crate::text::text_of_bytes;
use proc_macro2::Span;
use vstd::prelude::*;
use vstd::string::StringExecFns;
use vstd::utf8::{decode_utf8, encode_scalar, valid_utf8};

verus! {

/// What a marker makes of its file.
#[derive(Debug, Clone, Copy, PartialEq, Eq, Structural)]
pub enum IncludeKind {
    /// The file's text, parsed into a tree.
    Tt,
    /// As `Tt`, after the text's stray backslashes have been blanked.
    Ctt,
    /// The file's text as one string literal.
    Str,
    /// The file's bytes as one byte string literal.
    Arr,
}

/// A file that the walk needs before it can go on.
#[derive(Debug, PartialEq, Eq)]
pub struct Request {
    pub kind: IncludeKind,
    pub path: String,
}

/// The mathematical value of a [`Request`].
pub ghost struct RequestView {
    pub kind: IncludeKind,
    pub path: Seq<char>,
}

impl View for Request {
    type V = RequestView;

    open spec fn view(&self) -> RequestView {
        RequestView { kind: self.kind, path: self.path@ }
    }
}

/// Why a file gave nothing to splice in.
#[derive(Debug, PartialEq, Eq)]
pub enum LoadFileAndAutoMakeTreeErr {
    /// The file could not be read. `err` describes the failure, `path` the
    /// file.
    ReadToString { err: String, path: String },
    /// The file's text is no sequence of tokens. The field is the parser's
    /// message.
    ParseStr(String),
}

/// The mathematical value of a [`LoadFileAndAutoMakeTreeErr`].
pub ghost enum LoadErr {
    ReadToString { err: Seq<char>, path: Seq<char> },
    ParseStr(Seq<char>),
}

impl View for LoadFileAndAutoMakeTreeErr {
    type V = LoadErr;

    open spec fn view(&self) -> LoadErr {
        match self {
            LoadFileAndAutoMakeTreeErr::ReadToString { err, path } => LoadErr::ReadToString {
                err: err@,
                path: path@,
            },
            LoadFileAndAutoMakeTreeErr::ParseStr(message) => LoadErr::ParseStr(message@),
        }
    }
}

/// The message of a load error.
pub open spec fn load_error_message(e: LoadErr) -> Seq<char> {
    match e {
        LoadErr::ReadToString { err, path } => "Error loading file, err: '"@ + err + "', path: "@
            + path + "."@,
        LoadErr::ParseStr(message) => "Failed to convert to tree `tt`: '"@ + message + "'."@,
    }
}

impl Clone for LoadFileAndAutoMakeTreeErr {
    fn clone(&self) -> (e: Self)
        ensures
            e@ == self@,
    {
        match self {
            Self::ReadToString { err, path } => Self::ReadToString {
                err: err.clone(),
                path: path.clone(),
            },
            Self::ParseStr(message) => Self::ParseStr(message.clone()),
        }
    }
}

impl LoadFileAndAutoMakeTreeErr {
    /// The error of a file that could not be read.
    pub fn read_to_string(err: String, path: String) -> (e: Self)
        ensures
            e@ == (LoadErr::ReadToString { err: err@, path: path@ }),
    {
        Self::ReadToString { err, path }
    }

    /// The diagnostic of this error at the place of the path.
    pub fn into_tt_err(self, span: Span) -> (d: Diagnostic)
        ensures
            d@ == (DiagnosticView { message: load_error_message(self@), span }),
    {
        match self {
            Self::ReadToString { err, path } => {
                let mut message = "Error loading file, err: '".to_owned();
                message.append(err.as_str());
                message.append("', path: ");
                message.append(path.as_str());
                message.append(".");
                Diagnostic { message, span }
            },
            Self::ParseStr(e) => {
                let mut message = "Failed to convert to tree `tt`: '".to_owned();
                message.append(e.as_str());
                message.append("'.");
                Diagnostic { message, span }
            },
        }
    }
}

/// The content of one file, made ready for its marker.
#[derive(Debug)]
pub enum Loaded {
    /// The tokens of the file; `None` for an empty file.
    Tree(Option<Vec<SyntaxNode>>),
    /// The text of the file.
    Str(String),
    /// The bytes of the file.
    Arr(Vec<u8>),
    /// The file could not be read or parsed.
    Failed(LoadFileAndAutoMakeTreeErr),
}

/// The mathematical value of a [`Loaded`].
pub ghost enum LoadedView {
    Tree(Option<Seq<Node>>),
    Str(Seq<char>),
    Arr(Seq<u8>),
    Failed(LoadErr),
}

impl View for Loaded {
    type V = LoadedView;

    open spec fn view(&self) -> LoadedView {
        match self {
            Loaded::Tree(Some(nodes)) => LoadedView::Tree(Some(views(nodes@))),
            Loaded::Tree(None) => LoadedView::Tree(None),
            Loaded::Str(s) => LoadedView::Str(s@),
            Loaded::Arr(bytes) => LoadedView::Arr(bytes@),
            Loaded::Failed(e) => LoadedView::Failed(e@),
        }
    }
}

/// The values of a sequence of loaded files, in order.
pub open spec fn loaded_views(s: Seq<Loaded>) -> Seq<LoadedView> {
    Seq::new(s.len(), |i: int| s[i]@)
}

/// Whether a backslash before this character is blanked.
pub open spec fn is_blank(c: char) -> bool {
    c == '\n' || c == '\t' || c == '\r' || c == ' '
}

/// The text from position `i` on, with its stray backslashes blanked.
///
/// The text is read in pairs from each backslash: a backslash before a
/// blank becomes a space, before any other character it stays, and the
/// character after it is passed over. A backslash that ends the text
/// becomes a space.
pub open spec fn fixed_from(s: Seq<char>, i: int) -> Seq<char>
    decreases s.len() - i,
{
    if i < 0 || i >= s.len() {
        Seq::empty()
    } else if s[i] == '\\' {
        if i + 1 < s.len() {
            seq![if is_blank(s[i + 1]) { ' ' } else { '\\' }, s[i + 1]] + fixed_from(s, i + 2)
        } else {
            seq![' ']
        }
    } else {
        seq![s[i]] + fixed_from(s, i + 1)
    }
}

/// A text with its stray backslashes blanked.
pub open spec fn fixed(s: Seq<char>) -> Seq<char> {
    fixed_from(s, 0)
}

/// Blanking keeps the number of characters.
pub proof fn lemma_fixed_len(s: Seq<char>, i: int)
    requires
        0 <= i <= s.len(),
    ensures
        fixed_from(s, i).len() == s.len() - i,
    decreases s.len() - i,
{
    if i < s.len() {
        if s[i] == '\\' {
            if i + 1 < s.len() {
                lemma_fixed_len(s, i + 2);
            }
        } else {
            lemma_fixed_len(s, i + 1);
        }
    }
}

/// The bytes of a text with one more character in front.
proof fn lemma_byte_len_cons(c: char, t: Seq<char>)
    ensures
        byte_len(seq![c] + t) == encode_scalar(c as u32).len() + byte_len(t),
{
    assert((seq![c] + t).drop_first() =~= t);
}

/// Blanking keeps the number of bytes.
pub proof fn lemma_fixed_byte_len(s: Seq<char>, i: int)
    requires
        0 <= i <= s.len(),
    ensures
        byte_len(fixed_from(s, i)) == byte_len(s.subrange(i, s.len() as int)),
    decreases s.len() - i,
{
    let n = s.len() as int;
    if i < n {
        lemma_byte_len_cons(s[i], s.subrange(i + 1, n));
        assert(seq![s[i]] + s.subrange(i + 1, n) =~= s.subrange(i, n));
        if s[i] == '\\' {
            if i + 1 < n {
                let first = if is_blank(s[i + 1]) {
                    ' '
                } else {
                    '\\'
                };
                lemma_byte_len_cons(s[i + 1], s.subrange(i + 2, n));
                assert(seq![s[i + 1]] + s.subrange(i + 2, n) =~= s.subrange(i + 1, n));
                lemma_fixed_byte_len(s, i + 2);
                lemma_byte_len_cons(s[i + 1], fixed_from(s, i + 2));
                lemma_byte_len_cons(first, seq![s[i + 1]] + fixed_from(s, i + 2));
                assert(seq![first] + (seq![s[i + 1]] + fixed_from(s, i + 2)) =~= fixed_from(s, i));
            } else {
                lemma_byte_len_cons(' ', Seq::empty());
                assert(seq![' '] + Seq::<char>::empty() =~= fixed_from(s, i));
                assert(s.subrange(i + 1, n) =~= Seq::<char>::empty());
            }
        } else {
            lemma_fixed_byte_len(s, i + 1);
            lemma_byte_len_cons(s[i], fixed_from(s, i + 1));
        }
    }
}

/// Blanks the stray backslashes of a text, so that a file written for a
/// language that ends its lines with `\` can be read as tokens. The text
/// keeps its length, in characters and in bytes.
pub fn fix_unknown_start_token(text: &str) -> (r: String)
    ensures
        r@ == fixed(text@),
        r@.len() == text@.len(),
        byte_len(r@) == byte_len(text@),
{
    let mut out = String::new();
    let mut pending = false;
    for c in it: text.chars()
        invariant
            it.seq() == text@,
            pending ==> it.index() >= 1 && text@[it.index() - 1] == '\\' && out@ + fixed_from(
                text@,
                it.index() - 1,
            ) == fixed(text@),
            !pending ==> out@ + fixed_from(text@, it.index() as int) == fixed(text@),
    {
        if pending {
            if c == '\n' || c == '\t' || c == '\r' || c == ' ' {
                out.push(' ');
            } else {
                out.push('\\');
            }
            out.push(c);
            pending = false;
        } else if c == '\\' {
            pending = true;
        } else {
            out.push(c);
        }
    }
    if pending {
        out.push(' ');
    }
    proof {
        lemma_fixed_len(text@, 0);
        lemma_fixed_byte_len(text@, 0);
        assert(text@.subrange(0, text@.len() as int) =~= text@);
    }
    out
}

/// What the bytes of a file give as a tree: nothing for an empty file, the
/// shapes of its tokens, or an error. `read` is the outcome of reading the
/// file, `path` names the file in an error of the library's own, and `fix`
/// asks for the stray backslashes to be blanked before the parse.
pub open spec fn tree_of_file(read: Result<Seq<u8>, LoadErr>, path: Seq<char>, fix: bool) -> Result<
    Option<Seq<Shape>>,
    LoadErr,
> {
    match read {
        Err(e) => Err(e),
        Ok(bytes) => match text_of_file(Ok(bytes), path) {
            Err(e) => Err(e),
            Ok(text) => if text.len() == 0 {
                Ok(None)
            } else {
                match parsed_tokens(
                    if fix {
                        fixed(text)
                    } else {
                        text
                    },
                ) {
                    Ok(tokens) => Ok(Some(tokens)),
                    Err(message) => Err(LoadErr::ParseStr(message)),
                }
            },
        },
    }
}

/// What the bytes of a file give as a text: the text they encode, or an
/// error where they are no UTF-8.
pub open spec fn text_of_file(read: Result<Seq<u8>, LoadErr>, path: Seq<char>) -> Result<
    Seq<char>,
    LoadErr,
> {
    match read {
        Err(e) => Err(e),
        Ok(bytes) => if valid_utf8(bytes) {
            Ok(decode_utf8(bytes))
        } else {
            Err(LoadErr::ReadToString { err: "stream did not contain valid UTF-8"@, path })
        },
    }
}

/// The text of a file that was read.
pub fn load_file_text(read: Result<Vec<u8>, LoadFileAndAutoMakeTreeErr>, path: &str) -> (r: Result<
    String,
    LoadFileAndAutoMakeTreeErr,
>)
    ensures
        match r {
            Ok(text) => text_of_file(read_view(read), path@) == Ok::<Seq<char>, LoadErr>(text@),
            Err(e) => text_of_file(read_view(read), path@) == Err::<Seq<char>, LoadErr>(e@),
        },
{
    match read {
        Err(e) => Err(e),
        Ok(bytes) => match text_of_bytes(bytes) {
            Some(text) => Ok(text),
            None => Err(
                LoadFileAndAutoMakeTreeErr::read_to_string(
                    "stream did not contain valid UTF-8".to_owned(),
                    path.to_owned(),
                ),
            ),
        },
    }
}

/// The value of what reading a file gave.
pub open spec fn read_view(read: Result<Vec<u8>, LoadFileAndAutoMakeTreeErr>) -> Result<
    Seq<u8>,
    LoadErr,
> {
    match read {
        Ok(bytes) => Ok(bytes@),
        Err(e) => Err(e@),
    }
}

/// The tree of a file that was read: `None` for an empty file, without a
/// parse; else the tokens that the parser finds in the text.
pub fn load_file_and_automake_tree(
    read: Result<Vec<u8>, LoadFileAndAutoMakeTreeErr>,
    path: &str,
    fix: bool,
) -> (r: Result<Option<Vec<SyntaxNode>>, LoadFileAndAutoMakeTreeErr>)
    ensures
        match r {
            Ok(Some(nodes)) => tree_of_file(read_view(read), path@, fix) == Ok::<
                Option<Seq<Shape>>,
                LoadErr,
            >(Some(shapes(views(nodes@)))),
            Ok(None) => tree_of_file(read_view(read), path@, fix) == Ok::<
                Option<Seq<Shape>>,
                LoadErr,
            >(None),
            Err(e) => tree_of_file(read_view(read), path@, fix) == Err::<
                Option<Seq<Shape>>,
                LoadErr,
            >(e@),
        },
{
    let text = match load_file_text(read, path) {
        Ok(text) => text,
        Err(e) => {
            return Err(e);
        },
    };
    if text.as_str().is_empty() {
        return Ok(None);
    }
    let parsed = if fix {
        let prepared = fix_unknown_start_token(text.as_str());
        parse_nodes(prepared.as_str())
    } else {
        parse_nodes(text.as_str())
    };
    match parsed {
        Ok(nodes) => Ok(Some(nodes)),
        Err(message) => Err(LoadFileAndAutoMakeTreeErr::ParseStr(message)),
    }
}

/// As [`load_file_and_automake_tree`], with the outcome handed to one of
/// two continuations.
pub fn load_file_and_automake_tree_with_fns<R>(
    read: Result<Vec<u8>, LoadFileAndAutoMakeTreeErr>,
    path: &str,
    fix: bool,
    next: impl FnOnce(Option<Vec<SyntaxNode>>) -> R,
    err: impl FnOnce(LoadFileAndAutoMakeTreeErr) -> R,
) -> (r: R)
    requires
        forall|tree: Option<Vec<SyntaxNode>>| next.requires((tree,)),
        forall|e: LoadFileAndAutoMakeTreeErr| err.requires((e,)),
    ensures
        match tree_of_file(read_view(read), path@, fix) {
            Ok(Some(tokens)) => exists|nodes: Vec<SyntaxNode>|
                shapes(views(nodes@)) == tokens && next.ensures((Some(nodes),), r),
            Ok(None) => next.ensures((None,), r),
            Err(e) => exists|error: LoadFileAndAutoMakeTreeErr|
                error@ == e && err.ensures((error,), r),
        },
{
    match load_file_and_automake_tree(read, path, fix) {
        Ok(tree) => next(tree),
        Err(e) => err(e),
    }
}

/// What a marker of the given kind gets from a file that was read.
///
/// A tree marker gets the parsed tree, a string marker the decoded text, a
/// byte marker the bytes as they are. Whatever fails on the way is kept as
/// the error that the marker will report.
pub fn load(request: &Request, read: Result<Vec<u8>, LoadFileAndAutoMakeTreeErr>) -> (loaded:
    Loaded)
    ensures
        match request.kind {
            IncludeKind::Tt | IncludeKind::Ctt => match loaded {
                Loaded::Tree(Some(nodes)) => tree_of_file(
                    read_view(read),
                    request.path@,
                    request.kind == IncludeKind::Ctt,
                ) == Ok::<Option<Seq<Shape>>, LoadErr>(Some(shapes(views(nodes@)))),
                Loaded::Tree(None) => tree_of_file(
                    read_view(read),
                    request.path@,
                    request.kind == IncludeKind::Ctt,
                ) == Ok::<Option<Seq<Shape>>, LoadErr>(None),
                Loaded::Failed(e) => tree_of_file(
                    read_view(read),
                    request.path@,
                    request.kind == IncludeKind::Ctt,
                ) == Err::<Option<Seq<Shape>>, LoadErr>(e@),
                _ => false,
            },
            IncludeKind::Str => loaded@ == match text_of_file(read_view(read), request.path@) {
                Ok(text) => LoadedView::Str(text),
                Err(e) => LoadedView::Failed(e),
            },
            IncludeKind::Arr => loaded@ == match read_view(read) {
                Ok(bytes) => LoadedView::Arr(bytes),
                Err(e) => LoadedView::Failed(e),
            },
        },
{
    match request.kind {
        IncludeKind::Tt => match load_file_and_automake_tree(read, request.path.as_str(), false) {
            Ok(tree) => Loaded::Tree(tree),
            Err(e) => Loaded::Failed(e),
        },
        IncludeKind::Ctt => match load_file_and_automake_tree(read, request.path.as_str(), true) {
            Ok(tree) => Loaded::Tree(tree),
            Err(e) => Loaded::Failed(e),
        },
        IncludeKind::Str => match load_file_text(read, request.path.as_str()) {
            Ok(text) => Loaded::Str(text),
            Err(e) => Loaded::Failed(e),
        },
        IncludeKind::Arr => match read {
            Ok(bytes) => Loaded::Arr(bytes),
            Err(e) => Loaded::Failed(e),
        },
    }
}

} // verus!
