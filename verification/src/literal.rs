//! The literal of a path: a text in double quotes, or one character in
//! single quotes.

use crate::result::{Diagnostic, DiagnosticView};
use crate::text::{decimal, push_decimal};
use proc_macro2::Span;
use vstd::prelude::*;
use vstd::string::StrSliceExecFns;
use vstd::string::StringExecFns;
use vstd::utf8::{char_u32_cast, encode_scalar, encode_utf8, has_width_1_encoding};

verus! {

/// The text between the quotes of a literal such as `"./test"`.
#[derive(Debug, PartialEq, Eq)]
pub struct ExprLit {
    text: String,
}

impl View for ExprLit {
    type V = Seq<char>;

    closed spec fn view(&self) -> Seq<char> {
        self.text@
    }
}

/// Why a text is no literal of a path.
#[derive(Debug, Clone, Copy, PartialEq, Eq, Structural)]
pub enum ExprLitTryNewErr {
    /// The text has `current` bytes where `exp` were expected.
    ExpLen { current: usize, exp: usize },
    /// The text does not stand between two matching quotes.
    ExpQuotes,
}

/// The number of bytes of a text in UTF-8.
pub open spec fn byte_len(a: Seq<char>) -> nat {
    encode_utf8(a).len()
}

/// Whether a text begins and ends with the quote `q`, on two characters of
/// its own.
pub open spec fn quoted_by(a: Seq<char>, q: char) -> bool {
    a.len() >= 2 && a.first() == q && a.last() == q
}

/// A text without its first and its last character.
pub open spec fn inner_text(a: Seq<char>) -> Seq<char> {
    a.subrange(1, a.len() - 1)
}

/// What a literal's source text unwraps to.
///
/// A text of fewer than two bytes is too short. Between double quotes any
/// text is accepted; between single quotes exactly one byte. Everything
/// else lacks its quotes.
pub open spec fn unquoted(a: Seq<char>) -> Result<Seq<char>, ExprLitTryNewErr> {
    if byte_len(a) < 2 {
        Err(ExprLitTryNewErr::ExpLen { current: byte_len(a) as usize, exp: 2 })
    } else if quoted_by(a, '"') {
        Ok(inner_text(a))
    } else if quoted_by(a, '\'') {
        if byte_len(a) != 3 {
            Err(ExprLitTryNewErr::ExpLen { current: byte_len(a) as usize, exp: 3 })
        } else {
            Ok(inner_text(a))
        }
    } else {
        Err(ExprLitTryNewErr::ExpQuotes)
    }
}

/// A text with its backslashes unshielded, read from position `i`: a
/// backslash is dropped and the character after it is kept as it is; a
/// backslash at the very end is dropped.
pub open spec fn unshielded_from(s: Seq<char>, i: int) -> Seq<char>
    decreases s.len() - i,
{
    if i < 0 || i >= s.len() {
        Seq::empty()
    } else if s[i] == '\\' {
        if i + 1 < s.len() {
            seq![s[i + 1]] + unshielded_from(s, i + 2)
        } else {
            Seq::empty()
        }
    } else {
        seq![s[i]] + unshielded_from(s, i + 1)
    }
}

/// A text with its backslashes unshielded.
pub open spec fn unshielded(s: Seq<char>) -> Seq<char> {
    unshielded_from(s, 0)
}

/// The message of a literal error.
pub open spec fn literal_error_message(e: ExprLitTryNewErr) -> Seq<char> {
    match e {
        ExprLitTryNewErr::ExpLen { current, exp } => "More char expected, current: "@ + decimal(
            current as nat,
        ) + ", exp: "@ + decimal(exp as nat) + "."@,
        ExprLitTryNewErr::ExpQuotes => "Double quotes were expected."@,
    }
}

impl ExprLitTryNewErr {
    /// The error of a text that has `current` bytes where `exp` were
    /// expected.
    pub fn expr_len(current: usize, exp: usize) -> (e: Self)
        ensures
            e == (ExprLitTryNewErr::ExpLen { current, exp }),
    {
        Self::ExpLen { current, exp }
    }

    /// The diagnostic of this error at the place of the literal.
    pub fn into_tt_err(self, span: Span) -> (d: Diagnostic)
        ensures
            d@ == (DiagnosticView { message: literal_error_message(self), span }),
    {
        match self {
            Self::ExpLen { current, exp } => {
                let mut message = "More char expected, current: ".to_owned();
                push_decimal(&mut message, current);
                message.append(", exp: ");
                push_decimal(&mut message, exp);
                message.append(".");
                Diagnostic { message, span }
            },
            Self::ExpQuotes => Diagnostic {
                message: "Double quotes were expected.".to_owned(),
                span,
            },
        }
    }
}

impl ExprLit {
    /// A literal's text that is taken as it is, without quotes to remove.
    pub fn new_unchecked(a: &str) -> (lit: Self)
        ensures
            lit@ == a@,
    {
        ExprLit { text: a.to_owned() }
    }

    /// Unwraps the source text of a literal, quotes included.
    pub fn try_new(a: &str) -> (r: Result<ExprLit, ExprLitTryNewErr>)
        ensures
            match r {
                Ok(lit) => unquoted(a@) == Ok::<Seq<char>, ExprLitTryNewErr>(lit@),
                Err(e) => unquoted(a@) == Err::<Seq<char>, ExprLitTryNewErr>(e),
            },
            byte_len(a@) < 2 ==> r == Err::<ExprLit, ExprLitTryNewErr>(
                ExprLitTryNewErr::ExpLen { current: byte_len(a@) as usize, exp: 2 },
            ),
            quoted_by(a@, '\'') && byte_len(a@) != 3 ==> r == Err::<ExprLit, ExprLitTryNewErr>(
                ExprLitTryNewErr::ExpLen { current: byte_len(a@) as usize, exp: 3 },
            ),
            quoted_by(a@, '"') || (quoted_by(a@, '\'') && byte_len(a@) == 3) ==> r is Ok
                && r->Ok_0@ == inner_text(a@),
    {
        let len = a.as_bytes().len();
        proof {
            lemma_byte_len_bounds(a@);
        }
        if len < 2 {
            return Err(ExprLitTryNewErr::expr_len(len, 2));
        }
        let n = a.unicode_len();
        let first = a.get_char(0);
        let last = a.get_char(n - 1);
        if n >= 2 && first == '"' && last == '"' {
            Ok(ExprLit { text: a.substring_char(1, n - 1).to_owned() })
        } else if n >= 2 && first == '\'' && last == '\'' {
            if len != 3 {
                Err(ExprLitTryNewErr::expr_len(len, 3))
            } else {
                Ok(ExprLit { text: a.substring_char(1, n - 1).to_owned() })
            }
        } else {
            Err(ExprLitTryNewErr::ExpQuotes)
        }
    }

    /// Unwraps the source text of a literal and hands the outcome to one of
    /// two continuations.
    pub fn try_new_with_fns<R>(
        a: &str,
        next: impl FnOnce(ExprLit) -> R,
        err: impl FnOnce(ExprLitTryNewErr) -> R,
    ) -> (r: R)
        requires
            match unquoted(a@) {
                Ok(inner) => forall|lit: ExprLit| lit@ == inner ==> next.requires((lit,)),
                Err(e) => err.requires((e,)),
            },
        ensures
            match unquoted(a@) {
                Ok(inner) => exists|lit: ExprLit| lit@ == inner && next.ensures((lit,), r),
                Err(e) => err.ensures((e,), r),
            },
    {
        match ExprLit::try_new(a) {
            Ok(lit) => next(lit),
            Err(e) => err(e),
        }
    }

    /// Whether the text is empty.
    pub fn is_empty(&self) -> (r: bool)
        ensures
            r == (self@.len() == 0),
    {
        self.text.as_str().is_empty()
    }

    /// The text.
    pub fn as_str(&self) -> (s: &str)
        ensures
            s@ == self@,
    {
        self.text.as_str()
    }

    /// The text with its backslashes unshielded.
    pub fn unshield(&self) -> (r: String)
        ensures
            r@ == unshielded(self@),
    {
        let s = self.text.as_str();
        let mut out = String::new();
        let mut escaped = false;
        for c in it: s.chars()
            invariant
                it.seq() == s@,
                escaped ==> it.index() >= 1 && s@[it.index() - 1] == '\\' && out@ + unshielded_from(
                    s@,
                    it.index() - 1,
                ) == unshielded(s@),
                !escaped ==> out@ + unshielded_from(s@, it.index() as int) == unshielded(s@),
        {
            if escaped {
                out.push(c);
                escaped = false;
            } else if c == '\\' {
                escaped = true;
            } else {
                out.push(c);
            }
        }
        out
    }
}

/// The encoding of a character begins with a given byte of the ASCII
/// range exactly when the character is that byte, and ends with it exactly
/// then too.
proof fn lemma_scalar_ends(c: char, q: u8)
    requires
        q < 0x80,
    ensures
        encode_scalar(c as u32).len() >= 1,
        encode_scalar(c as u32)[0] == q <==> c as u32 == q as u32,
        encode_scalar(c as u32).last() == q <==> c as u32 == q as u32,
{
    let v = c as u32;
    if has_width_1_encoding(v) {
        assert((v & 0x7F) as u8 == q <==> v == q as u32) by (bit_vector)
            requires
                v <= 0x7F,
                q < 0x80,
        ;
    } else {
        assert((0xC0 | ((v >> 6) & 0x1F) as u8) >= 0x80) by (bit_vector);
        assert((0xE0 | ((v >> 12) & 0x0F) as u8) >= 0x80) by (bit_vector);
        assert((0xF0 | ((v >> 18) & 0x7) as u8) >= 0x80) by (bit_vector);
        assert((0x80 | (v & 0x3F) as u8) >= 0x80) by (bit_vector);
    }
}

/// The first byte of a text is the first byte of its first character, and
/// the last byte the last byte of its last character.
proof fn lemma_text_ends(a: Seq<char>)
    requires
        a.len() >= 1,
    ensures
        byte_len(a) >= 1,
        encode_utf8(a)[0] == encode_scalar(a[0] as u32)[0],
        encode_utf8(a).last() == encode_scalar(a.last() as u32).last(),
    decreases a.len(),
{
    lemma_scalar_ends(a[0], 0);
    let rest = a.drop_first();
    if rest.len() >= 1 {
        lemma_text_ends(rest);
        assert(rest.last() == a.last());
    } else {
        assert(encode_utf8(rest) =~= Seq::<u8>::empty());
    }
}

/// The quotes of a literal are told by its first and its last byte: a text
/// of two bytes or more stands between two quotes exactly when its first
/// byte and its last byte are that quote.
pub proof fn lemma_quoted_by_bytes(a: Seq<char>, q: char)
    requires
        q == '"' || q == '\'',
        byte_len(a) >= 2,
    ensures
        quoted_by(a, q) <==> encode_utf8(a)[0] == q as u8 && encode_utf8(a).last() == q as u8,
{
    lemma_byte_len_bounds(a);
    lemma_text_ends(a);
    lemma_scalar_ends(a[0], q as u8);
    lemma_scalar_ends(a.last(), q as u8);
    assert((q as u8) < 0x80 && ((q as u8) as u32) == (q as u32));
    char_u32_cast(q, q as u32);
    char_u32_cast(a[0], a[0] as u32);
    char_u32_cast(a.last(), a.last() as u32);
    if a.len() == 1 {
        assert(encode_utf8(a.drop_first()) =~= Seq::<u8>::empty());
        assert(a[0] == q ==> encode_scalar(a[0] as u32).len() == 1);
    }
}

/// A text has at least as many bytes as characters, and none when it is
/// empty.
pub proof fn lemma_byte_len_bounds(a: Seq<char>)
    ensures
        byte_len(a) >= a.len(),
        a.len() == 0 ==> byte_len(a) == 0,
    decreases a.len(),
{
    if a.len() > 0 {
        lemma_byte_len_bounds(a.drop_first());
    }
}

} // verus!
