use include_tt::literal::{ExprLit, ExprLitTryNewErr};
use proc_macro2::Span;

#[test]
fn test_literal() {
    assert_eq!(ExprLit::try_new(""), Err(ExprLitTryNewErr::expr_len(0, 2)));
    assert_eq!(ExprLit::try_new("\""), Err(ExprLitTryNewErr::expr_len(1, 2)));
    assert_eq!(ExprLit::try_new("\"\""), Ok(ExprLit::new_unchecked("")));
    assert_eq!(ExprLit::try_new("'\\'"), Ok(ExprLit::new_unchecked("\\")));
}

#[test]
fn literal_shorter_than_two_bytes_is_rejected_with_its_length() {
    for a in ["", "\"", "'", "a", " "] {
        assert_eq!(
            ExprLit::try_new(a),
            Err(ExprLitTryNewErr::ExpLen { current: a.len(), exp: 2 })
        );
    }
}

#[test]
fn single_quoted_literal_must_have_three_bytes() {
    assert_eq!(ExprLit::try_new("''"), Err(ExprLitTryNewErr::ExpLen { current: 2, exp: 3 }));
    assert_eq!(ExprLit::try_new("'ab'"), Err(ExprLitTryNewErr::ExpLen { current: 4, exp: 3 }));
    assert_eq!(
        ExprLit::try_new("'abcdef'"),
        Err(ExprLitTryNewErr::ExpLen { current: 8, exp: 3 })
    );
    // One character of two bytes: four bytes in all.
    assert_eq!(ExprLit::try_new("'é'"), Err(ExprLitTryNewErr::ExpLen { current: 4, exp: 3 }));
    assert_eq!(ExprLit::try_new("'T'").unwrap().as_str(), "T");
    assert_eq!(ExprLit::try_new("'/'").unwrap().as_str(), "/");
}

#[test]
fn double_quoted_literal_gives_its_inner_text() {
    assert_eq!(ExprLit::try_new("\"./test\"").unwrap().as_str(), "./test");
    assert_eq!(ExprLit::try_new("\"a\"").unwrap().as_str(), "a");
    assert_eq!(ExprLit::try_new("\"päth/ü.tt\"").unwrap().as_str(), "päth/ü.tt");
    assert_eq!(ExprLit::try_new("\"a\\\\b\"").unwrap().as_str(), "a\\\\b");
    assert!(ExprLit::try_new("\"\"").unwrap().is_empty());
    assert!(!ExprLit::try_new("\"x\"").unwrap().is_empty());
}

#[test]
fn literal_without_matching_quotes_is_rejected() {
    for a in ["ab", "\"a'", "'a\"", "\"abc", "abc\"", "é", "'a", "123", "b\"x\""] {
        assert_eq!(ExprLit::try_new(a), Err(ExprLitTryNewErr::ExpQuotes), "{a}");
    }
}

#[test]
fn unshield_drops_each_backslash_and_keeps_what_follows() {
    assert_eq!(ExprLit::new_unchecked("a\\\\b").unshield(), "a\\b");
    assert_eq!(ExprLit::new_unchecked("a\\nb").unshield(), "anb");
    assert_eq!(ExprLit::new_unchecked("\\\"x\\\"").unshield(), "\"x\"");
    assert_eq!(ExprLit::new_unchecked("plain").unshield(), "plain");
    assert_eq!(ExprLit::new_unchecked("").unshield(), "");
    // A backslash that ends the text is dropped.
    assert_eq!(ExprLit::new_unchecked("end\\").unshield(), "end");
    assert_eq!(ExprLit::new_unchecked("\\").unshield(), "");
    assert_eq!(ExprLit::new_unchecked("\\\\\\").unshield(), "\\");
}

#[test]
fn try_new_with_fns_calls_the_matching_continuation() {
    let ok = ExprLit::try_new_with_fns("\"p\"", |lit| lit.as_str().len(), |_| 100);
    assert_eq!(ok, 1);
    let err = ExprLit::try_new_with_fns("px", |_| None, Some);
    assert_eq!(err, Some(ExprLitTryNewErr::ExpQuotes));
}

#[test]
fn literal_errors_have_their_messages() {
    let span = Span::call_site();
    let d = ExprLitTryNewErr::expr_len(1, 2).into_tt_err(span);
    assert_eq!(d.message, "More char expected, current: 1, exp: 2.");
    let d = ExprLitTryNewErr::expr_len(1234567890, 3).into_tt_err(span);
    assert_eq!(d.message, "More char expected, current: 1234567890, exp: 3.");
    let d = ExprLitTryNewErr::expr_len(0, 10).into_tt_err(span);
    assert_eq!(d.message, "More char expected, current: 0, exp: 10.");
    let d = ExprLitTryNewErr::ExpQuotes.into_tt_err(span);
    assert_eq!(d.message, "Double quotes were expected.");
}
