use macro_diag::emit::{error_tokens_from_text, error_ts};
use macro_diag::message::FormatArgs;
use macro_diag::span::{Span, SpanRange};
use macro_diag::tokens::{Delim, Spacing, TokenStream, TokenTree};

fn msg(pieces: &[&str], args: &[&str]) -> FormatArgs {
    FormatArgs::new(
        pieces.iter().map(|p| p.to_string()).collect(),
        args.iter().map(|a| a.to_string()).collect(),
    )
}

fn check_directive(ts: &TokenStream, text: &str, start: Span, end: Span) {
    assert_eq!(ts.trees.len(), 3);
    match &ts.trees[0] {
        TokenTree::Ident { name, tag } => {
            assert_eq!(name.as_str(), "compile_error");
            assert_eq!(*tag, start);
        }
        other => panic!("expected identifier, got {:?}", other),
    }
    match &ts.trees[1] {
        TokenTree::Punct { ch, spacing, tag } => {
            assert_eq!(*ch, '!');
            assert_eq!(*spacing, Spacing::Alone);
            assert_eq!(*tag, Span::CallSite);
        }
        other => panic!("expected punctuation, got {:?}", other),
    }
    match &ts.trees[2] {
        TokenTree::Group { delim, inner, tag } => {
            assert_eq!(*delim, Delim::Brace);
            assert_eq!(*tag, end);
            assert_eq!(inner.len(), 1);
            match &inner[0] {
                TokenTree::Lit { text: t, tag: lit_tag } => {
                    assert_eq!(t.as_str(), text);
                    assert_eq!(*lit_tag, Span::CallSite);
                }
                other => panic!("expected string literal, got {:?}", other),
            }
        }
        other => panic!("expected group, got {:?}", other),
    }
}

#[test]
fn emit_missing_field_scenario() {
    let fa = msg(&["missing field ", ""], &["\"x\""]);
    let l1 = Span::Site(1);
    let l2 = Span::Site(2);
    let ts = error_ts(&fa, SpanRange::new(l1, l2));
    check_directive(&ts, "missing field \"x\"", l1, l2);
}

#[test]
fn emit_empty_message_default_range() {
    let fa = FormatArgs::from_text(String::new());
    let ts = error_ts(&fa, SpanRange::call_site());
    check_directive(&ts, "", Span::CallSite, Span::CallSite);
}

#[test]
fn emit_empty_message_explicit_range() {
    let fa = FormatArgs::from_text(String::new());
    let ts = error_ts(&fa, SpanRange::new(Span::Site(11), Span::Site(12)));
    check_directive(&ts, "", Span::Site(11), Span::Site(12));
}

#[test]
fn default_range_equals_explicit_call_site() {
    let a = error_ts(&msg(&["boom"], &[]), SpanRange::call_site());
    let b = error_ts(&msg(&["boom"], &[]), SpanRange::new(Span::CallSite, Span::CallSite));
    assert_eq!(a, b);
}

#[test]
fn single_location_equals_degenerate_range() {
    let l = Span::Site(7);
    let a = error_ts(&msg(&["oops"], &[]), SpanRange::from(l));
    let b = error_ts(&msg(&["oops"], &[]), SpanRange::new(l, l));
    assert_eq!(a, b);
}

#[test]
fn tokens_from_text_direct() {
    let ts = error_tokens_from_text("raw text".to_string(), SpanRange::new(Span::Site(9), Span::CallSite));
    check_directive(&ts, "raw text", Span::Site(9), Span::CallSite);
}

fn guarded(fail: bool) -> Result<u32, TokenStream> {
    if fail {
        return Err(error_ts(
            &FormatArgs::from_text("stop".to_string()),
            SpanRange::new(Span::Site(3), Span::Site(4)),
        ));
    }
    Ok(5)
}

#[test]
fn early_exit_wraps_emitted_tokens() {
    assert_eq!(guarded(false), Ok(5));
    let expected = error_ts(
        &FormatArgs::from_text("stop".to_string()),
        SpanRange::new(Span::Site(3), Span::Site(4)),
    );
    assert_eq!(guarded(true), Err(expected));
}
