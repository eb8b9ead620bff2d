use vstd::prelude::*;
use vstd::string::StringExecFns;

use crate::message::{FormatArgs, render_message};
use crate::span::{Span, SpanRange, degenerate};
use crate::tokens::{Delim, Spacing, TokenStream, TokenTree, respan, tag_of};

verus! {

/// The identifier of the host compiler's "fail with this message" directive.
pub open spec fn directive_name() -> Seq<char> {
    "compile_error"@
}

/// The exact shape of an emitted diagnostic: exactly three top-level tokens,
/// namely the directive identifier tagged `range.start`, a lone `!` tagged at
/// the call site, and a brace-delimited group tagged `range.end` holding one
/// string literal whose text is `m` and whose own tag is the call site.
///
/// The three-way split of the tags is deliberate and must stay: tagging the
/// identifier and the group with the two ends makes the host underline the
/// whole span, while anchoring the synthesized `!` and the literal itself at
/// the call site keeps them from pulling the underline to a misleading column.
pub open spec fn is_error_tokens(ts: TokenStream, m: Seq<char>, range: SpanRange) -> bool {
    &&& ts.trees@.len() == 3
    &&& (ts.trees@[0] matches TokenTree::Ident { name, tag } && name@ == directive_name()
        && tag == range.start)
    &&& (ts.trees@[1] matches TokenTree::Punct { ch, spacing, tag } && ch == '!'
        && spacing == Spacing::Alone && tag == Span::CallSite)
    &&& (ts.trees@[2] matches TokenTree::Group { delim, inner, tag } && delim == Delim::Brace
        && tag == range.end && inner@.len() == 1 && (inner@[0] matches TokenTree::Lit {
        text,
        tag: lit_tag,
    } && text@ == m && lit_tag == Span::CallSite))
}

/// Build the three-token error directive around an already-rendered message.
pub fn error_tokens_from_text(text: String, range: SpanRange) -> (r: TokenStream)
    ensures
        is_error_tokens(r, text@, range),
{
    let lit = TokenTree::Lit { text, tag: Span::CallSite };
    let mut inner: Vec<TokenTree> = Vec::new();
    inner.push(lit);
    let ident = TokenTree::Ident { name: String::from_str("compile_error"), tag: Span::CallSite };
    let bang = TokenTree::Punct { ch: '!', spacing: Spacing::Alone, tag: Span::CallSite };
    let group = TokenTree::Group { delim: Delim::Brace, inner, tag: Span::CallSite };
    let mut trees: Vec<TokenTree> = Vec::new();
    trees.push(respan(ident, range.start));
    trees.push(bang);
    trees.push(respan(group, range.end));
    TokenStream { trees }
}

/// Render the message and wrap it in the error directive. Total over every
/// well-formed template, the empty message included.
pub fn error_ts(msg: &FormatArgs, range: SpanRange) -> (r: TokenStream)
    requires
        msg.wf(),
    ensures
        is_error_tokens(r, msg.rendered(), range),
{
    let text = render_message(msg);
    error_tokens_from_text(text, range)
}

/// Every emitted diagnostic consists of exactly three top-level tokens.
pub proof fn lemma_emit_three_tokens(ts: TokenStream, m: Seq<char>, range: SpanRange)
    requires
        is_error_tokens(ts, m, range),
    ensures
        ts.trees@.len() == 3,
{
}

/// The token shape is stable: the first token is the directive identifier,
/// the second a lone `!`, and the third a brace-delimited group containing
/// exactly one token, a string literal equal to the message.
pub proof fn lemma_emit_token_shape(ts: TokenStream, m: Seq<char>, range: SpanRange)
    requires
        is_error_tokens(ts, m, range),
    ensures
        ts.trees@[0] is Ident,
        ts.trees@[0]->Ident_name@ == directive_name(),
        ts.trees@[1] is Punct,
        ts.trees@[1]->Punct_ch == '!',
        ts.trees@[1]->Punct_spacing == Spacing::Alone,
        ts.trees@[2] is Group,
        ts.trees@[2]->Group_delim == Delim::Brace,
        ts.trees@[2]->Group_inner@.len() == 1,
        ts.trees@[2]->Group_inner@[0] is Lit,
        ts.trees@[2]->Group_inner@[0]->Lit_text@ == m,
{
}

/// Location fidelity: the identifier is tagged `range.start`, the group
/// `range.end`, and both the `!` and the literal inside the group carry the
/// default call-site tag whatever `range` holds.
pub proof fn lemma_location_fidelity(ts: TokenStream, m: Seq<char>, range: SpanRange)
    requires
        is_error_tokens(ts, m, range),
    ensures
        tag_of(ts.trees@[0]) == range.start,
        tag_of(ts.trees@[1]) == Span::CallSite,
        tag_of(ts.trees@[2]) == range.end,
        tag_of(ts.trees@[2]->Group_inner@[0]) == Span::CallSite,
{
}

/// Emitting with the default range is emitting with both endpoints set
/// explicitly to the call site.
pub proof fn lemma_default_range_equivalent(ts: TokenStream, m: Seq<char>)
    ensures
        is_error_tokens(ts, m, degenerate(Span::CallSite)) <==> is_error_tokens(
            ts,
            m,
            (SpanRange { start: Span::CallSite, end: Span::CallSite }),
        ),
{
}

/// Emitting with a single location is emitting with both endpoints set
/// explicitly to that location.
pub proof fn lemma_single_location_equivalent(ts: TokenStream, m: Seq<char>, l: Span)
    ensures
        is_error_tokens(ts, m, degenerate(l)) <==> is_error_tokens(
            ts,
            m,
            (SpanRange { start: l, end: l }),
        ),
{
}

} // verus!
