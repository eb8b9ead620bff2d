use vstd::prelude::*;

use crate::span::Span;

verus! {

/// Spacing of a punctuation token, as the host lexer distinguishes a mark
/// standing alone from one joined to the next character.
#[derive(Clone, Copy, PartialEq, Eq, Structural, Debug)]
pub enum Spacing {
    Alone,
    Joint,
}

/// The delimiter enclosing a token group.
#[derive(Clone, Copy, PartialEq, Eq, Structural, Debug)]
pub enum Delim {
    Parenthesis,
    Brace,
    Bracket,
}

/// One lexical token, tagged with the source location a diagnostic renderer
/// anchors it to.
#[derive(PartialEq, Eq, Debug)]
pub enum TokenTree {
    Ident { name: String, tag: Span },
    Punct { ch: char, spacing: Spacing, tag: Span },
    Lit { text: String, tag: Span },
    Group { delim: Delim, inner: Vec<TokenTree>, tag: Span },
}

/// An ordered sequence of top-level tokens.
#[derive(PartialEq, Eq, Debug)]
pub struct TokenStream {
    pub trees: Vec<TokenTree>,
}

/// The source-location tag on the top level of a token.
pub open spec fn tag_of(t: TokenTree) -> Span {
    match t {
        TokenTree::Ident { tag, .. } => tag,
        TokenTree::Punct { tag, .. } => tag,
        TokenTree::Lit { tag, .. } => tag,
        TokenTree::Group { tag, .. } => tag,
    }
}

/// `t` with its top-level tag replaced by `tag`; everything else, including
/// the tags of a group's inner tokens, is kept.
pub open spec fn with_tag(t: TokenTree, tag: Span) -> TokenTree {
    match t {
        TokenTree::Ident { name, .. } => TokenTree::Ident { name, tag },
        TokenTree::Punct { ch, spacing, .. } => TokenTree::Punct { ch, spacing, tag },
        TokenTree::Lit { text, .. } => TokenTree::Lit { text, tag },
        TokenTree::Group { delim, inner, .. } => TokenTree::Group { delim, inner, tag },
    }
}

/// Re-anchor a token: the same token, tagged at `tag`.
pub fn respan(t: TokenTree, tag: Span) -> (r: TokenTree)
    ensures
        r == with_tag(t, tag),
{
    match t {
        TokenTree::Ident { name, tag: _ } => TokenTree::Ident { name, tag },
        TokenTree::Punct { ch, spacing, tag: _ } => TokenTree::Punct { ch, spacing, tag },
        TokenTree::Lit { text, tag: _ } => TokenTree::Lit { text, tag },
        TokenTree::Group { delim, inner, tag: _ } => TokenTree::Group { delim, inner, tag },
    }
}

} // verus!
