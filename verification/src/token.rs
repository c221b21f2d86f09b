//! Tokens: a span of the source and what stands there.

use vstd::prelude::*;
use crate::span::Span;
use crate::word_metadata::WordMetadata;

verus! {

/// A quotation mark and, once quotes have been paired, the character
/// index of its twin.
#[derive(Debug, Clone, Copy, PartialEq, Eq, Structural)]
pub struct Quote {
    pub twin_loc: Option<usize>,
}

#[derive(Debug, Clone, Copy, PartialEq, Eq, Structural)]
pub enum Punctuation {
    Period,
    Bang,
    Question,
    Colon,
    Semicolon,
    Comma,
    Hyphen,
    Apostrophe,
    Quote(Quote),
    OpenRound,
    CloseRound,
    OpenSquare,
    CloseSquare,
    OpenCurly,
    CloseCurly,
    Hash,
    Percent,
    Ampersand,
    Slash,
    Star,
    Dollar,
    At,
    Equal,
    Plus,
    LessThan,
    GreaterThan,
    Underscore,
    Ellipsis,
    Dash,
}

/// The value of a number: a whole number, or the bits of an IEEE 754
/// double where the source wrote a fraction or an exponent.
#[derive(Debug, Clone, Copy, PartialEq, Eq, Structural)]
pub enum Real {
    Integer(i64),
    Binary64(u64),
}

/// An ordinal ending that follows a number, as in `3rd`.
#[derive(Debug, Clone, Copy, PartialEq, Eq, Structural)]
pub enum Unit {
    Th,
    St,
    Nd,
    Rd,
}

#[derive(Debug, Clone, Copy, PartialEq, Eq, Structural)]
pub enum TokenKind {
    /// A run of letters, also an identifier of a structured source.
    Word(WordMetadata),
    Punctuation(Punctuation),
    Number(Real, Option<Unit>),
    /// A run of horizontal whitespace and its width.
    Space(usize),
    /// A number of consecutive line ends.
    Newline(usize),
    ParagraphBreak,
    Url,
    /// A region that no lint rule looks into: code, math, escapes.
    Unlintable,
}

#[derive(Debug, Clone, Copy, PartialEq, Eq, Structural)]
pub struct Token {
    pub span: Span,
    pub kind: TokenKind,
}

impl TokenKind {
    pub open spec fn spec_is_adjective(self) -> bool {
        self matches TokenKind::Word(metadata) && metadata.adjective is Some
    }

    pub open spec fn spec_is_conjunction(self) -> bool {
        self matches TokenKind::Word(metadata) && metadata.conjunction is Some
    }

    pub open spec fn spec_is_apostrophe(self) -> bool {
        self == TokenKind::Punctuation(Punctuation::Apostrophe)
    }

    pub fn is_word(&self) -> (r: bool)
        ensures
            r == (*self is Word),
    {
        match self {
            TokenKind::Word(_) => true,
            _ => false,
        }
    }

    pub fn is_space(&self) -> (r: bool)
        ensures
            r == (*self is Space),
    {
        match self {
            TokenKind::Space(_) => true,
            _ => false,
        }
    }

    pub fn is_apostrophe(&self) -> (r: bool)
        ensures
            r == self.spec_is_apostrophe(),
    {
        match self {
            TokenKind::Punctuation(Punctuation::Apostrophe) => true,
            _ => false,
        }
    }

    /// True only for a word whose metadata has the adjective facet.
    pub fn is_adjective(&self) -> (r: bool)
        ensures
            r == self.spec_is_adjective(),
    {
        match self {
            TokenKind::Word(metadata) => metadata.is_adjective(),
            _ => false,
        }
    }

    pub fn is_conjunction(&self) -> (r: bool)
        ensures
            r == self.spec_is_conjunction(),
    {
        match self {
            TokenKind::Word(metadata) => metadata.is_conjunction(),
            _ => false,
        }
    }
}

impl Token {
    pub fn new(span: Span, kind: TokenKind) -> (token: Self)
        ensures
            token.span == span,
            token.kind == kind,
    {
        Token { span, kind }
    }

    /// The characters of the token, where its span fits the source.
    pub open spec fn content(self, source: Seq<char>) -> Option<Seq<char>> {
        if self.span.fits(source.len()) {
            Some(self.span.content(source))
        } else {
            None
        }
    }
}

/// Every token has a well-formed span that ends inside a source of `len`
/// characters.
pub open spec fn tokens_fit(tokens: Seq<Token>, len: nat) -> bool {
    forall|i: int| 0 <= i < tokens.len() ==> (#[trigger] tokens[i]).span.fits(len)
}

/// The tokens start in source order: no token starts before the one in
/// front of it.
pub open spec fn tokens_ordered(tokens: Seq<Token>) -> bool {
    forall|i: int, j: int|
        0 <= i <= j < tokens.len() ==> (#[trigger] tokens[i]).span.start <= (
        #[trigger] tokens[j]).span.start
}

} // verus!
