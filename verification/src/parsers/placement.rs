//! Placing tokens in the source: one token over a byte range, and the
//! tokens of a stretch of English text at a character index.

use vstd::prelude::*;
use crate::chars::chars_of;
use crate::parsers::offset::{char_of_byte, lemma_byte_of_char_increases, Cursor, Offset};
use crate::parsers::plain_english::{
    english_tokens, lemma_cover_fits_in_order, lemma_english_tokens_cover, PlainEnglish,
};
use crate::parsers::Parser;
use crate::span::Span;
use crate::token::{tokens_fit, tokens_ordered, Token, TokenKind};

verus! {

/// The tokens, each moved `by` characters to the right.
pub open spec fn shifted(tokens: Seq<Token>, by: int) -> Seq<Token> {
    Seq::new(
        tokens.len(),
        |i: int|
            Token {
                span: Span {
                    start: (tokens[i].span.start + by) as usize,
                    end: (tokens[i].span.end + by) as usize,
                },
                kind: tokens[i].kind,
            },
    )
}

/// The tokens of a result, none where there is no result.
pub open spec fn flat(tokens: Option<Seq<Token>>) -> Seq<Token> {
    match tokens {
        Some(tokens) => tokens,
        None => Seq::empty(),
    }
}

/// A result as a sequence.
pub open spec fn token_seq(tokens: Option<Vec<Token>>) -> Option<Seq<Token>> {
    match tokens {
        Some(tokens) => Some(tokens@),
        None => None,
    }
}

/// Every token has a well-formed span inside the characters
/// `[low, high)`.
pub open spec fn tokens_within(tokens: Seq<Token>, low: int, high: int) -> bool {
    forall|i: int|
        0 <= i < tokens.len() ==> low <= (#[trigger] tokens[i]).span.start <= tokens[i].span.end
            <= high
}

/// A byte range as a range of characters, where the cursor can reach
/// both ends and the range is not inverted.
pub open spec fn char_range(offset: Cursor, range: Option<(usize, usize)>) -> Option<(int, int)> {
    match range {
        Some((start, end)) => if start <= end && offset.reaches(start as int) && offset.reaches(
            end as int,
        ) {
            Some(
                (
                    char_of_byte(offset.source, start as int),
                    char_of_byte(offset.source, end as int),
                ),
            )
        } else {
            None
        },
        None => None,
    }
}

/// One token of the given kind over a byte range.
pub open spec fn one_token(offset: Cursor, range: Option<(usize, usize)>, kind: TokenKind) -> Option<
    Seq<Token>,
> {
    match char_range(offset, range) {
        Some((start, end)) => Some(
            seq![Token { span: Span { start: start as usize, end: end as usize }, kind }],
        ),
        None => None,
    }
}

/// The tokens of an English text that starts at character `at`, where
/// the text ends at or before character `limit`.
pub open spec fn placed_text(text: Seq<char>, at: int, limit: int) -> Option<Seq<Token>> {
    if at + text.len() <= limit {
        Some(shifted(english_tokens(text), at))
    } else {
        None
    }
}

/// The tokens of the text of a node: the text is tokenized as English
/// and placed `skip` characters behind the start of the node's range.
/// They lie inside the range.
pub open spec fn text_tokens(
    offset: Cursor,
    range: Option<(usize, usize)>,
    text: Option<Seq<char>>,
    skip: int,
) -> Option<Seq<Token>> {
    match (char_range(offset, range), text) {
        (Some((start, end)), Some(text)) => placed_text(text, start + skip, end),
        _ => None,
    }
}

/// A text without its first and its last character.
pub open spec fn interior(text: Seq<char>) -> Option<Seq<char>> {
    if text.len() >= 2 {
        Some(text.subrange(1, text.len() - 1))
    } else {
        None
    }
}

/// Placed text lies between the place and the limit, in source order.
pub proof fn lemma_placed_text_within(text: Seq<char>, at: int, limit: int)
    requires
        0 <= at,
        limit <= usize::MAX,
    ensures
        placed_text(text, at, limit) matches Some(tokens) ==> tokens_within(tokens, at, limit)
            && tokens_ordered(tokens),
{
    if at + text.len() <= limit {
        lemma_english_tokens_cover(text);
        let tokens = english_tokens(text);
        let placed = shifted(tokens, at);
        lemma_cover_fits_in_order(tokens, text.len());
        assert forall|i: int| 0 <= i < tokens.len() implies at <= (#[trigger] placed[i]).span.start
            <= placed[i].span.end <= limit by {
            assert(tokens[i].span.fits(text.len()));
        }
        assert forall|i: int, j: int| 0 <= i <= j < placed.len() implies (
        #[trigger] placed[i]).span.start <= (#[trigger] placed[j]).span.start by {
            assert(tokens[i].span.fits(text.len()));
            assert(tokens[j].span.fits(text.len()));
            assert(tokens[i].span.start <= tokens[j].span.start);
        }
    }
}

/// The tokens of the text of a node lie inside the character range of
/// the node, in source order.
pub proof fn lemma_text_tokens_within(
    offset: Cursor,
    range: Option<(usize, usize)>,
    text: Option<Seq<char>>,
    skip: int,
)
    requires
        offset.well_formed(),
        offset.source.len() <= usize::MAX,
        0 <= skip,
    ensures
        text_tokens(offset, range, text, skip) matches Some(tokens) ==> (char_range(offset, range)
            matches Some((start, end)) && 0 <= start <= end <= offset.source.len()
            && tokens_within(tokens, start, end) && tokens_ordered(tokens)),
{
    if let (Some((start, end)), Some(text)) = (char_range(offset, range), text) {
        assert(0 <= start <= offset.source.len());
        assert(0 <= end <= offset.source.len());
        if start > end {
            lemma_byte_of_char_increases(offset.source, end, start);
        }
        lemma_placed_text_within(text, start + skip, end);
        if let Some(tokens) = placed_text(text, start + skip, end) {
            assert(tokens_within(tokens, start, end));
        }
    }
}

/// Both ends of a byte range as character indices.
pub fn resolve(offset: Offset, range: Option<(usize, usize)>) -> (chars: Option<(usize, usize)>)
    requires
        offset@.well_formed(),
    ensures
        match chars {
            Some((start, end)) => char_range(offset@, range) == Some((start as int, end as int))
                && offset.char <= start <= end <= offset.source@.len(),
            None => char_range(offset@, range) is None,
        },
{
    match range {
        Some((start, end)) => {
            if start > end {
                return None;
            }
            match offset.try_push_to(start) {
                Some(first) => match first.try_push_to(end) {
                    Some(last) => {
                        let len = offset.source.len();
                        proof {
                            let source = offset.source@;
                            let low = char_of_byte(source, start as int);
                            let high = char_of_byte(source, end as int);
                            assert(0 <= low <= source.len());
                            assert(0 <= high <= source.len());
                            assert(first@.source == source);
                            assert(first.char == low);
                            assert(last.char == high);
                        }
                        Some((first.char, last.char))
                    },
                    None => None,
                },
                None => None,
            }
        },
        None => None,
    }
}

/// One token of the given kind over a byte range of the source.
pub fn constant_token(range: Option<(usize, usize)>, kind: TokenKind, offset: Offset) -> (tokens:
    Option<Vec<Token>>)
    requires
        offset@.well_formed(),
    ensures
        token_seq(tokens) == one_token(offset@, range, kind),
        tokens matches Some(tokens) ==> tokens_fit(tokens@, offset.source@.len()),
{
    match resolve(offset, range) {
        Some((start, end)) => {
            let mut tokens: Vec<Token> = Vec::new();
            tokens.push(Token { span: Span { start, end }, kind });
            assert(tokens@ =~= seq![Token { span: Span { start, end }, kind }]);
            Some(tokens)
        },
        None => None,
    }
}

/// Tokenizes characters as English and places the tokens at character
/// `at` of the source. `None` where the text would end behind `limit`.
pub fn place_english(text: &[char], parser: &mut PlainEnglish, at: usize, limit: usize) -> (tokens:
    Option<Vec<Token>>)
    ensures
        token_seq(tokens) == placed_text(text@, at as int, limit as int),
        tokens matches Some(tokens) ==> tokens_within(tokens@, at as int, limit as int),
{
    if at > limit || text.len() > limit - at {
        return None;
    }
    let mut tokens = parser.parse(text);
    let ghost plain = tokens@;
    let mut i: usize = 0;
    while i < tokens.len()
        invariant
            i <= tokens@.len(),
            tokens@.len() == plain.len(),
            tokens_fit(plain, text@.len()),
            at + text@.len() <= limit,
            forall|j: int| 0 <= j < i ==> #[trigger] tokens@[j] == shifted(plain, at as int)[j],
            forall|j: int| i <= j < tokens@.len() ==> #[trigger] tokens@[j] == plain[j],
        decreases tokens@.len() - i,
    {
        let mut token = tokens[i];
        assert(plain[i as int].span.fits(text@.len()));
        token.span.push_by(at);
        tokens.set(i, token);
        i = i + 1;
    }
    assert(tokens@ =~= shifted(plain, at as int));
    proof {
        lemma_placed_text_within(text@, at as int, limit as int);
    }
    Some(tokens)
}

/// Tokenizes a text as English and places the tokens at the cursor.
/// `None` where the text would end behind character `limit`.
pub fn parse_english(text: &str, parser: &mut PlainEnglish, offset: Offset, limit: usize) -> (tokens:
    Option<Vec<Token>>)
    ensures
        token_seq(tokens) == placed_text(text@, offset.char as int, limit as int),
        tokens matches Some(tokens) ==> tokens_within(
            tokens@,
            offset.char as int,
            limit as int,
        ),
{
    let chars = chars_of(text);
    place_english(chars.as_slice(), parser, offset.char, limit)
}

/// The tokens of the text of a node, placed `skip` characters behind
/// the start of the node's byte range.
pub fn place_node_text(
    text: &[char],
    range: Option<(usize, usize)>,
    skip: usize,
    parser: &mut PlainEnglish,
    offset: Offset,
) -> (tokens: Option<Vec<Token>>)
    requires
        offset@.well_formed(),
    ensures
        token_seq(tokens) == text_tokens(offset@, range, Some(text@), skip as int),
        tokens matches Some(tokens) ==> tokens_fit(tokens@, offset.source@.len()),
        tokens matches Some(tokens) ==> (char_range(offset@, range) matches Some((start, end))
            && tokens_within(tokens@, start, end)),
{
    match resolve(offset, range) {
        Some((start, end)) => {
            if skip > end - start {
                None
            } else {
                place_english(text, parser, start + skip, end)
            }
        },
        None => None,
    }
}

/// Adds the tokens of a result, if it has any, to the end of a list.
pub(crate) fn append(into: &mut Vec<Token>, from: Option<Vec<Token>>)
    ensures
        final(into)@ == old(into)@ + flat(token_seq(from)),
{
    match from {
        Some(mut tokens) => {
            into.append(&mut tokens);
        },
        None => {
            assert(into@ + Seq::<Token>::empty() =~= into@);
        },
    }
}

} // verus!
