//! A tokenizer for plain English text.

use vstd::prelude::*;
use crate::chars::{char_is_digit, char_is_letter, chars_of, is_digit, is_letter};
use crate::parsers::Parser;
use crate::span::Span;
use crate::token::{tokens_fit, tokens_ordered, Punctuation, Quote, Real, Token, TokenKind};
use crate::word_metadata::WordMetadata;

verus! {

/// Splits English text into words, numbers, whitespace and punctuation.
pub struct PlainEnglish;

/// What a character can be part of.
#[derive(Debug, Clone, Copy, PartialEq, Eq, Structural)]
pub enum CharClass {
    Letter,
    Digit,
    Blank,
    LineEnd,
    Mark(Punctuation),
    Other,
}

/// The punctuation mark that a character stands for, if it is one.
pub open spec fn mark_of(c: char) -> Option<Punctuation> {
    if c == '.' {
        Some(Punctuation::Period)
    } else if c == '!' {
        Some(Punctuation::Bang)
    } else if c == '?' {
        Some(Punctuation::Question)
    } else if c == ':' {
        Some(Punctuation::Colon)
    } else if c == ';' {
        Some(Punctuation::Semicolon)
    } else if c == ',' {
        Some(Punctuation::Comma)
    } else if c == '-' {
        Some(Punctuation::Hyphen)
    } else if c == '\'' || c == '\u{2019}' {
        Some(Punctuation::Apostrophe)
    } else if c == '"' || c == '\u{201C}' || c == '\u{201D}' {
        Some(Punctuation::Quote(Quote { twin_loc: None }))
    } else if c == '(' {
        Some(Punctuation::OpenRound)
    } else if c == ')' {
        Some(Punctuation::CloseRound)
    } else if c == '[' {
        Some(Punctuation::OpenSquare)
    } else if c == ']' {
        Some(Punctuation::CloseSquare)
    } else if c == '{' {
        Some(Punctuation::OpenCurly)
    } else if c == '}' {
        Some(Punctuation::CloseCurly)
    } else if c == '#' {
        Some(Punctuation::Hash)
    } else if c == '%' {
        Some(Punctuation::Percent)
    } else if c == '&' {
        Some(Punctuation::Ampersand)
    } else if c == '/' {
        Some(Punctuation::Slash)
    } else if c == '*' {
        Some(Punctuation::Star)
    } else if c == '$' {
        Some(Punctuation::Dollar)
    } else if c == '@' {
        Some(Punctuation::At)
    } else if c == '=' {
        Some(Punctuation::Equal)
    } else if c == '+' {
        Some(Punctuation::Plus)
    } else if c == '<' {
        Some(Punctuation::LessThan)
    } else if c == '>' {
        Some(Punctuation::GreaterThan)
    } else if c == '_' {
        Some(Punctuation::Underscore)
    } else if c == '\u{2026}' {
        Some(Punctuation::Ellipsis)
    } else if c == '\u{2013}' || c == '\u{2014}' {
        Some(Punctuation::Dash)
    } else {
        None
    }
}

pub open spec fn class_of(c: char) -> CharClass {
    if c == ' ' || c == '\t' {
        CharClass::Blank
    } else if c == '\n' {
        CharClass::LineEnd
    } else if is_digit(c) {
        CharClass::Digit
    } else {
        match mark_of(c) {
            Some(mark) => CharClass::Mark(mark),
            None => if is_letter(c) {
                CharClass::Letter
            } else {
                CharClass::Other
            },
        }
    }
}

/// Whether characters of the class run together into one token.
pub open spec fn runs(class: CharClass) -> bool {
    class is Letter || class is Digit || class is Blank || class is LineEnd
}

/// Where the run of characters of `class` that holds `source[from - 1]`
/// ends: the first index from `from` on whose character is of another
/// class, or the end of the source.
pub open spec fn run_end(source: Seq<char>, from: int, class: CharClass) -> int
    decreases source.len() - from,
{
    if from < 0 || from >= source.len() || class_of(source[from]) != class {
        from
    } else {
        run_end(source, from + 1, class)
    }
}

/// Where the token that starts at `at` ends.
pub open spec fn token_end(source: Seq<char>, at: int) -> int
    recommends
        0 <= at < source.len(),
{
    let class = class_of(source[at]);
    if runs(class) {
        run_end(source, at + 1, class)
    } else {
        at + 1
    }
}

/// The number that a run of digits writes.
pub open spec fn decimal_value(digits: Seq<char>) -> nat
    decreases digits.len(),
{
    if digits.len() == 0 {
        0
    } else {
        decimal_value(digits.drop_last()) * 10 + (digits.last() as nat - '0' as nat) as nat
    }
}

/// The number that a run of digits writes, or the largest `i64` where
/// that is smaller.
pub open spec fn clipped_value(digits: Seq<char>) -> i64 {
    if decimal_value(digits) > i64::MAX {
        i64::MAX
    } else {
        decimal_value(digits) as i64
    }
}

/// The kind of the token that covers `source[at..end]`.
pub open spec fn token_kind(source: Seq<char>, at: int, end: int) -> TokenKind
    recommends
        0 <= at < end <= source.len(),
{
    match class_of(source[at]) {
        CharClass::Letter => TokenKind::Word(WordMetadata::empty()),
        CharClass::Digit => TokenKind::Number(
            Real::Integer(clipped_value(source.subrange(at, end))),
            None,
        ),
        CharClass::Blank => TokenKind::Space((end - at) as usize),
        CharClass::LineEnd => TokenKind::Newline((end - at) as usize),
        CharClass::Mark(mark) => TokenKind::Punctuation(mark),
        CharClass::Other => TokenKind::Unlintable,
    }
}

/// The tokens of `source` from character `at` on.
pub open spec fn tokens_from(source: Seq<char>, at: int) -> Seq<Token>
    decreases source.len() - at,
{
    let end = token_end(source, at);
    if at < 0 || at >= source.len() || end <= at || end > source.len() {
        Seq::empty()
    } else {
        seq![
            Token {
                span: Span { start: at as usize, end: end as usize },
                kind: token_kind(source, at, end),
            },
        ] + tokens_from(source, end)
    }
}

/// The tokens of an English text.
pub open spec fn english_tokens(source: Seq<char>) -> Seq<Token> {
    tokens_from(source, 0)
}

/// The tokens lie end to end and cover `[0, len)`: the first starts at
/// 0, each starts where the one before ends, the last ends at `len`, and
/// none is empty.
pub open spec fn tokens_cover(tokens: Seq<Token>, len: nat) -> bool {
    &&& forall|i: int| 0 <= i < tokens.len() ==> (#[trigger] tokens[i]).span.start < tokens[i].span.end
    &&& forall|i: int, j: int|
        0 <= i && j == i + 1 && j < tokens.len() ==> (#[trigger] tokens[i]).span.end == (
        #[trigger] tokens[j]).span.start
    &&& if tokens.len() == 0 {
        len == 0
    } else {
        tokens[0].span.start == 0 && tokens.last().span.end == len
    }
}

/// Tokens that cover a source end to end fit it and are in source
/// order.
pub proof fn lemma_cover_fits_in_order(tokens: Seq<Token>, len: nat)
    requires
        tokens_cover(tokens, len),
    ensures
        tokens_fit(tokens, len),
        tokens_ordered(tokens),
{
    assert forall|i: int| 0 <= i < tokens.len() implies (#[trigger] tokens[i]).span.fits(len) by {
        lemma_cover_steps(tokens, len, i, tokens.len() - 1);
    }
    assert forall|i: int, j: int| 0 <= i <= j < tokens.len() implies (#[trigger] tokens[i]).span.start
        <= (#[trigger] tokens[j]).span.start by {
        lemma_cover_steps(tokens, len, i, j);
    }
}

proof fn lemma_cover_steps(tokens: Seq<Token>, len: nat, i: int, j: int)
    requires
        tokens_cover(tokens, len),
        0 <= i <= j < tokens.len(),
    ensures
        tokens[i].span.start <= tokens[j].span.start,
        tokens[i].span.end <= tokens[j].span.end,
    decreases j - i,
{
    if i < j {
        lemma_cover_steps(tokens, len, i, j - 1);
        let k = j - 1;
        assert(tokens[k].span.end == tokens[j].span.start);
        assert(tokens[k].span.start < tokens[k].span.end);
        assert(tokens[j].span.start < tokens[j].span.end);
    }
}

/// The tokens of a text cover it end to end.
pub proof fn lemma_english_tokens_cover(text: Seq<char>)
    requires
        text.len() <= usize::MAX,
    ensures
        tokens_cover(english_tokens(text), text.len()),
{
    lemma_tokens_from_cover(text, 0);
}

/// From a character on, the tokens lie end to end up to the end of the
/// text.
proof fn lemma_tokens_from_cover(text: Seq<char>, at: int)
    requires
        0 <= at <= text.len() <= usize::MAX,
    ensures
        ({
            let tokens = tokens_from(text, at);
            &&& forall|i: int|
                0 <= i < tokens.len() ==> (#[trigger] tokens[i]).span.start < tokens[i].span.end
            &&& forall|i: int, j: int|
                0 <= i && j == i + 1 && j < tokens.len() ==> (#[trigger] tokens[i]).span.end == (
                #[trigger] tokens[j]).span.start
            &&& if tokens.len() == 0 {
                at == text.len()
            } else {
                tokens[0].span.start == at && tokens.last().span.end == text.len()
            }
        }),
    decreases text.len() - at,
{
    let tokens = tokens_from(text, at);
    if at < text.len() {
        let end = token_end(text, at);
        lemma_run_end_bounds(text, at + 1, class_of(text[at]));
        lemma_tokens_from_cover(text, end);
        let rest = tokens_from(text, end);
        assert(tokens =~= seq![tokens[0]] + rest);
        assert forall|i: int, j: int| 0 <= i && j == i + 1 && j < tokens.len() implies (
        #[trigger] tokens[i]).span.end == (#[trigger] tokens[j]).span.start by {
            if i > 0 {
                assert(tokens[i] == rest[i - 1]);
                assert(tokens[j] == rest[j - 1]);
            } else {
                assert(tokens[j] == rest[0]);
            }
        }
        assert forall|i: int| 0 <= i < tokens.len() implies (#[trigger] tokens[i]).span.start
            < tokens[i].span.end by {
            if i > 0 {
                assert(tokens[i] == rest[i - 1]);
            }
        }
        if rest.len() > 0 {
            assert(tokens.last() == rest.last());
        }
    }
}

proof fn lemma_run_end_bounds(
    text: Seq<char>,
    from: int,
    class: CharClass,
)
    requires
        0 <= from <= text.len(),
    ensures
        from <= run_end(text, from, class) <= text.len(),
    decreases text.len() - from,
{
    if from < text.len() && class_of(text[from]) == class {
        lemma_run_end_bounds(text, from + 1, class);
    }
}

fn punctuation_of(c: char) -> (r: Option<Punctuation>)
    ensures
        r == mark_of(c),
{
    if c == '.' {
        Some(Punctuation::Period)
    } else if c == '!' {
        Some(Punctuation::Bang)
    } else if c == '?' {
        Some(Punctuation::Question)
    } else if c == ':' {
        Some(Punctuation::Colon)
    } else if c == ';' {
        Some(Punctuation::Semicolon)
    } else if c == ',' {
        Some(Punctuation::Comma)
    } else if c == '-' {
        Some(Punctuation::Hyphen)
    } else if c == '\'' || c == '\u{2019}' {
        Some(Punctuation::Apostrophe)
    } else if c == '"' || c == '\u{201C}' || c == '\u{201D}' {
        Some(Punctuation::Quote(Quote { twin_loc: None }))
    } else if c == '(' {
        Some(Punctuation::OpenRound)
    } else if c == ')' {
        Some(Punctuation::CloseRound)
    } else if c == '[' {
        Some(Punctuation::OpenSquare)
    } else if c == ']' {
        Some(Punctuation::CloseSquare)
    } else if c == '{' {
        Some(Punctuation::OpenCurly)
    } else if c == '}' {
        Some(Punctuation::CloseCurly)
    } else if c == '#' {
        Some(Punctuation::Hash)
    } else if c == '%' {
        Some(Punctuation::Percent)
    } else if c == '&' {
        Some(Punctuation::Ampersand)
    } else if c == '/' {
        Some(Punctuation::Slash)
    } else if c == '*' {
        Some(Punctuation::Star)
    } else if c == '$' {
        Some(Punctuation::Dollar)
    } else if c == '@' {
        Some(Punctuation::At)
    } else if c == '=' {
        Some(Punctuation::Equal)
    } else if c == '+' {
        Some(Punctuation::Plus)
    } else if c == '<' {
        Some(Punctuation::LessThan)
    } else if c == '>' {
        Some(Punctuation::GreaterThan)
    } else if c == '_' {
        Some(Punctuation::Underscore)
    } else if c == '\u{2026}' {
        Some(Punctuation::Ellipsis)
    } else if c == '\u{2013}' || c == '\u{2014}' {
        Some(Punctuation::Dash)
    } else {
        None
    }
}

pub fn classify(c: char) -> (class: CharClass)
    ensures
        class == class_of(c),
{
    if c == ' ' || c == '\t' {
        CharClass::Blank
    } else if c == '\n' {
        CharClass::LineEnd
    } else if char_is_digit(c) {
        CharClass::Digit
    } else {
        match punctuation_of(c) {
            Some(mark) => CharClass::Mark(mark),
            None => if char_is_letter(c) {
                CharClass::Letter
            } else {
                CharClass::Other
            },
        }
    }
}

fn digits_value(source: &[char], at: usize, end: usize) -> (value: i64)
    requires
        at <= end <= source@.len(),
        forall|i: int| at <= i < end ==> is_digit(#[trigger] source@[i]),
    ensures
        value == clipped_value(source@.subrange(at as int, end as int)),
{
    let mut value: i64 = 0;
    let mut i: usize = at;
    assert(source@.subrange(at as int, at as int) =~= Seq::<char>::empty());
    while i < end
        invariant
            at <= i <= end <= source@.len(),
            forall|j: int| at <= j < end ==> is_digit(#[trigger] source@[j]),
            value == clipped_value(source@.subrange(at as int, i as int)),
            0 <= value,
        decreases end - i,
    {
        let c = source[i];
        let digit: i64 = ((c as u8) - ('0' as u8)) as i64;
        proof {
            let next = source@.subrange(at as int, i + 1);
            assert(next.drop_last() =~= source@.subrange(at as int, i as int));
            assert(next.last() == c);
        }
        if value > (i64::MAX - digit) / 10 {
            value = i64::MAX;
        } else {
            value = value * 10 + digit;
        }
        i = i + 1;
    }
    value
}

impl PlainEnglish {
    /// The tokens of a string.
    pub fn parse_str(&mut self, text: &str) -> (tokens: Vec<Token>)
        ensures
            tokens@ == english_tokens(text@),
            tokens_cover(tokens@, text@.len()),
            tokens_fit(tokens@, text@.len()),
            tokens_ordered(tokens@),
    {
        let chars = chars_of(text);
        self.parse(chars.as_slice())
    }
}

impl Parser for PlainEnglish {
    open spec fn parsed(&self, source: Seq<char>) -> Seq<Token> {
        english_tokens(source)
    }

    /// The tokens of a text. They lie end to end and cover the whole
    /// text, so they fit it and are in source order.
    fn parse(&mut self, source: &[char]) -> (tokens: Vec<Token>)
        ensures
            tokens_cover(tokens@, source@.len()),
            tokens_fit(tokens@, source@.len()),
            tokens_ordered(tokens@),
    {
        let mut tokens: Vec<Token> = Vec::new();
        let mut at: usize = 0;
        while at < source.len()
            invariant
                at <= source@.len(),
                english_tokens(source@) == tokens@ + tokens_from(source@, at as int),
                forall|i: int|
                    0 <= i < tokens@.len() ==> (#[trigger] tokens@[i]).span.start
                        < tokens@[i].span.end,
                forall|i: int, j: int|
                    0 <= i && j == i + 1 && j < tokens@.len() ==> (#[trigger] tokens@[i]).span.end
                        == (#[trigger] tokens@[j]).span.start,
                if tokens@.len() == 0 {
                    at == 0
                } else {
                    tokens@[0].span.start == 0 && tokens@.last().span.end == at
                },
            decreases source@.len() - at,
        {
            let class = classify(source[at]);
            let mut end: usize = at + 1;
            let joins = match class {
                CharClass::Letter | CharClass::Digit | CharClass::Blank | CharClass::LineEnd => true,
                _ => false,
            };
            if joins {
                while end < source.len() && classify(source[end]) == class
                    invariant
                        at < end <= source@.len(),
                        run_end(source@, at + 1, class) == run_end(source@, end as int, class),
                        forall|i: int| at <= i < end ==> class_of(#[trigger] source@[i]) == class,
                    decreases source@.len() - end,
                {
                    end = end + 1;
                }
            }
            assert(end == token_end(source@, at as int));
            let kind = match class {
                CharClass::Letter => TokenKind::Word(WordMetadata::default()),
                CharClass::Digit => TokenKind::Number(
                    Real::Integer(digits_value(source, at, end)),
                    None,
                ),
                CharClass::Blank => TokenKind::Space(end - at),
                CharClass::LineEnd => TokenKind::Newline(end - at),
                CharClass::Mark(mark) => TokenKind::Punctuation(mark),
                CharClass::Other => TokenKind::Unlintable,
            };
            let token = Token { span: Span { start: at, end }, kind };
            let ghost before = tokens@;
            tokens.push(token);
            proof {
                let tail = tokens_from(source@, at as int);
                let next = tokens_from(source@, end as int);
                assert(tail == seq![token] + next);
                assert(before + tail =~= tokens@ + next);
            }
            at = end;
        }
        assert(tokens@ + Seq::<Token>::empty() =~= tokens@);
        proof {
            lemma_cover_fits_in_order(tokens@, source@.len());
        }
        tokens
    }
}

} // verus!
