//! Patterns over token streams: primitives that look at one token,
//! combinators that compose them, and the search for all matches.

use vstd::prelude::*;
use crate::chars::{chars_of, lower, lower_all, to_lower};
use crate::span::Span;
use crate::token::{Punctuation, Token, TokenKind};

verus! {

/// A test on one token that a pattern can ask for.
#[derive(Debug, Clone, Copy, PartialEq, Eq, Structural)]
pub enum TokenTest {
    IsAdjective,
    IsNoun,
    IsVerb,
    IsConjunction,
}

/// A matcher over a slice of tokens. A match is anchored at the first
/// token of the slice and has a length in tokens.
#[derive(Debug)]
pub enum Pattern {
    /// One word whose lower-cased content is one of the given words.
    WordSet(Vec<Vec<char>>),
    /// One word that equals the given characters when case is ignored.
    AnyCapitalization(Vec<char>),
    /// One word.
    AnyWord,
    /// One run of horizontal whitespace.
    Whitespace,
    /// One apostrophe.
    Apostrophe,
    /// One token that passes the test.
    Predicate(TokenTest),
    /// Each pattern in turn, each starting where the one before ended.
    Sequence(Vec<Pattern>),
    /// The first pattern, or the second where the first does not match.
    Or(Box<Pattern>, Box<Pattern>),
    /// Every pattern at the same anchor, with the length of the first.
    All(Vec<Pattern>),
    /// One token, where the pattern does not match.
    Invert(Box<Pattern>),
}

/// The characters of a token that is a word and whose span fits the
/// source.
pub open spec fn word_content(token: Token, source: Seq<char>) -> Option<Seq<char>> {
    if token.kind is Word {
        token.content(source)
    } else {
        None
    }
}

/// Whether `text`, lower-cased, is one of `words`.
pub open spec fn in_word_set(words: Seq<Vec<char>>, text: Seq<char>) -> bool {
    exists|i: int| 0 <= i < words.len() && (#[trigger] words[i])@ == lower_all(text)
}

/// Whether two texts are equal when case is ignored.
pub open spec fn same_ignoring_case(a: Seq<char>, b: Seq<char>) -> bool {
    lower_all(a) == lower_all(b)
}

impl TokenTest {
    pub open spec fn holds(self, token: Token) -> bool {
        match token.kind {
            TokenKind::Word(metadata) => match self {
                TokenTest::IsAdjective => metadata.adjective is Some,
                TokenTest::IsNoun => metadata.noun is Some,
                TokenTest::IsVerb => metadata.verb is Some,
                TokenTest::IsConjunction => metadata.conjunction is Some,
            },
            _ => false,
        }
    }

    pub fn test(&self, token: &Token) -> (r: bool)
        ensures
            r == self.holds(*token),
    {
        match token.kind {
            TokenKind::Word(metadata) => match self {
                TokenTest::IsAdjective => metadata.is_adjective(),
                TokenTest::IsNoun => metadata.is_noun(),
                TokenTest::IsVerb => metadata.is_verb(),
                TokenTest::IsConjunction => metadata.is_conjunction(),
            },
            _ => false,
        }
    }
}

/// Where a sequence of patterns ends: `patterns[from..]` are matched in
/// turn against `tokens`, the first of them at `cursor`. `None` as soon as
/// one of them does not match.
pub open spec fn sequence_end(
    patterns: Seq<Pattern>,
    from: int,
    tokens: Seq<Token>,
    cursor: int,
    source: Seq<char>,
) -> Option<int>
    decreases patterns, patterns.len() - from,
{
    if from < 0 || from >= patterns.len() || cursor < 0 || cursor > tokens.len() {
        Some(cursor)
    } else {
        match patterns[from].matches_spec(tokens.skip(cursor), source) {
            None => None,
            Some(k) => sequence_end(patterns, from + 1, tokens, cursor + k, source),
        }
    }
}

/// Whether each of `patterns[from..]` matches at the start of `tokens`.
pub open spec fn all_match(
    patterns: Seq<Pattern>,
    from: int,
    tokens: Seq<Token>,
    source: Seq<char>,
) -> bool
    decreases patterns, patterns.len() - from,
{
    if from < 0 || from >= patterns.len() {
        true
    } else {
        patterns[from].matches_spec(tokens, source) is Some && all_match(
            patterns,
            from + 1,
            tokens,
            source,
        )
    }
}

/// The matches that a left-to-right search finds from token `at` on:
/// after a match the search goes on behind it, so that no two matches
/// share a token. A match of no tokens counts as none.
pub open spec fn matches_from(
    pattern: Pattern,
    tokens: Seq<Token>,
    source: Seq<char>,
    at: int,
) -> Seq<Span>
    decreases tokens.len() - at,
{
    if at < 0 || at >= tokens.len() {
        Seq::empty()
    } else {
        match pattern.matches_spec(tokens.skip(at), source) {
            Some(k) if 0 < k && at + k <= tokens.len() => seq![
                Span { start: at as usize, end: (at + k) as usize },
            ] + matches_from(pattern, tokens, source, at + k),
            _ => matches_from(pattern, tokens, source, at + 1),
        }
    }
}

fn lowered_equals(text: &[char], word: &Vec<char>) -> (r: bool)
    ensures
        r == (lower_all(text@) == word@),
{
    if text.len() != word.len() {
        return false;
    }
    let mut i: usize = 0;
    while i < text.len()
        invariant
            i <= text@.len(),
            text@.len() == word@.len(),
            forall|j: int| 0 <= j < i ==> lower(text@[j]) == word@[j],
        decreases text@.len() - i,
    {
        if to_lower(text[i]) != word[i] {
            assert(lower_all(text@)[i as int] != word@[i as int]);
            return false;
        }
        i = i + 1;
    }
    assert(lower_all(text@) =~= word@);
    true
}

fn equals_ignoring_case(a: &[char], b: &Vec<char>) -> (r: bool)
    ensures
        r == same_ignoring_case(a@, b@),
{
    if a.len() != b.len() {
        assert(lower_all(a@).len() != lower_all(b@).len());
        return false;
    }
    let mut i: usize = 0;
    while i < a.len()
        invariant
            i <= a@.len(),
            a@.len() == b@.len(),
            forall|j: int| 0 <= j < i ==> lower(a@[j]) == lower(b@[j]),
        decreases a@.len() - i,
    {
        if to_lower(a[i]) != to_lower(b[i]) {
            assert(lower_all(a@)[i as int] != lower_all(b@)[i as int]);
            return false;
        }
        i = i + 1;
    }
    assert(lower_all(a@) =~= lower_all(b@));
    true
}

fn word_of<'a>(token: &Token, source: &'a [char]) -> (r: Option<&'a [char]>)
    ensures
        match r {
            Some(text) => word_content(*token, source@) == Some(text@),
            None => word_content(*token, source@) is None,
        },
{
    if token.kind.is_word() && token.span.fits_in(source) {
        Some(token.span.get_content(source))
    } else {
        None
    }
}

fn word_set_holds(words: &Vec<Vec<char>>, text: &[char]) -> (r: bool)
    ensures
        r == in_word_set(words@, text@),
{
    let mut i: usize = 0;
    while i < words.len()
        invariant
            i <= words@.len(),
            forall|j: int| 0 <= j < i ==> (#[trigger] words@[j])@ != lower_all(text@),
        decreases words@.len() - i,
    {
        if lowered_equals(text, &words[i]) {
            return true;
        }
        i = i + 1;
    }
    false
}

impl Pattern {
    /// The length of the match anchored at the first of `tokens`, or
    /// `None` where the pattern does not match there.
    pub open spec fn matches_spec(self, tokens: Seq<Token>, source: Seq<char>) -> Option<int>
        decreases self, 0nat,
    {
        match self {
            Pattern::WordSet(words) => if tokens.len() > 0 && (word_content(tokens[0], source)
                matches Some(text) && in_word_set(words@, text)) {
                Some(1)
            } else {
                None
            },
            Pattern::AnyCapitalization(word) => if tokens.len() > 0 && (word_content(
                tokens[0],
                source,
            ) matches Some(text) && same_ignoring_case(text, word@)) {
                Some(1)
            } else {
                None
            },
            Pattern::AnyWord => if tokens.len() > 0 && tokens[0].kind is Word {
                Some(1)
            } else {
                None
            },
            Pattern::Whitespace => if tokens.len() > 0 && tokens[0].kind is Space {
                Some(1)
            } else {
                None
            },
            Pattern::Apostrophe => if tokens.len() > 0 && tokens[0].kind
                == TokenKind::Punctuation(Punctuation::Apostrophe) {
                Some(1)
            } else {
                None
            },
            Pattern::Predicate(test) => if tokens.len() > 0 && test.holds(tokens[0]) {
                Some(1)
            } else {
                None
            },
            Pattern::Sequence(patterns) => sequence_end(patterns@, 0, tokens, 0, source),
            Pattern::Or(first, second) => match first.matches_spec(tokens, source) {
                Some(k) => Some(k),
                None => second.matches_spec(tokens, source),
            },
            Pattern::All(patterns) => if patterns@.len() > 0 && all_match(
                patterns@,
                0,
                tokens,
                source,
            ) {
                patterns@[0].matches_spec(tokens, source)
            } else {
                None
            },
            Pattern::Invert(inner) => if tokens.len() > 0 && inner.matches_spec(tokens, source)
                is None {
                Some(1)
            } else {
                None
            },
        }
    }

    /// The length of the match anchored at `tokens[at]`.
    pub fn matches_at(&self, tokens: &[Token], at: usize, source: &[char]) -> (r: Option<usize>)
        requires
            at <= tokens@.len(),
        ensures
            match r {
                Some(k) => self.matches_spec(tokens@.skip(at as int), source@) == Some(k as int)
                    && at + k <= tokens@.len(),
                None => self.matches_spec(tokens@.skip(at as int), source@) is None,
            },
        decreases self,
    {
        let ghost rest = tokens@.skip(at as int);
        match self {
            Pattern::WordSet(words) => {
                if at < tokens.len() {
                    match word_of(&tokens[at], source) {
                        Some(text) => if word_set_holds(words, text) {
                            Some(1)
                        } else {
                            None
                        },
                        None => None,
                    }
                } else {
                    None
                }
            },
            Pattern::AnyCapitalization(word) => {
                if at < tokens.len() {
                    match word_of(&tokens[at], source) {
                        Some(text) => if equals_ignoring_case(text, word) {
                            Some(1)
                        } else {
                            None
                        },
                        None => None,
                    }
                } else {
                    None
                }
            },
            Pattern::AnyWord => {
                if at < tokens.len() && tokens[at].kind.is_word() {
                    Some(1)
                } else {
                    None
                }
            },
            Pattern::Whitespace => {
                if at < tokens.len() && tokens[at].kind.is_space() {
                    Some(1)
                } else {
                    None
                }
            },
            Pattern::Apostrophe => {
                if at < tokens.len() && tokens[at].kind.is_apostrophe() {
                    Some(1)
                } else {
                    None
                }
            },
            Pattern::Predicate(test) => {
                if at < tokens.len() && test.test(&tokens[at]) {
                    Some(1)
                } else {
                    None
                }
            },
            Pattern::Sequence(patterns) => {
                proof {
                    assert(decreases_to!(*self => *patterns));
                }
                let mut i: usize = 0;
                let mut cursor: usize = at;
                while i < patterns.len()
                    invariant
                        i <= patterns@.len(),
                        at <= cursor <= tokens@.len() <= usize::MAX,
                        rest == tokens@.skip(at as int),
                        decreases_to!(*self => *patterns),
                        self.matches_spec(rest, source@) == sequence_end(
                            patterns@,
                            0,
                            rest,
                            0,
                            source@,
                        ),
                        sequence_end(patterns@, 0, rest, 0, source@) == sequence_end(
                            patterns@,
                            i as int,
                            rest,
                            cursor - at,
                            source@,
                        ),
                    decreases patterns@.len() - i,
                {
                    proof {
                        assert(decreases_to!(*patterns => patterns@));
                        assert(decreases_to!(patterns@ => patterns@[i as int]));
                        assert(rest.skip(cursor - at) =~= tokens@.skip(cursor as int));
                    }
                    match patterns[i].matches_at(tokens, cursor, source) {
                        None => {
                            return None;
                        },
                        Some(k) => {
                            cursor = cursor + k;
                        },
                    }
                    i = i + 1;
                }
                Some(cursor - at)
            },
            Pattern::Or(first, second) => {
                match first.matches_at(tokens, at, source) {
                    Some(k) => Some(k),
                    None => second.matches_at(tokens, at, source),
                }
            },
            Pattern::All(patterns) => {
                proof {
                    assert(decreases_to!(*self => *patterns));
                }
                if patterns.len() == 0 {
                    return None;
                }
                let mut i: usize = 0;
                let mut first: Option<usize> = None;
                while i < patterns.len()
                    invariant
                        i <= patterns@.len(),
                        patterns@.len() > 0,
                        at <= tokens@.len(),
                        rest == tokens@.skip(at as int),
                        decreases_to!(*self => *patterns),
                        self.matches_spec(rest, source@) == (if all_match(
                            patterns@,
                            0,
                            rest,
                            source@,
                        ) {
                            patterns@[0].matches_spec(rest, source@)
                        } else {
                            None
                        }),
                        all_match(patterns@, 0, rest, source@) == all_match(
                            patterns@,
                            i as int,
                            rest,
                            source@,
                        ),
                        i > 0 ==> (first matches Some(k) && patterns@[0].matches_spec(rest, source@)
                            == Some(k as int) && at + k <= tokens@.len()),
                    decreases patterns@.len() - i,
                {
                    proof {
                        assert(decreases_to!(*patterns => patterns@));
                        assert(decreases_to!(patterns@ => patterns@[i as int]));
                    }
                    match patterns[i].matches_at(tokens, at, source) {
                        None => {
                            return None;
                        },
                        Some(k) => {
                            if i == 0 {
                                first = Some(k);
                            }
                        },
                    }
                    i = i + 1;
                }
                first
            },
            Pattern::Invert(inner) => {
                if at < tokens.len() && inner.matches_at(tokens, at, source).is_none() {
                    Some(1)
                } else {
                    None
                }
            },
        }
    }

    /// The length of the match anchored at the first of `tokens`.
    pub fn matches(&self, tokens: &[Token], source: &[char]) -> (r: Option<usize>)
        ensures
            match r {
                Some(k) => self.matches_spec(tokens@, source@) == Some(k as int) && k
                    <= tokens@.len(),
                None => self.matches_spec(tokens@, source@) is None,
            },
    {
        assert(tokens@.skip(0) =~= tokens@);
        self.matches_at(tokens, 0, source)
    }

    /// All matches that do not overlap, found from left to right, as
    /// spans of token indices.
    pub fn find_all_matches(&self, tokens: &[Token], source: &[char]) -> (found: Vec<Span>)
        ensures
            found@ == matches_from(*self, tokens@, source@, 0),
            forall|i: int|
                0 <= i < found@.len() ==> (#[trigger] found@[i]).start < found@[i].end
                    <= tokens@.len(),
            forall|i: int|
                0 <= i < found@.len() ==> self.matches_spec(
                    tokens@.skip((#[trigger] found@[i]).start as int),
                    source@,
                ) == Some(found@[i].end - found@[i].start),
            forall|i: int, j: int|
                0 <= i < j < found@.len() ==> (#[trigger] found@[i]).end <= (
                #[trigger] found@[j]).start,
    {
        let mut found: Vec<Span> = Vec::new();
        let mut at: usize = 0;
        while at < tokens.len()
            invariant
                at <= tokens@.len(),
                matches_from(*self, tokens@, source@, 0) == found@ + matches_from(
                    *self,
                    tokens@,
                    source@,
                    at as int,
                ),
                forall|i: int|
                    0 <= i < found@.len() ==> (#[trigger] found@[i]).start < found@[i].end <= at,
                forall|i: int|
                    0 <= i < found@.len() ==> self.matches_spec(
                        tokens@.skip((#[trigger] found@[i]).start as int),
                        source@,
                    ) == Some(found@[i].end - found@[i].start),
                forall|i: int, j: int|
                    0 <= i < j < found@.len() ==> (#[trigger] found@[i]).end <= (
                    #[trigger] found@[j]).start,
            decreases tokens@.len() - at,
        {
            let ghost before = found@;
            let ghost tail = matches_from(*self, tokens@, source@, at as int);
            match self.matches_at(tokens, at, source) {
                Some(k) => {
                    if k > 0 {
                        let span = Span::new(at, at + k);
                        found.push(span);
                        proof {
                            let next = matches_from(*self, tokens@, source@, at + k);
                            assert(tail == seq![span] + next);
                            assert(found@ =~= before + seq![span]);
                            assert(before + tail =~= found@ + next);
                        }
                        at = at + k;
                    } else {
                        at = at + 1;
                    }
                },
                None => {
                    at = at + 1;
                },
            }
        }
        assert(found@ + Seq::<Span>::empty() =~= found@);
        found
    }
}

/// Builds a [`Pattern::Sequence`] step by step.
#[derive(Debug)]
pub struct SequencePattern {
    pub patterns: Vec<Pattern>,
}

impl Default for SequencePattern {
    fn default() -> (r: Self)
        ensures
            r.patterns@ == Seq::<Pattern>::empty(),
    {
        SequencePattern { patterns: Vec::new() }
    }
}

impl SequencePattern {
    /// Adds a pattern to the end of the sequence.
    pub fn then_pattern(self, pattern: Pattern) -> (r: Self)
        ensures
            r.patterns@ == self.patterns@.push(pattern),
    {
        let mut patterns = self.patterns;
        patterns.push(pattern);
        SequencePattern { patterns }
    }

    pub fn then_whitespace(self) -> (r: Self)
        ensures
            r.patterns@ == self.patterns@.push(Pattern::Whitespace),
    {
        self.then_pattern(Pattern::Whitespace)
    }

    pub fn then_any_word(self) -> (r: Self)
        ensures
            r.patterns@ == self.patterns@.push(Pattern::AnyWord),
    {
        self.then_pattern(Pattern::AnyWord)
    }

    pub fn then_apostrophe(self) -> (r: Self)
        ensures
            r.patterns@ == self.patterns@.push(Pattern::Apostrophe),
    {
        self.then_pattern(Pattern::Apostrophe)
    }

    pub fn then_any_capitalization_of(self, word: &str) -> (r: Self)
        ensures
            r.patterns@.len() == self.patterns@.len() + 1,
            forall|i: int|
                0 <= i < self.patterns@.len() ==> #[trigger] r.patterns@[i] == self.patterns@[i],
            r.patterns@.last() matches Pattern::AnyCapitalization(chars) && chars@ == word@,
    {
        self.then_pattern(Pattern::any_capitalization(word))
    }

    pub fn into_pattern(self) -> (r: Pattern)
        ensures
            r == Pattern::Sequence(self.patterns),
    {
        Pattern::Sequence(self.patterns)
    }
}

impl Pattern {
    pub fn word_set(words: &[&str]) -> (r: Pattern)
        ensures
            r matches Pattern::WordSet(set) && set@.len() == words@.len() && forall|i: int|
                0 <= i < words@.len() ==> (#[trigger] set@[i])@ == words@[i]@,
    {
        let mut set: Vec<Vec<char>> = Vec::new();
        let mut i: usize = 0;
        while i < words.len()
            invariant
                i <= words@.len(),
                set@.len() == i,
                forall|j: int| 0 <= j < i ==> (#[trigger] set@[j])@ == words@[j]@,
            decreases words@.len() - i,
        {
            set.push(chars_of(words[i]));
            i = i + 1;
        }
        Pattern::WordSet(set)
    }

    pub fn any_capitalization(word: &str) -> (r: Pattern)
        ensures
            r matches Pattern::AnyCapitalization(chars) && chars@ == word@,
    {
        Pattern::AnyCapitalization(chars_of(word))
    }

    pub fn invert(inner: Pattern) -> (r: Pattern)
        ensures
            r == Pattern::Invert(Box::new(inner)),
    {
        Pattern::Invert(Box::new(inner))
    }

    pub fn all(patterns: Vec<Pattern>) -> (r: Pattern)
        ensures
            r == Pattern::All(patterns),
    {
        Pattern::All(patterns)
    }

    /// This pattern, or `other` where this one does not match.
    pub fn or(self, other: Pattern) -> (r: Pattern)
        ensures
            r == Pattern::Or(Box::new(self), Box::new(other)),
    {
        Pattern::Or(Box::new(self), Box::new(other))
    }

    /// Word, apostrophe, word: a possessive or a contraction that the
    /// tokenizer left in three pieces.
    pub fn word_apostrophe_word() -> (r: Pattern)
        ensures
            forall|tokens: Seq<Token>, source: Seq<char>|
                #[trigger] r.matches_spec(tokens, source) == (if is_split_word(tokens) {
                    Some(3int)
                } else {
                    None
                }),
    {
        let r = SequencePattern::default().then_any_word().then_apostrophe().then_any_word()
            .into_pattern();
        proof {
            assert forall|tokens: Seq<Token>, source: Seq<char>|
                #[trigger] r.matches_spec(tokens, source) == (if is_split_word(tokens) {
                    Some(3int)
                } else {
                    None
                }) by {
                assert(r->Sequence_0@ =~= seq![
                    Pattern::AnyWord,
                    Pattern::Apostrophe,
                    Pattern::AnyWord,
                ]);
                lemma_split_word(r, tokens, source);
            }
        }
        r
    }
}

/// The first three tokens are a word, an apostrophe and a word.
pub open spec fn is_split_word(tokens: Seq<Token>) -> bool {
    tokens.len() >= 3 && tokens[0].kind is Word && tokens[1].kind == TokenKind::Punctuation(
        Punctuation::Apostrophe,
    ) && tokens[2].kind is Word
}

proof fn lemma_split_word(pattern: Pattern, tokens: Seq<Token>, source: Seq<char>)
    requires
        pattern matches Pattern::Sequence(patterns) && patterns@ == seq![
            Pattern::AnyWord,
            Pattern::Apostrophe,
            Pattern::AnyWord,
        ],
    ensures
        pattern.matches_spec(tokens, source) == (if is_split_word(tokens) {
            Some(3int)
        } else {
            None
        }),
{
    let patterns = pattern->Sequence_0@;
    assert(patterns[0] == Pattern::AnyWord);
    assert(patterns[1] == Pattern::Apostrophe);
    assert(patterns[2] == Pattern::AnyWord);
    assert(tokens.skip(0) =~= tokens);
    assert(pattern.matches_spec(tokens, source) == sequence_end(patterns, 0, tokens, 0, source));
    if tokens.len() >= 1 && tokens[0].kind is Word {
        assert(patterns[0].matches_spec(tokens.skip(0), source) == Some(1int));
        assert(sequence_end(patterns, 0, tokens, 0, source) == sequence_end(
            patterns,
            1,
            tokens,
            1,
            source,
        ));
        if tokens.len() >= 2 {
            assert(tokens.skip(1)[0] == tokens[1]);
        }
        if tokens.len() >= 2 && tokens[1].kind == TokenKind::Punctuation(Punctuation::Apostrophe) {
            assert(patterns[1].matches_spec(tokens.skip(1), source) == Some(1int));
            assert(sequence_end(patterns, 1, tokens, 1, source) == sequence_end(
                patterns,
                2,
                tokens,
                2,
                source,
            ));
            if tokens.len() >= 3 {
                assert(tokens.skip(2)[0] == tokens[2]);
            }
            if tokens.len() >= 3 && tokens[2].kind is Word {
                assert(patterns[2].matches_spec(tokens.skip(2), source) == Some(1int));
                assert(sequence_end(patterns, 2, tokens, 2, source) == sequence_end(
                    patterns,
                    3,
                    tokens,
                    3,
                    source,
                ));
            }
        }
    }
}

} // verus!
