//! A small morphology that lint rules can lean on.

use vstd::prelude::*;
use crate::chars::{chars_of, lower, lower_all, to_lower};
use crate::patterns::word_content;
use crate::token::{Token, TokenKind};
use crate::word_metadata::WordMetadata;

verus! {

/// What is known of one word, written in lower case.
#[derive(Debug)]
pub struct LexiconEntry {
    pub word: Vec<char>,
    pub metadata: WordMetadata,
}

/// A small morphology: what is known of some words.
#[derive(Debug)]
pub struct Lexicon {
    pub entries: Vec<LexiconEntry>,
}

/// What the first `upto` entries know of a word: the union of the
/// metadata of those that are the word in lower case, earlier entries
/// first.
pub open spec fn known_of(entries: Seq<LexiconEntry>, upto: int, word: Seq<char>) -> WordMetadata
    decreases upto,
{
    if upto <= 0 || upto > entries.len() {
        WordMetadata::empty()
    } else {
        let before = known_of(entries, upto - 1, word);
        if entries[upto - 1].word@ == lower_all(word) {
            before.union(entries[upto - 1].metadata)
        } else {
            before
        }
    }
}

fn is_lowered(text: &[char], word: &Vec<char>) -> (r: bool)
    ensures
        r == (word@ == lower_all(text@)),
{
    if text.len() != word.len() {
        return false;
    }
    let mut i: usize = 0;
    while i < text.len()
        invariant
            i <= text@.len(),
            text@.len() == word@.len(),
            forall|j: int| 0 <= j < i ==> lower(text@[j]) == word@[j],
        decreases text@.len() - i,
    {
        if to_lower(text[i]) != word[i] {
            assert(lower_all(text@)[i as int] != word@[i as int]);
            return false;
        }
        i = i + 1;
    }
    assert(lower_all(text@) =~= word@);
    true
}

impl Lexicon {
    /// What the lexicon knows of a word.
    pub open spec fn known(&self, word: Seq<char>) -> WordMetadata {
        known_of(self.entries@, self.entries@.len() as int, word)
    }

    /// A token with what the lexicon knows added to its metadata, where
    /// it is a word whose span fits the source.
    pub open spec fn annotated(&self, token: Token, source: Seq<char>) -> Token {
        match (token.kind, word_content(token, source)) {
            (TokenKind::Word(metadata), Some(text)) => Token {
                span: token.span,
                kind: TokenKind::Word(metadata.union(self.known(text))),
            },
            _ => token,
        }
    }

    pub fn new() -> (lexicon: Self)
        ensures
            lexicon.entries@.len() == 0,
    {
        Lexicon { entries: Vec::new() }
    }

    /// Adds what is known of a word, given in lower case.
    pub fn insert(&mut self, word: &str, metadata: WordMetadata)
        ensures
            final(self).entries@.len() == old(self).entries@.len() + 1,
            forall|i: int|
                0 <= i < old(self).entries@.len() ==> #[trigger] final(self).entries@[i] == old(
                    self,
                ).entries@[i],
            final(self).entries@.last().word@ == word@,
            final(self).entries@.last().metadata == metadata,
    {
        self.entries.push(LexiconEntry { word: chars_of(word), metadata });
    }

    pub fn lookup(&self, word: &[char]) -> (metadata: WordMetadata)
        ensures
            metadata == self.known(word@),
    {
        let mut metadata = WordMetadata::default();
        let mut i: usize = 0;
        while i < self.entries.len()
            invariant
                i <= self.entries@.len(),
                metadata == known_of(self.entries@, i as int, word@),
            decreases self.entries@.len() - i,
        {
            if is_lowered(word, &self.entries[i].word) {
                metadata = metadata.or(&self.entries[i].metadata);
            }
            i = i + 1;
        }
        metadata
    }

    /// Adds what the lexicon knows to every word among the tokens. Spans
    /// and other tokens stay as they are.
    pub fn annotate(&self, tokens: &mut Vec<Token>, source: &[char])
        ensures
            final(tokens)@.len() == old(tokens)@.len(),
            forall|i: int|
                0 <= i < old(tokens)@.len() ==> #[trigger] final(tokens)@[i] == self.annotated(
                    old(tokens)@[i],
                    source@,
                ),
    {
        let mut i: usize = 0;
        while i < tokens.len()
            invariant
                i <= tokens@.len(),
                tokens@.len() == old(tokens)@.len(),
                forall|j: int|
                    0 <= j < i ==> #[trigger] tokens@[j] == self.annotated(
                        old(tokens)@[j],
                        source@,
                    ),
                forall|j: int| i <= j < tokens@.len() ==> #[trigger] tokens@[j] == old(tokens)@[j],
            decreases tokens@.len() - i,
        {
            let token = tokens[i];
            match token.kind {
                TokenKind::Word(metadata) => {
                    if token.span.fits_in(source) {
                        let text = token.span.get_content(source);
                        let enriched = metadata.or(&self.lookup(text));
                        tokens.set(i, Token { span: token.span, kind: TokenKind::Word(enriched) });
                    }
                },
                _ => {},
            }
            i = i + 1;
        }
    }
}

} // verus!
