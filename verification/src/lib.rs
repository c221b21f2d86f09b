//! Core of a linter for English prose: character spans, tokens, token
//! patterns, pattern-driven lint rules and a Typst front end.

pub mod chars;
pub mod lexicon;
pub mod linting;
pub mod parsers;
pub mod patterns;
pub mod span;
pub mod token;
pub mod vec_ext;
pub mod word_metadata;

pub use lexicon::Lexicon;
pub use patterns::{Pattern, SequencePattern, TokenTest};
pub use span::Span;
pub use token::{Punctuation, Quote, Real, Token, TokenKind, Unit};
pub use word_metadata::{AdjectiveData, ConjunctionData, NounData, VerbData, WordMetadata};
