use vstd::prelude::*;
use crate::token::Token;

pub mod apostrophes;
pub mod node_kind;
pub mod offset;
pub mod placement;
pub mod plain_english;
pub mod syntax_tree;
pub mod typst;

pub use offset::Offset;
pub use plain_english::PlainEnglish;
pub use typst::Typst;

verus! {

/// Turns source text into tokens.
pub trait Parser {
    /// The tokens that the parser makes of a source.
    spec fn parsed(&self, source: Seq<char>) -> Seq<Token>;

    fn parse(&mut self, source: &[char]) -> (tokens: Vec<Token>)
        ensures
            tokens@ == old(self).parsed(source@),
    ;
}

} // verus!
