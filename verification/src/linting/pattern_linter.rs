//! Rules that are driven by a token pattern, and the engine that runs
//! them.

use vstd::prelude::*;
use crate::linting::lint::{lint_views, Lint, LintView};
use crate::patterns::{matches_from, Pattern};
use crate::span::Span;
use crate::token::Token;

verus! {

/// A rule that looks for a token pattern and turns each match into a
/// lint, or into none.
pub trait PatternLinter {
    /// The pattern that the rule searches for.
    spec fn pattern_spec(&self) -> Pattern;

    /// The lint that the rule makes of one match.
    spec fn lint_spec(&self, matched_tokens: Seq<Token>, source: Seq<char>) -> Option<LintView>;

    fn pattern(&self) -> (pattern: &Pattern)
        ensures
            *pattern == self.pattern_spec(),
    ;

    fn match_to_lint(&self, matched_tokens: &[Token], source: &[char]) -> (lint: Option<Lint>)
        ensures
            match lint {
                Some(lint) => self.lint_spec(matched_tokens@, source@) == Some(lint@),
                None => self.lint_spec(matched_tokens@, source@) is None,
            },
    ;

    /// What the rule is for, in a sentence.
    fn description(&self) -> &'static str;
}

/// The lints that a rule makes of the first `upto` of the given matches,
/// in the order of the matches.
pub open spec fn lints_of_matches<L: PatternLinter>(
    linter: &L,
    found: Seq<Span>,
    upto: int,
    tokens: Seq<Token>,
    source: Seq<char>,
) -> Seq<LintView>
    decreases upto,
{
    if upto <= 0 || upto > found.len() {
        Seq::empty()
    } else {
        let before = lints_of_matches(linter, found, upto - 1, tokens, source);
        let span = found[upto - 1];
        match linter.lint_spec(tokens.subrange(span.start as int, span.end as int), source) {
            Some(lint) => before.push(lint),
            None => before,
        }
    }
}

/// The lints of a rule on a token stream: one for each match of its
/// pattern that the rule turns into a lint, matches found from left to
/// right without overlap.
pub open spec fn lints_of<L: PatternLinter>(linter: &L, tokens: Seq<Token>, source: Seq<char>) -> Seq<
    LintView,
> {
    let found = matches_from(linter.pattern_spec(), tokens, source, 0);
    lints_of_matches(linter, found, found.len() as int, tokens, source)
}

/// Runs a rule over a token stream.
pub fn lint<L: PatternLinter>(linter: &L, tokens: &[Token], source: &[char]) -> (lints: Vec<Lint>)
    ensures
        lint_views(lints@) == lints_of(linter, tokens@, source@),
{
    let found = linter.pattern().find_all_matches(tokens, source);
    let mut lints: Vec<Lint> = Vec::new();
    let mut i: usize = 0;
    while i < found.len()
        invariant
            i <= found@.len(),
            forall|j: int|
                0 <= j < found@.len() ==> (#[trigger] found@[j]).start < found@[j].end
                    <= tokens@.len(),
            lint_views(lints@) == lints_of_matches(linter, found@, i as int, tokens@, source@),
        decreases found@.len() - i,
    {
        let span = found[i];
        let ghost before = lints@;
        match linter.match_to_lint(&tokens[span.start..span.end], source) {
            Some(lint) => {
                lints.push(lint);
                assert(lint_views(lints@) =~= lint_views(before).push(lint@));
            },
            None => {},
        }
        i = i + 1;
    }
    lints
}

} // verus!
