//! The rule against `then` where `than` is meant.

use vstd::prelude::*;
use crate::chars::{chars_of, lower_all};
use crate::linting::lint::{Lint, LintKind, LintView};
use crate::linting::pattern_linter::PatternLinter;
use crate::linting::suggestion::{match_case, Suggestion};
use crate::patterns::{
    all_match, in_word_set, same_ignoring_case, sequence_end, word_content, Pattern,
    SequencePattern, TokenTest,
};
use crate::token::Token;

verus! {

/// Corrects the misuse of `then` to `than`.
pub struct ThenThan {
    pattern: Pattern,
}

/// The token is a word that asks for a comparison: `better`, `other`,
/// or any adjective.
pub open spec fn leads_comparison(token: Token, source: Seq<char>) -> bool {
    (word_content(token, source) matches Some(text) && (lower_all(text) == "better"@ || lower_all(
        text,
    ) == "other"@)) || token.kind.spec_is_adjective()
}

/// The token is one of the words after which `then` is left alone:
/// `back`, `this`, `so`, `but`.
pub open spec fn is_exception(token: Token, source: Seq<char>) -> bool {
    word_content(token, source) matches Some(text) && (lower_all(text) == "back"@ || lower_all(text)
        == "this"@ || lower_all(text) == "so"@ || lower_all(text) == "but"@)
}

/// The token is the given word in any capitalization.
pub open spec fn is_word_ignoring_case(token: Token, source: Seq<char>, word: Seq<char>) -> bool {
    word_content(token, source) matches Some(text) && same_ignoring_case(text, word)
}

/// The tokens start with a misuse of `then`: a comparison word that is
/// no exception, a space, `then`, a space, and a token other than the
/// word `that`.
pub open spec fn misuse_at(tokens: Seq<Token>, source: Seq<char>) -> bool {
    &&& tokens.len() >= 5
    &&& leads_comparison(tokens[0], source)
    &&& !is_exception(tokens[0], source)
    &&& tokens[1].kind is Space
    &&& is_word_ignoring_case(tokens[2], source, "then"@)
    &&& tokens[3].kind is Space
    &&& !is_word_ignoring_case(tokens[4], source, "that"@)
}

/// The shape of the rule's pattern: the five-step sequence, guarded by
/// the list of exceptions.
spec fn is_rule_pattern(pattern: Pattern) -> bool {
    &&& pattern matches Pattern::All(parts)
    &&& parts@.len() == 2
    &&& parts@[0] matches Pattern::Sequence(steps)
    &&& steps@.len() == 5
    &&& steps@[0] matches Pattern::Or(named, tested)
    &&& *named matches Pattern::WordSet(leads)
    &&& leads@.len() == 2
    &&& leads@[0]@ == "better"@
    &&& leads@[1]@ == "other"@
    &&& *tested == Pattern::Predicate(TokenTest::IsAdjective)
    &&& steps@[1] == Pattern::Whitespace
    &&& steps@[2] matches Pattern::AnyCapitalization(misused)
    &&& misused@ == "then"@
    &&& steps@[3] == Pattern::Whitespace
    &&& steps@[4] matches Pattern::Invert(follower)
    &&& *follower matches Pattern::AnyCapitalization(that)
    &&& that@ == "that"@
    &&& parts@[1] matches Pattern::Invert(guard)
    &&& *guard matches Pattern::WordSet(exceptions)
    &&& exceptions@.len() == 4
    &&& exceptions@[0]@ == "back"@
    &&& exceptions@[1]@ == "this"@
    &&& exceptions@[2]@ == "so"@
    &&& exceptions@[3]@ == "but"@
}

proof fn lemma_rule_pattern(pattern: Pattern, tokens: Seq<Token>, source: Seq<char>)
    requires
        is_rule_pattern(pattern),
    ensures
        pattern.matches_spec(tokens, source) == (if misuse_at(tokens, source) {
            Some(5int)
        } else {
            None
        }),
{
    let parts = pattern->All_0@;
    let steps = parts[0]->Sequence_0@;
    let leads = (*steps[0]->Or_0)->WordSet_0@;
    let exceptions = (*parts[1]->Invert_0)->WordSet_0@;
    assert(tokens.skip(0) =~= tokens);
    // The guard: the anchor is none of the exceptions.
    let guard = parts[1].matches_spec(tokens, source);
    let excepted = (*parts[1]->Invert_0).matches_spec(tokens, source);
    let named = (*steps[0]->Or_0).matches_spec(tokens, source);
    if tokens.len() > 0 {
        if let Some(text) = word_content(tokens[0], source) {
            if in_word_set(exceptions, text) {
                let i = choose|i: int|
                    0 <= i < exceptions.len() && (#[trigger] exceptions[i])@ == lower_all(text);
                assert(is_exception(tokens[0], source));
            }
            if is_exception(tokens[0], source) {
                assert(exceptions[0]@ == "back"@);
                assert(exceptions[1]@ == "this"@);
                assert(exceptions[2]@ == "so"@);
                assert(exceptions[3]@ == "but"@);
                assert(in_word_set(exceptions, text));
            }
            if in_word_set(leads, text) {
                let i = choose|i: int|
                    0 <= i < leads.len() && (#[trigger] leads[i])@ == lower_all(text);
                assert(leads_comparison(tokens[0], source));
            }
            if lower_all(text) == "better"@ || lower_all(text) == "other"@ {
                assert(leads[0]@ == "better"@);
                assert(leads[1]@ == "other"@);
                assert(in_word_set(leads, text));
            }
        }
    }
    assert(excepted is Some <==> tokens.len() > 0 && is_exception(tokens[0], source));
    assert(guard is Some <==> tokens.len() > 0 && excepted is None);
    assert(guard is Some <==> tokens.len() > 0 && !is_exception(tokens[0], source));
    // The sequence, step by step.
    let shape = parts[0].matches_spec(tokens, source);
    assert(shape == sequence_end(steps, 0, tokens, 0, source));
    let lead = steps[0].matches_spec(tokens.skip(0), source);
    assert((*steps[0]->Or_1).matches_spec(tokens, source) is Some <==> tokens.len() > 0
        && tokens[0].kind.spec_is_adjective());
    assert(named is Some <==> tokens.len() > 0 && (word_content(tokens[0], source) matches Some(
        text,
    ) && in_word_set(leads, text)));
    assert(named is Some ==> named == Some(1int));
    assert(lead is Some <==> tokens.len() > 0 && leads_comparison(tokens[0], source));
    assert(lead is Some ==> lead == Some(1int));
    let complete = {
        &&& tokens.len() >= 5
        &&& leads_comparison(tokens[0], source)
        &&& tokens[1].kind is Space
        &&& is_word_ignoring_case(tokens[2], source, "then"@)
        &&& tokens[3].kind is Space
        &&& !is_word_ignoring_case(tokens[4], source, "that"@)
    };
    if lead is Some {
        assert(shape == sequence_end(steps, 1, tokens, 1, source));
        if tokens.len() >= 2 {
            assert(tokens.skip(1)[0] == tokens[1]);
        }
        let second = steps[1].matches_spec(tokens.skip(1), source);
        assert(second is Some <==> tokens.len() >= 2 && tokens[1].kind is Space);
        if second is Some {
            assert(second == Some(1int));
            assert(shape == sequence_end(steps, 2, tokens, 2, source));
            if tokens.len() >= 3 {
                assert(tokens.skip(2)[0] == tokens[2]);
            }
            let third = steps[2].matches_spec(tokens.skip(2), source);
            assert(third is Some <==> tokens.len() >= 3 && is_word_ignoring_case(
                tokens[2],
                source,
                "then"@,
            ));
            if third is Some {
                assert(third == Some(1int));
                assert(shape == sequence_end(steps, 3, tokens, 3, source));
                if tokens.len() >= 4 {
                    assert(tokens.skip(3)[0] == tokens[3]);
                }
                let fourth = steps[3].matches_spec(tokens.skip(3), source);
                assert(fourth is Some <==> tokens.len() >= 4 && tokens[3].kind is Space);
                if fourth is Some {
                    assert(fourth == Some(1int));
                    assert(shape == sequence_end(steps, 4, tokens, 4, source));
                    if tokens.len() >= 5 {
                        assert(tokens.skip(4)[0] == tokens[4]);
                    }
                    assert(tokens.skip(4).len() == tokens.len() - 4);
                    let inner = (*steps[4]->Invert_0).matches_spec(tokens.skip(4), source);
                    assert(inner is Some <==> tokens.len() >= 5 && is_word_ignoring_case(
                        tokens[4],
                        source,
                        "that"@,
                    ));
                    let fifth = steps[4].matches_spec(tokens.skip(4), source);
                    assert(fifth is Some <==> tokens.len() >= 5 && inner is None);
                    if fifth is Some {
                        assert(fifth == Some(1int));
                        assert(shape == sequence_end(steps, 5, tokens, 5, source));
                        assert(shape == Some(5int));
                    } else {
                        assert(shape is None);
                    }
                } else {
                    assert(shape is None);
                }
            } else {
                assert(shape is None);
            }
        } else {
            assert(shape is None);
        }
    } else {
        assert(shape is None);
    }
    assert(shape is Some <==> complete);
    assert(shape is Some ==> shape == Some(5int));
    // Both parts at the same anchor.
    assert(all_match(parts, 2, tokens, source));
    assert(all_match(parts, 1, tokens, source) == (guard is Some));
    assert(all_match(parts, 0, tokens, source) == (shape is Some && guard is Some));
}

impl ThenThan {
    pub fn new() -> (rule: Self)
        ensures
            forall|tokens: Seq<Token>, source: Seq<char>|
                #[trigger] rule.pattern_spec().matches_spec(tokens, source) == (if misuse_at(
                    tokens,
                    source,
                ) {
                    Some(5int)
                } else {
                    None
                }),
    {
        let leads: [&str; 2] = ["better", "other"];
        let named = Pattern::word_set(&leads);
        let lead = named.or(Pattern::Predicate(TokenTest::IsAdjective));
        let follower = Pattern::invert(Pattern::any_capitalization("that"));
        let ghost first = lead;
        let start = SequencePattern::default().then_pattern(lead).then_whitespace();
        assert(start.patterns@[0] == first && start.patterns@[1] == Pattern::Whitespace);
        let middle = start.then_any_capitalization_of("then");
        assert(middle.patterns@[0] == first && middle.patterns@[1] == Pattern::Whitespace);
        let shape = middle.then_whitespace().then_pattern(follower).into_pattern();
        // Denotes exceptions to the rule.
        let exceptions: [&str; 4] = ["back", "this", "so", "but"];
        let guard = Pattern::invert(Pattern::word_set(&exceptions));
        let mut parts: Vec<Pattern> = Vec::new();
        parts.push(shape);
        parts.push(guard);
        let pattern = Pattern::all(parts);
        proof {
            assert(is_rule_pattern(pattern));
            assert forall|tokens: Seq<Token>, source: Seq<char>|
                #[trigger] pattern.matches_spec(tokens, source) == (if misuse_at(tokens, source) {
                    Some(5int)
                } else {
                    None
                }) by {
                lemma_rule_pattern(pattern, tokens, source);
            }
        }
        Self { pattern }
    }
}

impl Default for ThenThan {
    fn default() -> (rule: Self)
        ensures
            forall|tokens: Seq<Token>, source: Seq<char>|
                #[trigger] rule.pattern_spec().matches_spec(tokens, source) == (if misuse_at(
                    tokens,
                    source,
                ) {
                    Some(5int)
                } else {
                    None
                }),
    {
        Self::new()
    }
}

impl PatternLinter for ThenThan {
    closed spec fn pattern_spec(&self) -> Pattern {
        self.pattern
    }

    /// The lint covers the third token of the match, the `then`, and
    /// proposes `than` in the same capitalization.
    open spec fn lint_spec(&self, matched_tokens: Seq<Token>, source: Seq<char>) -> Option<
        LintView,
    > {
        if matched_tokens.len() >= 3 && matched_tokens[2].span.fits(source.len()) {
            Some(
                LintView {
                    span: matched_tokens[2].span,
                    lint_kind: LintKind::Miscellaneous,
                    suggestions: seq![
                        match_case("than"@, matched_tokens[2].span.content(source)),
                    ],
                    message: "Did you mean `than`?"@,
                    priority: 31,
                },
            )
        } else {
            None
        }
    }

    fn pattern(&self) -> (pattern: &Pattern) {
        &self.pattern
    }

    fn match_to_lint(&self, matched_tokens: &[Token], source: &[char]) -> (lint: Option<Lint>) {
        if matched_tokens.len() < 3 {
            return None;
        }
        let span = matched_tokens[2].span;
        if !span.fits_in(source) {
            return None;
        }
        let offending_text = span.get_content(source);
        let suggestion = Suggestion::replace_with_match_case(chars_of("than"), offending_text);
        let mut suggestions: Vec<Suggestion> = Vec::new();
        suggestions.push(suggestion);
        let lint = Lint {
            span,
            lint_kind: LintKind::Miscellaneous,
            suggestions,
            message: "Did you mean `than`?".to_owned(),
            priority: 31,
        };
        assert(lint@.suggestions =~= seq![match_case("than"@, span.content(source@))]);
        Some(lint)
    }

    fn description(&self) -> (text: &'static str)
        ensures
            text@ == "Corrects the misuse of `then` to `than`."@,
    {
        "Corrects the misuse of `then` to `than`."
    }
}

} // verus!
