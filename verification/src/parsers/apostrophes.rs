//! Joining the pieces of possessives and contractions: a word, an
//! apostrophe and a word become one word.

use vstd::prelude::*;
use crate::patterns::{is_split_word, matches_from, Pattern};
use crate::span::Span;
use crate::token::{tokens_fit, tokens_ordered, Token, TokenKind};
use crate::vec_ext::{index_set, kept_from, remove_indices, sorted_unique, strictly_increasing};

verus! {

/// Whether the token is the suffix of a possessive: its text is `s`.
pub open spec fn is_possessive_suffix(last: Token, source: Seq<char>) -> bool {
    last.content(source) == Some(seq!['s'])
}

/// The word that a word, an apostrophe and a suffix make together: it
/// reaches from the start of the word to the end of the suffix, and its
/// metadata says whether it is a possessive or a contraction.
pub open spec fn merged(first: Token, last: Token, source: Seq<char>) -> Token {
    Token {
        span: Span { start: first.span.start, end: last.span.end },
        kind: match first.kind {
            TokenKind::Word(metadata) => TokenKind::Word(
                metadata.joined(is_possessive_suffix(last, source)),
            ),
            kind => kind,
        },
    }
}

/// The tokens from `at` on with every word, apostrophe, word merged into
/// one word. The tokens are read from left to right, and reading goes on
/// behind a merged group.
pub open spec fn consolidated(tokens: Seq<Token>, source: Seq<char>, at: int) -> Seq<Token>
    decreases tokens.len() - at,
{
    if at < 0 || at >= tokens.len() {
        Seq::empty()
    } else if is_split_word(tokens.skip(at)) {
        seq![merged(tokens[at], tokens[at + 2], source)] + consolidated(tokens, source, at + 3)
    } else {
        seq![tokens[at]] + consolidated(tokens, source, at + 1)
    }
}

/// Whether reading from `at` on finds a group that starts at token `i`.
spec fn is_start(tokens: Seq<Token>, at: int, i: int) -> bool
    decreases tokens.len() - at,
{
    if at < 0 || at >= tokens.len() {
        false
    } else if is_split_word(tokens.skip(at)) {
        i == at || is_start(tokens, at + 3, i)
    } else {
        is_start(tokens, at + 1, i)
    }
}

/// Whether one of the first `upto` matches starts at token `i`.
spec fn started(found: Seq<Span>, upto: int, i: int) -> bool
    decreases upto,
{
    if upto <= 0 || upto > found.len() {
        false
    } else {
        found[upto - 1].start == i || started(found, upto - 1, i)
    }
}

/// The pattern matches exactly the groups of word, apostrophe, word.
spec fn finds_split_words(pattern: Pattern) -> bool {
    forall|tokens: Seq<Token>, source: Seq<char>|
        #[trigger] pattern.matches_spec(tokens, source) == (if is_split_word(tokens) {
            Some(3int)
        } else {
            None
        })
}

proof fn lemma_start_bounds(tokens: Seq<Token>, at: int, i: int)
    requires
        is_start(tokens, at, i),
    ensures
        0 <= at <= i,
        i + 3 <= tokens.len(),
        is_split_word(tokens.skip(i)),
    decreases tokens.len() - at,
{
    if is_split_word(tokens.skip(at)) {
        if i != at {
            lemma_start_bounds(tokens, at + 3, i);
        }
    } else {
        lemma_start_bounds(tokens, at + 1, i);
    }
}

proof fn lemma_started_prepend(first: Span, rest: Seq<Span>, upto: int, i: int)
    requires
        0 <= upto <= rest.len(),
    ensures
        started(seq![first] + rest, upto + 1, i) <==> (first.start == i || started(rest, upto, i)),
    decreases upto,
{
    let all = seq![first] + rest;
    if upto > 0 {
        lemma_started_prepend(first, rest, upto - 1, i);
        assert(all[upto] == rest[upto - 1]);
    } else {
        assert(all[0] == first);
        assert(!started(all, 0, i));
    }
}

proof fn lemma_matches_are_starts(
    pattern: Pattern,
    tokens: Seq<Token>,
    source: Seq<char>,
    at: int,
    i: int,
)
    requires
        finds_split_words(pattern),
        0 <= at,
        tokens.len() <= usize::MAX,
    ensures
        ({
            let found = matches_from(pattern, tokens, source, at);
            started(found, found.len() as int, i) <==> is_start(tokens, at, i)
        }),
    decreases tokens.len() - at,
{
    let found = matches_from(pattern, tokens, source, at);
    if at < tokens.len() {
        let here = pattern.matches_spec(tokens.skip(at), source);
        if is_split_word(tokens.skip(at)) {
            assert(here == Some(3int));
            let rest = matches_from(pattern, tokens, source, at + 3);
            let first = Span { start: at as usize, end: (at + 3) as usize };
            assert(found == seq![first] + rest);
            assert(found.len() == rest.len() + 1);
            lemma_started_prepend(first, rest, rest.len() as int, i);
            lemma_matches_are_starts(pattern, tokens, source, at + 3, i);
            assert(first.start == at);
            assert(is_start(tokens, at, i) == (i == at || is_start(tokens, at + 3, i)));
        } else {
            assert(here is None);
            assert(found == matches_from(pattern, tokens, source, at + 1));
            lemma_matches_are_starts(pattern, tokens, source, at + 1, i);
            assert(is_start(tokens, at, i) == is_start(tokens, at + 1, i));
        }
    }
}

proof fn lemma_started_before(found: Seq<Span>, upto: int, i: int, bound: int)
    requires
        started(found, upto, i),
        forall|j: int| 0 <= j < upto ==> (#[trigger] found[j]).start < bound,
    ensures
        i < bound,
    decreases upto,
{
    if found[upto - 1].start != i {
        lemma_started_before(found, upto - 1, i, bound);
    }
}

proof fn lemma_kept_is_consolidated(
    marked: Seq<Token>,
    removed: Set<int>,
    tokens: Seq<Token>,
    source: Seq<char>,
    at: int,
)
    requires
        0 <= at,
        marked.len() == tokens.len(),
        forall|i: int|
            at <= i < tokens.len() ==> #[trigger] marked[i] == (if is_start(tokens, at, i) {
                merged(tokens[i], tokens[i + 2], source)
            } else {
                tokens[i]
            }),
        forall|i: int|
            at <= i < tokens.len() ==> (#[trigger] removed.contains(i) <==> (is_start(
                tokens,
                at,
                i - 1,
            ) || is_start(tokens, at, i - 2))),
    ensures
        kept_from(marked, removed, at) == consolidated(tokens, source, at),
    decreases tokens.len() - at,
{
    if at < tokens.len() {
        if is_start(tokens, at, at - 1) {
            lemma_start_bounds(tokens, at, at - 1);
        }
        if is_start(tokens, at, at - 2) {
            lemma_start_bounds(tokens, at, at - 2);
        }
        assert(!removed.contains(at));
        if is_split_word(tokens.skip(at)) {
            assert(is_start(tokens, at, at));
            assert(tokens.skip(at).len() >= 3);
            assert(removed.contains(at + 1));
            assert(removed.contains(at + 2));
            assert(kept_from(marked, removed, at + 1) == kept_from(marked, removed, at + 2));
            assert(kept_from(marked, removed, at + 2) == kept_from(marked, removed, at + 3));
            assert forall|i: int| at + 3 <= i < tokens.len() implies (#[trigger] removed.contains(
                i,
            ) <==> (is_start(tokens, at + 3, i - 1) || is_start(tokens, at + 3, i - 2))) by {
                assert(removed.contains(i) <==> (is_start(tokens, at, i - 1) || is_start(
                    tokens,
                    at,
                    i - 2,
                )));
            }
            assert forall|i: int| at + 3 <= i < tokens.len() implies #[trigger] marked[i] == (
            if is_start(tokens, at + 3, i) {
                merged(tokens[i], tokens[i + 2], source)
            } else {
                tokens[i]
            }) by {}
            lemma_kept_is_consolidated(marked, removed, tokens, source, at + 3);
        } else {
            if is_start(tokens, at + 1, at) {
                lemma_start_bounds(tokens, at + 1, at);
            }
            assert forall|i: int| at + 1 <= i < tokens.len() implies (#[trigger] removed.contains(
                i,
            ) <==> (is_start(tokens, at + 1, i - 1) || is_start(tokens, at + 1, i - 2))) by {
                assert(removed.contains(i) <==> (is_start(tokens, at, i - 1) || is_start(
                    tokens,
                    at,
                    i - 2,
                )));
            }
            assert forall|i: int| at + 1 <= i < tokens.len() implies #[trigger] marked[i] == (
            if is_start(tokens, at + 1, i) {
                merged(tokens[i], tokens[i + 2], source)
            } else {
                tokens[i]
            }) by {}
            lemma_kept_is_consolidated(marked, removed, tokens, source, at + 1);
        }
    }
}

fn is_suffix_s(token: &Token, source: &[char]) -> (r: bool)
    ensures
        r == is_possessive_suffix(*token, source@),
{
    if token.span.fits_in(source) {
        let text = token.span.get_content(source);
        if text.len() == 1 && text[0] == 's' {
            assert(text@ =~= seq!['s']);
            true
        } else {
            if text.len() == 1 {
                assert(text@[0] != seq!['s'][0]);
            } else {
                assert(text@.len() != seq!['s'].len());
            }
            false
        }
    } else {
        false
    }
}

/// Merges every word, apostrophe, word into one word: the first token
/// of a group takes the span of the whole group and the metadata of a
/// possessive or a contraction, and the other two leave the list.
pub fn consolidate_apostrophes(tokens: &mut Vec<Token>, source: &[char])
    ensures
        final(tokens)@ == consolidated(old(tokens)@, source@, 0),
        tokens_fit(old(tokens)@, source@.len()) && groups_in_order(old(tokens)@) ==> tokens_fit(
            final(tokens)@,
            source@.len(),
        ),
        tokens_ordered(old(tokens)@) ==> tokens_ordered(final(tokens)@),
{
    let count = tokens.len();
    let pattern = Pattern::word_apostrophe_word();
    let found = pattern.find_all_matches(tokens.as_slice(), source);
    let ghost given = tokens@;
    let mut to_remove: Vec<usize> = Vec::new();
    let mut k: usize = 0;
    while k < found.len()
        invariant
            k <= found@.len(),
            finds_split_words(pattern),
            tokens@.len() == given.len() == count,
            forall|j: int|
                0 <= j < found@.len() ==> (#[trigger] found@[j]).start < found@[j].end
                    <= given.len(),
            forall|j: int|
                0 <= j < found@.len() ==> pattern.matches_spec(
                    given.skip((#[trigger] found@[j]).start as int),
                    source@,
                ) == Some(found@[j].end - found@[j].start),
            forall|i: int, j: int|
                0 <= i < j < found@.len() ==> (#[trigger] found@[i]).end <= (
                #[trigger] found@[j]).start,
            forall|i: int|
                0 <= i < given.len() ==> #[trigger] tokens@[i] == (if started(
                    found@,
                    k as int,
                    i,
                ) {
                    merged(given[i], given[i + 2], source@)
                } else {
                    given[i]
                }),
            strictly_increasing(to_remove@),
            forall|a: int|
                0 <= a < to_remove@.len() && k < found@.len() ==> (#[trigger] to_remove@[a])
                    <= found@[k as int].start,
            forall|x: int|
                #[trigger] index_set(to_remove@).contains(x) <==> (started(found@, k as int, x - 1)
                    || started(found@, k as int, x - 2)),
        decreases found@.len() - k,
    {
        let span = found[k];
        let ghost first = span.start as int;
        proof {
            assert(is_split_word(given.skip(first)));
            assert(span.end == span.start + 3);
            assert(given.skip(first)[0] == given[first]);
            assert(given.skip(first)[2] == given[first + 2]);
            assert forall|j: int| 0 <= j < k implies (#[trigger] found@[j]).start < first by {
                assert(found@[j].end <= found@[k as int].start);
            }
            if started(found@, k as int, first) {
                lemma_started_before(found@, k as int, first, first);
            }
            if started(found@, k as int, first + 2) {
                lemma_started_before(found@, k as int, first + 2, first);
            }
        }
        let start_tok = tokens[span.start];
        let end_tok = tokens[span.end - 1];
        let kind = match start_tok.kind {
            TokenKind::Word(metadata) => TokenKind::Word(
                metadata.with_joined_suffix(is_suffix_s(&end_tok, source)),
            ),
            kind => kind,
        };
        let char_span = Span::new(start_tok.span.start, end_tok.span.end);
        tokens.set(span.start, Token { span: char_span, kind });
        let ghost before = to_remove@;
        to_remove.push(span.start + 1);
        to_remove.push(span.end - 1);
        proof {
            assert(to_remove@ =~= before.push((first + 1) as usize).push((first + 2) as usize));
            assert forall|x: int| #[trigger]
                index_set(to_remove@).contains(x) <==> (started(found@, k + 1, x - 1) || started(
                    found@,
                    k + 1,
                    x - 2,
                )) by {
                assert(index_set(before).contains(x) <==> (started(found@, k as int, x - 1)
                    || started(found@, k as int, x - 2)));
                if index_set(to_remove@).contains(x) {
                    let a = choose|a: int| 0 <= a < to_remove@.len() && to_remove@[a] == x;
                    if a < before.len() {
                        assert(before[a] == x);
                        assert(index_set(before).contains(x));
                    }
                }
                if index_set(before).contains(x) {
                    let a = choose|a: int| 0 <= a < before.len() && before[a] == x;
                    assert(to_remove@[a] == x);
                }
                if x == first + 1 {
                    assert(to_remove@[before.len() as int] == x);
                }
                if x == first + 2 {
                    assert(to_remove@[before.len() as int + 1] == x);
                }
            }
            assert forall|a: int| 0 <= a < to_remove@.len() && k + 1 < found@.len() implies (
            #[trigger] to_remove@[a]) <= found@[k + 1].start by {
                assert(found@[k as int].end <= found@[k + 1].start);
            }
        }
        k = k + 1;
    }
    let ghost marked = tokens@;
    let ghost doomed = index_set(to_remove@);
    let distinct = sorted_unique(to_remove);
    proof {
        if tokens_fit(given, source@.len()) && groups_in_order(given) {
            lemma_consolidated_fits(given, source@, source@.len());
        }
        if tokens_ordered(given) {
            lemma_consolidated_in_order(given, source@);
        }
        assert forall|i: int| 0 <= i < given.len() implies #[trigger] marked[i] == (
        if is_start(given, 0, i) {
            merged(given[i], given[i + 2], source@)
        } else {
            given[i]
        }) by {
            lemma_matches_are_starts(pattern, given, source@, 0, i);
        }
        assert forall|i: int| 0 <= i < given.len() implies (#[trigger] doomed.contains(i) <==> (
        is_start(given, 0, i - 1) || is_start(given, 0, i - 2))) by {
            lemma_matches_are_starts(pattern, given, source@, 0, i - 1);
            lemma_matches_are_starts(pattern, given, source@, 0, i - 2);
        }
        lemma_kept_is_consolidated(marked, doomed, given, source@, 0);
    }
    remove_indices(tokens, &distinct);
}

/// The smallest span that holds both spans.
pub open spec fn hull(a: Span, b: Span) -> Span {
    Span {
        start: if a.start <= b.start {
            a.start
        } else {
            b.start
        },
        end: if a.end >= b.end {
            a.end
        } else {
            b.end
        },
    }
}

/// Where a word, an apostrophe and a suffix follow one another in the
/// source, the merged word spans exactly the convex hull of the three.
pub proof fn lemma_merged_span_is_hull(first: Token, middle: Token, last: Token, source: Seq<char>)
    requires
        first.span.well_formed(),
        middle.span.well_formed(),
        last.span.well_formed(),
        first.span.end <= middle.span.start,
        middle.span.end <= last.span.start,
    ensures
        merged(first, last, source).span == hull(hull(first.span, middle.span), last.span),
{
}

/// Whether a token covers the character at index `c`.
pub open spec fn covers(tokens: Seq<Token>, c: int) -> bool {
    exists|i: int|
        0 <= i < tokens.len() && (#[trigger] tokens[i]).span.start <= c < tokens[i].span.end
}

/// In every group of word, apostrophe, word the three tokens lie end to
/// end.
pub open spec fn groups_lie_end_to_end(tokens: Seq<Token>) -> bool {
    forall|at: int|
        0 <= at < tokens.len() && is_split_word(#[trigger] tokens.skip(at)) ==> {
            &&& tokens[at].span.well_formed()
            &&& tokens[at].span.end == tokens[at + 1].span.start
            &&& tokens[at + 1].span.well_formed()
            &&& tokens[at + 1].span.end == tokens[at + 2].span.start
            &&& tokens[at + 2].span.well_formed()
        }
}

proof fn lemma_covers_first(first: Token, rest: Seq<Token>, c: int)
    ensures
        covers(seq![first] + rest, c) <==> (first.span.start <= c < first.span.end || covers(
            rest,
            c,
        )),
{
    let all = seq![first] + rest;
    if covers(all, c) {
        let i = choose|i: int|
            0 <= i < all.len() && (#[trigger] all[i]).span.start <= c < all[i].span.end;
        if i > 0 {
            assert(rest[i - 1] == all[i]);
        }
    }
    if covers(rest, c) {
        let i = choose|i: int|
            0 <= i < rest.len() && (#[trigger] rest[i]).span.start <= c < rest[i].span.end;
        assert(all[i + 1] == rest[i]);
    }
    if first.span.start <= c < first.span.end {
        assert(all[0] == first);
    }
}

proof fn lemma_coverage_from(tokens: Seq<Token>, source: Seq<char>, at: int, c: int)
    requires
        groups_lie_end_to_end(tokens),
        0 <= at <= tokens.len(),
    ensures
        covers(consolidated(tokens, source, at), c) <==> covers(tokens.skip(at), c),
    decreases tokens.len() - at,
{
    if at < tokens.len() {
        let here = tokens.skip(at);
        assert(here =~= seq![tokens[at]] + tokens.skip(at + 1));
        lemma_covers_first(tokens[at], tokens.skip(at + 1), c);
        if is_split_word(here) {
            assert(here.len() >= 3);
            assert(tokens.skip(at + 1) =~= seq![tokens[at + 1]] + tokens.skip(at + 2));
            lemma_covers_first(tokens[at + 1], tokens.skip(at + 2), c);
            assert(tokens.skip(at + 2) =~= seq![tokens[at + 2]] + tokens.skip(at + 3));
            lemma_covers_first(tokens[at + 2], tokens.skip(at + 3), c);
            lemma_covers_first(
                merged(tokens[at], tokens[at + 2], source),
                consolidated(tokens, source, at + 3),
                c,
            );
            lemma_coverage_from(tokens, source, at + 3, c);
        } else {
            lemma_covers_first(tokens[at], consolidated(tokens, source, at + 1), c);
            lemma_coverage_from(tokens, source, at + 1, c);
        }
    } else {
        assert(tokens.skip(at).len() == 0);
    }
}

/// Merging keeps the coverage: where the tokens of every group lie end
/// to end, the merged tokens cover exactly the characters that the
/// tokens covered before.
pub proof fn lemma_consolidation_keeps_coverage(tokens: Seq<Token>, source: Seq<char>, c: int)
    requires
        groups_lie_end_to_end(tokens),
    ensures
        covers(consolidated(tokens, source, 0), c) <==> covers(tokens, c),
{
    lemma_coverage_from(tokens, source, 0, c);
    assert(tokens.skip(0) =~= tokens);
}

/// In every group of word, apostrophe, word the word does not start
/// behind the end of the suffix.
pub open spec fn groups_in_order(tokens: Seq<Token>) -> bool {
    forall|at: int|
        0 <= at < tokens.len() && is_split_word(#[trigger] tokens.skip(at)) ==> tokens[at].span.start
            <= tokens[at + 2].span.end
}

proof fn lemma_consolidated_fits_from(tokens: Seq<Token>, source: Seq<char>, len: nat, at: int)
    requires
        tokens_fit(tokens, len),
        groups_in_order(tokens),
        0 <= at <= tokens.len(),
    ensures
        tokens_fit(consolidated(tokens, source, at), len),
    decreases tokens.len() - at,
{
    let result = consolidated(tokens, source, at);
    if at < tokens.len() {
        let split = is_split_word(tokens.skip(at));
        let next = if split {
            at + 3
        } else {
            at + 1
        };
        let rest = consolidated(tokens, source, next);
        if split {
            assert(tokens.skip(at).len() >= 3);
            assert(tokens[at + 2].span.fits(len));
        }
        lemma_consolidated_fits_from(tokens, source, len, next);
        assert(tokens[at].span.fits(len));
        assert forall|i: int| 0 <= i < result.len() implies (#[trigger] result[i]).span.fits(
            len,
        ) by {
            if i > 0 {
                assert(result[i] == rest[i - 1]);
            }
        }
    }
}

proof fn lemma_consolidated_ordered_from(tokens: Seq<Token>, source: Seq<char>, at: int)
    requires
        tokens_ordered(tokens),
        0 <= at <= tokens.len(),
    ensures
        tokens_ordered(consolidated(tokens, source, at)),
        forall|i: int|
            0 <= i < consolidated(tokens, source, at).len() ==> tokens[at].span.start <= (
            #[trigger] consolidated(tokens, source, at)[i]).span.start,
    decreases tokens.len() - at,
{
    let result = consolidated(tokens, source, at);
    if at < tokens.len() {
        let split = is_split_word(tokens.skip(at));
        let next = if split {
            at + 3
        } else {
            at + 1
        };
        let rest = consolidated(tokens, source, next);
        if split {
            assert(tokens.skip(at).len() >= 3);
        }
        lemma_consolidated_ordered_from(tokens, source, next);
        assert(result[0].span.start == tokens[at].span.start);
        assert forall|i: int| 0 <= i < result.len() implies tokens[at].span.start <= (
        #[trigger] result[i]).span.start by {
            if i > 0 {
                assert(result[i] == rest[i - 1]);
                assert(tokens[at].span.start <= tokens[next].span.start);
            }
        }
        assert forall|i: int, j: int| 0 <= i <= j < result.len() implies (
        #[trigger] result[i]).span.start <= (#[trigger] result[j]).span.start by {
            if i > 0 {
                assert(result[i] == rest[i - 1]);
                assert(result[j] == rest[j - 1]);
            }
        }
    }
}

/// Merging keeps the tokens inside the source: where the tokens fit a
/// source and no group starts behind its own end, the merged tokens fit
/// the source too.
pub proof fn lemma_consolidated_fits(tokens: Seq<Token>, source: Seq<char>, len: nat)
    requires
        tokens_fit(tokens, len),
        groups_in_order(tokens),
    ensures
        tokens_fit(consolidated(tokens, source, 0), len),
{
    lemma_consolidated_fits_from(tokens, source, len, 0);
}

/// Merging keeps the source order: where no token starts before the one
/// in front of it, the same holds of the merged tokens.
pub proof fn lemma_consolidated_in_order(tokens: Seq<Token>, source: Seq<char>)
    requires
        tokens_ordered(tokens),
    ensures
        tokens_ordered(consolidated(tokens, source, 0)),
{
    lemma_consolidated_ordered_from(tokens, source, 0);
}

/// Tokens in source order that fit a source have their groups in order.
pub proof fn lemma_ordered_groups(tokens: Seq<Token>, len: nat)
    requires
        tokens_fit(tokens, len),
        tokens_ordered(tokens),
    ensures
        groups_in_order(tokens),
{
    assert forall|at: int| 0 <= at < tokens.len() && is_split_word(
        #[trigger] tokens.skip(at),
    ) implies tokens[at].span.start <= tokens[at + 2].span.end by {
        assert(tokens.skip(at).len() >= 3);
        assert(tokens[at].span.start <= tokens[at + 2].span.start);
        assert(tokens[at + 2].span.fits(len));
    }
}

} // verus!
