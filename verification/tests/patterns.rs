use harper_core::parsers::{Parser, PlainEnglish};
use harper_core::patterns::{Pattern, SequencePattern, TokenTest};
use harper_core::token::{Token, TokenKind};
use harper_core::word_metadata::{AdjectiveData, NounData, WordMetadata};
use harper_core::Span;

fn tokens_of(text: &str) -> (Vec<char>, Vec<Token>) {
    let source: Vec<char> = text.chars().collect();
    let tokens = PlainEnglish.parse(&source);
    (source, tokens)
}

#[test]
fn word_set_matches_one_word_in_any_case() {
    let pattern = Pattern::word_set(&["better", "other"]);
    let (source, tokens) = tokens_of("Better late");
    assert_eq!(pattern.matches(&tokens, &source), Some(1));
    assert_eq!(pattern.matches(&tokens[2..], &source), None);
    assert_eq!(pattern.matches(&tokens[1..], &source), None);
    assert_eq!(pattern.matches(&[], &source), None);
}

#[test]
fn word_set_asks_for_lower_case_entries() {
    let pattern = Pattern::word_set(&["Better"]);
    let (source, tokens) = tokens_of("Better better");
    assert_eq!(pattern.matches(&tokens, &source), None);
    assert_eq!(pattern.matches(&tokens[2..], &source), None);
}

#[test]
fn any_capitalization_ignores_case_on_both_sides() {
    let pattern = Pattern::any_capitalization("Then");
    let (source, tokens) = tokens_of("tHEN thin the");
    assert_eq!(pattern.matches(&tokens, &source), Some(1));
    assert_eq!(pattern.matches(&tokens[2..], &source), None);
    assert_eq!(pattern.matches(&tokens[4..], &source), None);
}

#[test]
fn primitives_match_one_token() {
    let (source, tokens) = tokens_of("it's 5");
    assert_eq!(Pattern::AnyWord.matches(&tokens, &source), Some(1));
    assert_eq!(Pattern::AnyWord.matches(&tokens[1..], &source), None);
    assert_eq!(Pattern::Apostrophe.matches(&tokens[1..], &source), Some(1));
    assert_eq!(Pattern::Apostrophe.matches(&tokens, &source), None);
    assert_eq!(Pattern::Whitespace.matches(&tokens[3..], &source), Some(1));
    assert_eq!(Pattern::Whitespace.matches(&tokens[4..], &source), None);
    assert_eq!(Pattern::AnyWord.matches(&tokens[4..], &source), None);
}

#[test]
fn a_word_whose_span_leaves_the_source_has_no_content() {
    let source: Vec<char> = "ab".chars().collect();
    let stray = [Token::new(Span::new(0, 5), TokenKind::Word(WordMetadata::default()))];
    assert_eq!(Pattern::word_set(&["ab"]).matches(&stray, &source), None);
    assert_eq!(Pattern::any_capitalization("ab").matches(&stray, &source), None);
    assert_eq!(Pattern::AnyWord.matches(&stray, &source), Some(1));
}

#[test]
fn predicate_reads_the_metadata() {
    let source: Vec<char> = "red car".chars().collect();
    let adjective = WordMetadata {
        adjective: Some(AdjectiveData {}),
        ..WordMetadata::default()
    };
    let noun = WordMetadata {
        noun: Some(NounData::default()),
        ..WordMetadata::default()
    };
    let tokens = [
        Token::new(Span::new(0, 3), TokenKind::Word(adjective)),
        Token::new(Span::new(3, 4), TokenKind::Space(1)),
        Token::new(Span::new(4, 7), TokenKind::Word(noun)),
    ];
    let is_adjective = Pattern::Predicate(TokenTest::IsAdjective);
    let is_noun = Pattern::Predicate(TokenTest::IsNoun);
    assert_eq!(is_adjective.matches(&tokens, &source), Some(1));
    assert_eq!(is_noun.matches(&tokens, &source), None);
    assert_eq!(is_noun.matches(&tokens[2..], &source), Some(1));
    assert_eq!(is_adjective.matches(&tokens[1..], &source), None);
    assert_eq!(Pattern::Predicate(TokenTest::IsVerb).matches(&tokens, &source), None);
    assert_eq!(Pattern::Predicate(TokenTest::IsConjunction).matches(&tokens, &source), None);
}

#[test]
fn sequence_adds_the_lengths_and_fails_on_the_first_failure() {
    let pattern = SequencePattern::default()
        .then_any_word()
        .then_whitespace()
        .then_any_capitalization_of("b")
        .into_pattern();
    let (source, tokens) = tokens_of("a b c");
    assert_eq!(pattern.matches(&tokens, &source), Some(3));
    assert_eq!(pattern.matches(&tokens[2..], &source), None);
    assert_eq!(pattern.matches(&tokens[..2], &source), None);
    let empty = SequencePattern::default().into_pattern();
    assert_eq!(empty.matches(&tokens, &source), Some(0));
}

#[test]
fn or_prefers_the_first_pattern() {
    let long = SequencePattern::default()
        .then_any_word()
        .then_whitespace()
        .into_pattern();
    let (source, tokens) = tokens_of("a b");
    assert_eq!(long.or(Pattern::AnyWord).matches(&tokens, &source), Some(2));
    let long = SequencePattern::default()
        .then_any_word()
        .then_whitespace()
        .into_pattern();
    assert_eq!(Pattern::AnyWord.or(long).matches(&tokens, &source), Some(1));
    assert_eq!(
        Pattern::Whitespace.or(Pattern::AnyWord).matches(&tokens, &source),
        Some(1)
    );
    assert_eq!(
        Pattern::Whitespace.or(Pattern::Apostrophe).matches(&tokens, &source),
        None
    );
}

#[test]
fn all_reports_the_length_of_its_first_pattern() {
    let two = SequencePattern::default()
        .then_any_word()
        .then_whitespace()
        .into_pattern();
    let (source, tokens) = tokens_of("a b");
    assert_eq!(
        Pattern::all(vec![Pattern::AnyWord, two]).matches(&tokens, &source),
        Some(1)
    );
    let two = SequencePattern::default()
        .then_any_word()
        .then_whitespace()
        .into_pattern();
    assert_eq!(
        Pattern::all(vec![two, Pattern::AnyWord]).matches(&tokens, &source),
        Some(2)
    );
    assert_eq!(
        Pattern::all(vec![Pattern::AnyWord, Pattern::Whitespace]).matches(&tokens, &source),
        None
    );
    assert_eq!(Pattern::all(vec![]).matches(&tokens, &source), None);
}

#[test]
fn invert_takes_one_token_where_the_pattern_fails() {
    let (source, tokens) = tokens_of("a b");
    let not_space = Pattern::invert(Pattern::Whitespace);
    assert_eq!(not_space.matches(&tokens, &source), Some(1));
    assert_eq!(not_space.matches(&tokens[1..], &source), None);
    assert_eq!(not_space.matches(&[], &source), None);
}

#[test]
fn search_finds_matches_left_to_right_without_overlap() {
    let pair = SequencePattern::default()
        .then_any_word()
        .then_whitespace()
        .then_any_word()
        .into_pattern();
    let (source, tokens) = tokens_of("a b c d e");
    let found = pair.find_all_matches(&tokens, &source);
    assert_eq!(found, vec![Span::new(0, 3), Span::new(4, 7)]);
    for window in found.windows(2) {
        assert!(window[0].end <= window[1].start);
    }
}

#[test]
fn search_skips_matches_of_no_tokens() {
    let empty = SequencePattern::default().into_pattern();
    let (source, tokens) = tokens_of("a b");
    assert_eq!(empty.find_all_matches(&tokens, &source), vec![]);
    assert_eq!(Pattern::AnyWord.find_all_matches(&[], &source), vec![]);
    assert_eq!(
        Pattern::AnyWord.find_all_matches(&tokens, &source),
        vec![Span::new(0, 1), Span::new(2, 3)]
    );
}

#[test]
fn word_apostrophe_word_is_three_tokens() {
    let pattern = Pattern::word_apostrophe_word();
    let (source, tokens) = tokens_of("it's o'clock' x");
    assert_eq!(pattern.matches(&tokens, &source), Some(3));
    assert_eq!(
        pattern.find_all_matches(&tokens, &source),
        vec![Span::new(0, 3), Span::new(4, 7)]
    );
}

#[test]
fn matches_at_is_anchored_at_the_index() {
    let (source, tokens) = tokens_of("a b");
    assert_eq!(Pattern::Whitespace.matches_at(&tokens, 1, &source), Some(1));
    assert_eq!(Pattern::Whitespace.matches_at(&tokens, 0, &source), None);
    assert_eq!(Pattern::Whitespace.matches_at(&tokens, 3, &source), None);
}
