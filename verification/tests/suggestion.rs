use harper_core::linting::Suggestion;
use harper_core::Span;

fn chars(text: &str) -> Vec<char> {
    text.chars().collect()
}

fn match_case(replacement: &str, original: &str) -> String {
    match Suggestion::replace_with_match_case(chars(replacement), &chars(original)) {
        Suggestion::ReplaceWith(replacement) => replacement.into_iter().collect(),
    }
}

#[test]
fn an_empty_original_leaves_the_replacement_alone() {
    assert_eq!(match_case("ThAn", ""), "ThAn");
}

#[test]
fn an_upper_case_original_gives_upper_case() {
    assert_eq!(match_case("than", "THEN"), "THAN");
    assert_eq!(match_case("than", "T"), "THAN");
    assert_eq!(match_case("it's", "DON'T"), "IT'S");
}

#[test]
fn a_capitalized_original_gives_a_capital_and_lower_case() {
    assert_eq!(match_case("than", "Then"), "Than");
    assert_eq!(match_case("THAN", "Then"), "Than");
    assert_eq!(match_case("than", "Don't"), "Than");
}

#[test]
fn any_other_original_gives_lower_case() {
    assert_eq!(match_case("Than", "then"), "than");
    assert_eq!(match_case("THAN", "tHEN"), "than");
    assert_eq!(match_case("THAN", "ThEn"), "than");
}

#[test]
fn an_original_without_letters_counts_as_upper_case() {
    assert_eq!(match_case("than", "123"), "THAN");
}

#[test]
fn lengths_may_differ() {
    assert_eq!(match_case("a", "LONGER"), "A");
    assert_eq!(match_case("much longer", "Ab"), "Much longer");
}

#[test]
fn characters_beyond_ascii_keep_their_case() {
    assert_eq!(match_case("était", "THEN"), "éTAIT");
    assert_eq!(match_case("État", "then"), "État");
}

#[test]
fn matching_a_text_to_itself() {
    for text in ["", "then", "THEN", "Then", "T", "don't", "42"] {
        assert_eq!(match_case(text, text), text);
    }
    assert_eq!(match_case("tHe", "tHe"), "the");
    assert_eq!(match_case("McDonald", "McDonald"), "mcdonald");
}

#[test]
fn apply_replaces_the_span() {
    let mut source = chars("better then that");
    Suggestion::ReplaceWith(chars("than")).apply(Span::new(7, 11), &mut source);
    assert_eq!(source.iter().collect::<String>(), "better than that");
    Suggestion::ReplaceWith(chars("much ")).apply(Span::new(0, 0), &mut source);
    assert_eq!(source.iter().collect::<String>(), "much better than that");
    Suggestion::ReplaceWith(chars("")).apply(Span::new(11, 21), &mut source);
    assert_eq!(source.iter().collect::<String>(), "much better");
}
