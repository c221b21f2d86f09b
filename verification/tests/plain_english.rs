use harper_core::parsers::plain_english::{classify, CharClass};
use harper_core::parsers::{Parser, PlainEnglish};
use harper_core::token::{Punctuation, Quote, Real, TokenKind};
use harper_core::word_metadata::WordMetadata;

const WORD: TokenKind = TokenKind::Word(WordMetadata {
    noun: None,
    verb: None,
    adjective: None,
    conjunction: None,
});

fn lexed(source: &str) -> Vec<(TokenKind, usize, usize)> {
    PlainEnglish
        .parse_str(source)
        .iter()
        .map(|t| (t.kind, t.span.start, t.span.end))
        .collect()
}

#[test]
fn words_spaces_and_marks() {
    assert_eq!(
        lexed("Hi,  you!"),
        vec![
            (WORD, 0, 2),
            (TokenKind::Punctuation(Punctuation::Comma), 2, 3),
            (TokenKind::Space(2), 3, 5),
            (WORD, 5, 8),
            (TokenKind::Punctuation(Punctuation::Bang), 8, 9),
        ]
    );
}

#[test]
fn tokens_cover_the_text_end_to_end() {
    let source = "It's 12:30 — née “x”\n\n\tok… €";
    let tokens = PlainEnglish.parse_str(source);
    let count = source.chars().count();
    assert_eq!(tokens.first().unwrap().span.start, 0);
    assert_eq!(tokens.last().unwrap().span.end, count);
    for pair in tokens.windows(2) {
        assert_eq!(pair[0].span.end, pair[1].span.start);
    }
    for token in &tokens {
        assert!(token.span.start < token.span.end);
    }
}

#[test]
fn numbers_hold_their_value() {
    assert_eq!(lexed("2019"), vec![(TokenKind::Number(Real::Integer(2019), None), 0, 4)]);
    assert_eq!(lexed("007"), vec![(TokenKind::Number(Real::Integer(7), None), 0, 3)]);
    assert_eq!(
        lexed("3.5"),
        vec![
            (TokenKind::Number(Real::Integer(3), None), 0, 1),
            (TokenKind::Punctuation(Punctuation::Period), 1, 2),
            (TokenKind::Number(Real::Integer(5), None), 2, 3),
        ]
    );
}

#[test]
fn a_number_too_large_is_clipped() {
    assert_eq!(
        lexed("9223372036854775807"),
        vec![(TokenKind::Number(Real::Integer(i64::MAX), None), 0, 19)]
    );
    assert_eq!(
        lexed("9223372036854775808"),
        vec![(TokenKind::Number(Real::Integer(i64::MAX), None), 0, 19)]
    );
    assert_eq!(
        lexed("99999999999999999999999"),
        vec![(TokenKind::Number(Real::Integer(i64::MAX), None), 0, 23)]
    );
}

#[test]
fn line_ends_and_blanks_run_together() {
    assert_eq!(
        lexed("a \t b\n\nc"),
        vec![
            (WORD, 0, 1),
            (TokenKind::Space(3), 1, 4),
            (WORD, 4, 5),
            (TokenKind::Newline(2), 5, 7),
            (WORD, 7, 8),
        ]
    );
}

#[test]
fn both_apostrophes_and_all_quotes() {
    let apostrophe = TokenKind::Punctuation(Punctuation::Apostrophe);
    let quote = TokenKind::Punctuation(Punctuation::Quote(Quote { twin_loc: None }));
    assert_eq!(
        lexed("'’\"“”"),
        vec![
            (apostrophe, 0, 1),
            (apostrophe, 1, 2),
            (quote, 2, 3),
            (quote, 3, 4),
            (quote, 4, 5)
        ]
    );
}

#[test]
fn each_mark_is_its_own_token() {
    let marks = ".!?:;,-()[]{}#%&/*$@=+<>_…–—";
    let expected = [
        Punctuation::Period,
        Punctuation::Bang,
        Punctuation::Question,
        Punctuation::Colon,
        Punctuation::Semicolon,
        Punctuation::Comma,
        Punctuation::Hyphen,
        Punctuation::OpenRound,
        Punctuation::CloseRound,
        Punctuation::OpenSquare,
        Punctuation::CloseSquare,
        Punctuation::OpenCurly,
        Punctuation::CloseCurly,
        Punctuation::Hash,
        Punctuation::Percent,
        Punctuation::Ampersand,
        Punctuation::Slash,
        Punctuation::Star,
        Punctuation::Dollar,
        Punctuation::At,
        Punctuation::Equal,
        Punctuation::Plus,
        Punctuation::LessThan,
        Punctuation::GreaterThan,
        Punctuation::Underscore,
        Punctuation::Ellipsis,
        Punctuation::Dash,
        Punctuation::Dash,
    ];
    let tokens = lexed(marks);
    assert_eq!(tokens.len(), expected.len());
    for (i, (token, mark)) in tokens.iter().zip(expected).enumerate() {
        assert_eq!(*token, (TokenKind::Punctuation(mark), i, i + 1));
    }
}

#[test]
fn letters_beyond_ascii_are_letters() {
    assert_eq!(lexed("née"), vec![(WORD, 0, 3)]);
    assert_eq!(lexed("日本語"), vec![(WORD, 0, 3)]);
    assert_eq!(classify('é'), CharClass::Letter);
    assert_eq!(classify('€'), CharClass::Other);
}

#[test]
fn anything_else_is_opaque_one_character_at_a_time() {
    assert_eq!(
        lexed("€€\r"),
        vec![
            (TokenKind::Unlintable, 0, 1),
            (TokenKind::Unlintable, 1, 2),
            (TokenKind::Unlintable, 2, 3)
        ]
    );
}

#[test]
fn parse_and_parse_str_give_the_same() {
    let text = "One, two.";
    let chars: Vec<char> = text.chars().collect();
    assert_eq!(PlainEnglish.parse(&chars), PlainEnglish.parse_str(text));
    assert_eq!(PlainEnglish.parse(&[]), vec![]);
}
