use harper_core::chars::{char_utf8_width, chars_of, to_lower, to_upper};
use harper_core::parsers::placement::{constant_token, parse_english, place_english, resolve};
use harper_core::parsers::{Offset, PlainEnglish};
use harper_core::token::TokenKind;

#[test]
fn width_is_the_length_in_utf8() {
    for c in ['a', '\u{7f}', '\u{80}', 'é', '\u{7ff}', '\u{800}', '日', '\u{ffff}', '\u{10000}', '🗺'] {
        assert_eq!(char_utf8_width(c), c.len_utf8());
    }
}

#[test]
fn case_is_the_case_of_ascii() {
    assert_eq!(to_lower('A'), 'a');
    assert_eq!(to_lower('Z'), 'z');
    assert_eq!(to_lower('a'), 'a');
    assert_eq!(to_lower('['), '[');
    assert_eq!(to_lower('É'), 'É');
    assert_eq!(to_upper('a'), 'A');
    assert_eq!(to_upper('z'), 'Z');
    assert_eq!(to_upper('{'), '{');
    assert_eq!(to_upper('é'), 'é');
    assert_eq!(chars_of("aé日"), vec!['a', 'é', '日']);
}

#[test]
fn push_to_translates_bytes_into_characters() {
    let source: Vec<char> = "aé日🗺b".chars().collect();
    let start = Offset::new(&source);
    assert_eq!((start.char, start.byte), (0, 0));
    let expected = [(0, 0), (1, 1), (3, 2), (6, 3), (10, 4), (11, 5)];
    for (byte, char) in expected {
        let moved = start.push_to(byte);
        assert_eq!((moved.byte, moved.char), (byte, char));
    }
    let middle = start.push_to(3);
    let moved = middle.push_by(7);
    assert_eq!((moved.byte, moved.char), (10, 4));
    assert_eq!(middle.push_by(0).char, 2);
}

#[test]
fn try_push_to_refuses_what_is_no_start_of_a_character() {
    let source: Vec<char> = "aé日".chars().collect();
    let start = Offset::new(&source);
    assert!(start.try_push_to(2).is_none());
    assert!(start.try_push_to(4).is_none());
    assert!(start.try_push_to(5).is_none());
    assert!(start.try_push_to(7).is_none());
    assert_eq!(start.try_push_to(6).map(|o| o.char), Some(3));
}

#[test]
fn the_cursor_never_goes_back() {
    let source: Vec<char> = "abc".chars().collect();
    let later = Offset::new(&source).push_to(2);
    assert!(later.try_push_to(1).is_none());
    assert_eq!(later.try_push_to(2).map(|o| o.char), Some(2));
}

#[test]
fn resolve_gives_both_ends_in_characters() {
    let source: Vec<char> = "é日x".chars().collect();
    let start = Offset::new(&source);
    assert_eq!(resolve(start, Some((2, 5))), Some((1, 2)));
    assert_eq!(resolve(start, Some((0, 6))), Some((0, 3)));
    assert_eq!(resolve(start, Some((5, 2))), None);
    assert_eq!(resolve(start, Some((1, 5))), None);
    assert_eq!(resolve(start, Some((2, 9))), None);
    assert_eq!(resolve(start, None), None);
}

#[test]
fn constant_token_covers_the_range() {
    let source: Vec<char> = "é日x".chars().collect();
    let start = Offset::new(&source);
    let tokens = constant_token(Some((2, 5)), TokenKind::Url, start).unwrap();
    assert_eq!(tokens.len(), 1);
    assert_eq!((tokens[0].kind, tokens[0].span.start, tokens[0].span.end), (TokenKind::Url, 1, 2));
    assert!(constant_token(Some((3, 5)), TokenKind::Url, start).is_none());
    assert!(constant_token(None, TokenKind::Url, start).is_none());
}

#[test]
fn english_is_placed_at_the_cursor() {
    let source: Vec<char> = "xx a b".chars().collect();
    let cursor = Offset::new(&source).push_to(3);
    let tokens = parse_english("a b", &mut PlainEnglish, cursor, 6).unwrap();
    let spans: Vec<(usize, usize)> = tokens.iter().map(|t| (t.span.start, t.span.end)).collect();
    assert_eq!(spans, vec![(3, 4), (4, 5), (5, 6)]);
    assert!(parse_english("a b", &mut PlainEnglish, cursor, 5).is_none());
    assert!(place_english(&['a'], &mut PlainEnglish, 4, 3).is_none());
    assert_eq!(place_english(&[], &mut PlainEnglish, 4, 4), Some(vec![]));
}
