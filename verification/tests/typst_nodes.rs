use harper_core::parsers::{Parser, Typst};
use harper_core::token::{Punctuation, Quote, Real, Token, TokenKind};
use harper_core::word_metadata::WordMetadata;

const WORD: TokenKind = TokenKind::Word(WordMetadata {
    noun: None,
    verb: None,
    adjective: None,
    conjunction: None,
});

/// The tokens of a document as kind, start and end.
fn parsed(source: &str) -> Vec<(TokenKind, usize, usize)> {
    Typst
        .parse_str(source)
        .iter()
        .map(|t: &Token| (t.kind, t.span.start, t.span.end))
        .collect()
}

#[test]
fn strong_and_emphasis_are_walked() {
    assert_eq!(
        parsed("*bold* _it_"),
        vec![(WORD, 1, 5), (TokenKind::Space(1), 6, 7), (WORD, 8, 10)]
    );
}

#[test]
fn heading_body_is_walked() {
    assert_eq!(
        parsed("= Title here"),
        vec![(WORD, 2, 7), (TokenKind::Space(1), 7, 8), (WORD, 8, 12)]
    );
}

#[test]
fn list_items_are_walked() {
    assert_eq!(parsed("- item"), vec![(WORD, 2, 6)]);
    assert_eq!(parsed("+ item"), vec![(WORD, 2, 6)]);
}

#[test]
fn term_item_gives_term_then_description() {
    assert_eq!(parsed("/ Term: details"), vec![(WORD, 2, 6), (WORD, 8, 15)]);
}

#[test]
fn content_block_is_walked() {
    assert_eq!(
        parsed("#[hi there]"),
        vec![(WORD, 2, 4), (TokenKind::Space(1), 4, 5), (WORD, 5, 10)]
    );
}

#[test]
fn label_text_is_placed_at_the_start_of_the_label() {
    assert_eq!(
        parsed("text <intro>"),
        vec![(WORD, 0, 4), (TokenKind::Space(1), 4, 5), (WORD, 5, 10)]
    );
}

#[test]
fn link_is_a_url() {
    assert_eq!(parsed("https://typst.org"), vec![(TokenKind::Url, 0, 17)]);
}

#[test]
fn reference_is_a_word() {
    assert_eq!(parsed("@target"), vec![(WORD, 0, 7)]);
}

#[test]
fn escapes_raw_text_and_shorthands_are_opaque() {
    assert_eq!(
        parsed("a\\#b"),
        vec![(WORD, 0, 1), (TokenKind::Unlintable, 1, 3), (WORD, 3, 4)]
    );
    assert_eq!(parsed("`code`"), vec![(TokenKind::Unlintable, 0, 6)]);
    assert_eq!(
        parsed("a~b"),
        vec![(WORD, 0, 1), (TokenKind::Unlintable, 1, 2), (WORD, 2, 3)]
    );
}

#[test]
fn breaks_between_lines_and_paragraphs() {
    assert_eq!(
        parsed("a\n\nb"),
        vec![(WORD, 0, 1), (TokenKind::ParagraphBreak, 1, 3), (WORD, 3, 4)]
    );
    assert_eq!(
        parsed("a \\\nb"),
        vec![
            (WORD, 0, 1),
            (TokenKind::Space(1), 1, 2),
            (TokenKind::Newline(1), 2, 3),
            (TokenKind::Space(1), 3, 4),
            (WORD, 4, 5)
        ]
    );
}

#[test]
fn double_smart_quotes_are_quotes() {
    let quote = TokenKind::Punctuation(Punctuation::Quote(Quote { twin_loc: None }));
    assert_eq!(parsed("\"hi\""), vec![(quote, 0, 1), (WORD, 1, 3), (quote, 3, 4)]);
}

#[test]
fn a_lone_single_quote_is_an_apostrophe() {
    assert_eq!(
        parsed("' a"),
        vec![
            (TokenKind::Punctuation(Punctuation::Apostrophe), 0, 1),
            (TokenKind::Space(1), 1, 2),
            (WORD, 2, 3)
        ]
    );
}

#[test]
fn numeric_literals() {
    assert_eq!(parsed("#12"), vec![(TokenKind::Number(Real::Integer(12), None), 1, 3)]);
    assert_eq!(parsed("#0x1f"), vec![(TokenKind::Number(Real::Integer(31), None), 1, 5)]);
    assert_eq!(
        parsed("#1.5"),
        vec![(TokenKind::Number(Real::Binary64(1.5f64.to_bits()), None), 1, 4)]
    );
    assert_eq!(parsed("#12pt"), vec![(TokenKind::Unlintable, 1, 5)]);
}

#[test]
fn keyword_literals_and_identifiers_are_words() {
    assert_eq!(parsed("#none"), vec![(WORD, 1, 5)]);
    assert_eq!(parsed("#auto"), vec![(WORD, 1, 5)]);
    assert_eq!(parsed("#true"), vec![(WORD, 1, 5)]);
    assert_eq!(parsed("#name"), vec![(WORD, 1, 5)]);
}

#[test]
fn code_is_opaque() {
    assert_eq!(parsed("#{ let x = 1 }"), vec![(TokenKind::Unlintable, 1, 14)]);
    assert_eq!(parsed("#f(x)"), vec![(TokenKind::Unlintable, 1, 5)]);
    assert_eq!(parsed("#(-x)"), vec![(TokenKind::Unlintable, 2, 4)]);
    assert_eq!(parsed("#(a + b)"), vec![(TokenKind::Unlintable, 2, 7)]);
    assert_eq!(parsed("#(x => x)"), vec![(TokenKind::Unlintable, 2, 8)]);
    assert_eq!(parsed("#include \"x.typ\""), vec![(TokenKind::Unlintable, 1, 16)]);
}

#[test]
fn parenthesized_expression_is_walked() {
    assert_eq!(parsed("#(x)"), vec![(WORD, 2, 3)]);
}

#[test]
fn array_gives_its_positional_items() {
    assert_eq!(parsed("#(a, b, ..c)"), vec![(WORD, 2, 3), (WORD, 5, 6)]);
}

#[test]
fn dictionary_items() {
    assert_eq!(
        parsed("#(\"k\": v, ..rest)"),
        vec![(WORD, 3, 4), (WORD, 7, 8), (WORD, 12, 16)]
    );
    assert_eq!(
        parsed("#(a: b, ..f(x))"),
        vec![(WORD, 2, 3), (WORD, 5, 6), (TokenKind::Unlintable, 10, 14)]
    );
}

#[test]
fn field_access_gives_target_then_field() {
    assert_eq!(parsed("#a.b"), vec![(WORD, 1, 2), (WORD, 3, 4)]);
}

#[test]
fn let_binding_of_a_function() {
    assert_eq!(
        parsed("#let f(x) = x"),
        vec![(WORD, 5, 6), (TokenKind::Unlintable, 5, 13)]
    );
}

#[test]
fn let_binding_of_a_destructuring() {
    assert_eq!(
        parsed("#let (a, _, b: c, ..d) = x"),
        vec![
            (WORD, 6, 7),
            (TokenKind::Unlintable, 9, 10),
            (WORD, 12, 13),
            (WORD, 15, 16),
            (WORD, 20, 21),
            (WORD, 25, 26)
        ]
    );
}

#[test]
fn let_binding_of_a_parenthesized_pattern() {
    assert_eq!(
        parsed("#let (a) = b"),
        vec![(WORD, 6, 7), (WORD, 6, 7), (WORD, 11, 12)]
    );
}

#[test]
fn let_binding_without_a_value() {
    assert_eq!(parsed("#let x"), vec![(WORD, 5, 6)]);
}

#[test]
fn set_rule_with_and_without_condition() {
    assert_eq!(parsed("#set text(red) if x"), vec![(WORD, 5, 9), (WORD, 18, 19)]);
    assert_eq!(parsed("#set text(red)"), vec![(WORD, 5, 9)]);
}

#[test]
fn show_rule_gives_recipe_then_selector() {
    assert_eq!(parsed("#show heading: it"), vec![(WORD, 15, 17), (WORD, 6, 13)]);
    assert_eq!(parsed("#show: it"), vec![(WORD, 7, 9)]);
}

#[test]
fn contextual_body_is_walked() {
    assert_eq!(parsed("#context x"), vec![(WORD, 9, 10)]);
}

#[test]
fn conditional_with_and_without_else() {
    assert_eq!(
        parsed("#if a [b] else [c]"),
        vec![(WORD, 4, 5), (WORD, 7, 8), (WORD, 16, 17)]
    );
    assert_eq!(parsed("#if a [b]"), vec![(WORD, 4, 5), (WORD, 7, 8)]);
}

#[test]
fn loops() {
    assert_eq!(parsed("#while a [b]"), vec![(WORD, 7, 8), (WORD, 10, 11)]);
    assert_eq!(parsed("#for x in y [z]"), vec![(WORD, 10, 11), (WORD, 13, 14)]);
}

#[test]
fn import_gives_source_then_new_name() {
    assert_eq!(
        parsed("#import \"mod.typ\" as m"),
        vec![
            (WORD, 9, 12),
            (TokenKind::Punctuation(Punctuation::Period), 12, 13),
            (WORD, 13, 16),
            (WORD, 21, 22)
        ]
    );
    assert_eq!(
        parsed("#import \"mod\""),
        vec![(WORD, 9, 12)]
    );
}

#[test]
fn destructuring_assignment_gives_its_value() {
    assert_eq!(parsed("#context ((a, b) = c)"), vec![(WORD, 19, 20)]);
}

#[test]
fn spans_count_characters_not_bytes() {
    // Each of the first two characters takes three bytes.
    let source = "日本 *強い text* é";
    let tokens = Typst.parse_str(source);
    let chars: Vec<char> = source.chars().collect();
    let texts: Vec<String> = tokens
        .iter()
        .map(|t| t.span.get_content_string(&chars))
        .collect();
    assert_eq!(texts, vec!["日本", " ", "強い", " ", "text", " ", "é"]);
    for token in &tokens {
        assert!(token.span.start <= token.span.end && token.span.end <= chars.len());
    }
}

#[test]
fn string_interior_is_placed_by_characters() {
    let source = "é #let s = \"né so\"";
    let tokens = Typst.parse_str(source);
    let chars: Vec<char> = source.chars().collect();
    let texts: Vec<String> = tokens
        .iter()
        .map(|t| t.span.get_content_string(&chars))
        .collect();
    assert_eq!(texts, vec!["é", " ", "s", "né", " ", "so"]);
}

#[test]
fn parse_and_parse_str_agree() {
    let source = "Don't *stop* me.";
    let chars: Vec<char> = source.chars().collect();
    assert_eq!(Typst.parse(&chars), Typst.parse_str(source));
    assert_eq!(Typst::parse_document(&chars).len(), 8);
    assert_eq!(Typst.parse(&chars).len(), 6);
}

#[test]
fn empty_document_has_no_tokens() {
    assert_eq!(parsed(""), vec![]);
}

#[test]
fn merged_word_spans_the_whole_group() {
    let tokens = parsed("the dog's bone");
    assert_eq!(tokens.len(), 5);
    assert_eq!((tokens[2].1, tokens[2].2), (4, 9));
    assert!(matches!(tokens[2].0, TokenKind::Word(m) if m.is_possessive_noun() && !m.is_conjunction()));
    let tokens = parsed("we can't go");
    assert_eq!((tokens[2].1, tokens[2].2), (3, 8));
    assert!(matches!(tokens[2].0, TokenKind::Word(m) if m.is_conjunction() && m.noun.is_none()));
}

#[test]
fn a_group_across_a_show_rule_is_merged_as_it_comes() {
    // The recipe of a show rule comes before its selector, so the word of
    // the recipe meets the apostrophe of the selector: the merged word
    // starts behind its end.
    let in_order: Vec<(usize, usize)> =
        parsed("#show \"x'a\": foo").iter().map(|t| (t.1, t.2)).collect();
    assert_eq!(in_order, vec![(13, 16), (7, 10)]);
    let merged = parsed("#show \"'a\": foo");
    assert_eq!(merged.len(), 1);
    assert_eq!((merged[0].1, merged[0].2), (12, 9));
}
