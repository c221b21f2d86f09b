use harper_core::parsers::Typst;
use harper_core::token::{Punctuation, Real, Token, TokenKind};
use harper_core::word_metadata::{NounData, WordMetadata};

fn kinds(tokens: &[Token]) -> Vec<TokenKind> {
    tokens.iter().map(|t| t.kind).collect()
}

#[test]
fn conjunction() {
    let source = "doesn't";

    let tokens = Typst.parse_str(source);
    let token_kinds = kinds(&tokens);

    assert_eq!(token_kinds.len(), 1);
    assert!(token_kinds.into_iter().all(|t| t.is_conjunction()))
}

#[test]
fn possessive() {
    let source = "person's";

    let tokens = Typst.parse_str(source);
    let token_kinds = kinds(&tokens);

    assert_eq!(token_kinds.len(), 1);
    assert!(token_kinds.into_iter().all(|t| {
        matches!(
            t,
            TokenKind::Word(WordMetadata {
                noun: Some(NounData {
                    is_possessive: Some(true),
                    ..
                }),
                ..
            })
        )
    }))
}

#[test]
fn number() {
    let source = "12 is larger than 11, but much less than 11!";

    let tokens = Typst.parse_str(source);
    let token_kinds = kinds(&tokens);

    assert!(matches!(
        token_kinds.as_slice(),
        &[
            TokenKind::Number(Real::Integer(12), None),
            TokenKind::Space(1),
            TokenKind::Word(_),
            TokenKind::Space(1),
            TokenKind::Word(_),
            TokenKind::Space(1),
            TokenKind::Word(_),
            TokenKind::Space(1),
            TokenKind::Number(Real::Integer(11), None),
            TokenKind::Punctuation(Punctuation::Comma),
            TokenKind::Space(1),
            TokenKind::Word(_),
            TokenKind::Space(1),
            TokenKind::Word(_),
            TokenKind::Space(1),
            TokenKind::Word(_),
            TokenKind::Space(1),
            TokenKind::Word(_),
            TokenKind::Space(1),
            TokenKind::Number(Real::Integer(11), None),
            TokenKind::Punctuation(Punctuation::Bang),
        ]
    ))
}

#[test]
fn math_unlintable() {
    let source = "$12 > 11$, $12 << 11!$";

    let tokens = Typst.parse_str(source);
    let token_kinds = kinds(&tokens);

    assert!(matches!(
        token_kinds.as_slice(),
        &[
            TokenKind::Unlintable,
            TokenKind::Punctuation(Punctuation::Comma),
            TokenKind::Space(1),
            TokenKind::Unlintable,
        ]
    ))
}

#[test]
fn dict_parsing() {
    let source = r#"#let dict = (
                        name: "Typst",
                        born: 2019,
                      )"#;

    let tokens = Typst.parse_str(source);
    let token_kinds = kinds(&tokens);

    let charslice: Vec<char> = source.chars().collect();
    assert_eq!(tokens[2].span.get_content_string(&charslice), "Typst");

    assert!(matches!(
        token_kinds.as_slice(),
        &[
            TokenKind::Word(_),                              // Identifier
            TokenKind::Word(_),                              // Key 1
            TokenKind::Word(_),                              // Value 1
            TokenKind::Word(_),                              // Key 2
            TokenKind::Number(Real::Integer(2019), None),    // Value 2
        ]
    ))
}

#[test]
fn str_parsing() {
    let source = r#"#let ident = "This is a string""#;

    let token_kinds = kinds(&Typst.parse_str(source));

    assert!(matches!(
        &token_kinds.as_slice(),
        &[
            TokenKind::Word(_), // Identifier
            TokenKind::Word(_), // This
            TokenKind::Space(1),
            TokenKind::Word(_), // Is
            TokenKind::Space(1),
            TokenKind::Word(_), // A
            TokenKind::Space(1),
            TokenKind::Word(_), // String
        ]
    ))
}

#[test]
fn sentence() {
    let source = "This is a sentence, it is not interesting.";

    let tokens = Typst.parse_str(source);
    let token_kinds = kinds(&tokens);

    assert!(matches!(
        token_kinds.as_slice(),
        &[
            TokenKind::Word(_),
            TokenKind::Space(1),
            TokenKind::Word(_),
            TokenKind::Space(1),
            TokenKind::Word(_),
            TokenKind::Space(1),
            TokenKind::Word(_),
            TokenKind::Punctuation(Punctuation::Comma),
            TokenKind::Space(1),
            TokenKind::Word(_),
            TokenKind::Space(1),
            TokenKind::Word(_),
            TokenKind::Space(1),
            TokenKind::Word(_),
            TokenKind::Space(1),
            TokenKind::Word(_),
            TokenKind::Punctuation(Punctuation::Period),
        ]
    ))
}

#[test]
fn smart_apostrophe_newline() {
    let source = r#"group’s
writing"#;

    let tokens = Typst.parse_str(source);
    let token_kinds = kinds(&tokens);

    let charslice: Vec<char> = source.chars().collect();
    assert_eq!(tokens[2].span.get_content_string(&charslice), "writing");

    assert!(matches!(
        token_kinds.as_slice(),
        &[
            TokenKind::Word(WordMetadata {
                noun: Some(NounData {
                    is_possessive: Some(true),
                    ..
                }),
                ..
            }),
            TokenKind::Space(1),
            TokenKind::Word(_),
        ]
    ));
}
