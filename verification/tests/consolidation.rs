use harper_core::lexicon::Lexicon;
use harper_core::parsers::apostrophes::consolidate_apostrophes;
use harper_core::parsers::{Parser, PlainEnglish};
use harper_core::token::{Token, TokenKind};
use harper_core::vec_ext::{remove_indices, sorted_unique};
use harper_core::word_metadata::{
    AdjectiveData, ConjunctionData, NounData, VerbData, WordMetadata,
};
use harper_core::Span;

fn consolidated(text: &str) -> (Vec<char>, Vec<Token>) {
    let source: Vec<char> = text.chars().collect();
    let mut tokens = PlainEnglish.parse(&source);
    consolidate_apostrophes(&mut tokens, &source);
    (source, tokens)
}

#[test]
fn sorted_unique_orders_and_drops_repetitions() {
    assert_eq!(sorted_unique(vec![5, 1, 3, 1, 5, 2]), vec![1, 2, 3, 5]);
    assert_eq!(sorted_unique(vec![2, 1]), vec![1, 2]);
    assert_eq!(sorted_unique(vec![7, 7, 7]), vec![7]);
    assert_eq!(sorted_unique(vec![]), vec![]);
}

#[test]
fn remove_indices_keeps_the_rest_in_order() {
    let mut items = vec!['a', 'b', 'c', 'd', 'e'];
    remove_indices(&mut items, &vec![1, 3]);
    assert_eq!(items, vec!['a', 'c', 'e']);
    remove_indices(&mut items, &vec![]);
    assert_eq!(items, vec!['a', 'c', 'e']);
    remove_indices(&mut items, &vec![0, 1, 2, 9]);
    assert_eq!(items, vec![]);
}

#[test]
fn a_possessive_becomes_one_noun() {
    let (source, tokens) = consolidated("Ann's hat");
    assert_eq!(tokens.len(), 3);
    assert_eq!(tokens[0].span, Span::new(0, 5));
    assert_eq!(tokens[0].span.get_content_string(&source), "Ann's");
    assert_eq!(
        tokens[0].kind,
        TokenKind::Word(WordMetadata {
            noun: Some(NounData {
                is_proper: None,
                is_plural: None,
                is_possessive: Some(true)
            }),
            verb: None,
            adjective: None,
            conjunction: None,
        })
    );
    assert_eq!(tokens[2].span, Span::new(6, 9));
}

#[test]
fn a_contraction_becomes_one_conjunction() {
    let (_, tokens) = consolidated("I won't");
    assert_eq!(tokens.len(), 3);
    assert_eq!(tokens[2].span, Span::new(2, 7));
    assert_eq!(
        tokens[2].kind,
        TokenKind::Word(WordMetadata {
            noun: None,
            verb: None,
            adjective: None,
            conjunction: Some(ConjunctionData {}),
        })
    );
}

#[test]
fn only_a_lower_case_s_makes_a_possessive() {
    let (_, tokens) = consolidated("ANN'S");
    assert_eq!(tokens.len(), 1);
    assert!(tokens[0].kind.is_conjunction());
}

#[test]
fn other_facets_stay() {
    let source: Vec<char> = "dog's don't".chars().collect();
    let mut tokens = PlainEnglish.parse(&source);
    let mut lexicon = Lexicon::new();
    lexicon.insert(
        "dog",
        WordMetadata {
            noun: Some(NounData {
                is_proper: Some(false),
                is_plural: Some(false),
                is_possessive: None,
            }),
            verb: Some(VerbData { is_linking: Some(false) }),
            adjective: None,
            conjunction: Some(ConjunctionData {}),
        },
    );
    lexicon.insert(
        "don",
        WordMetadata {
            noun: Some(NounData {
                is_proper: Some(true),
                is_plural: None,
                is_possessive: Some(true),
            }),
            verb: None,
            adjective: Some(AdjectiveData {}),
            conjunction: None,
        },
    );
    lexicon.annotate(&mut tokens, &source);
    consolidate_apostrophes(&mut tokens, &source);
    assert_eq!(tokens.len(), 3);
    assert_eq!(
        tokens[0].kind,
        TokenKind::Word(WordMetadata {
            noun: Some(NounData {
                is_proper: Some(false),
                is_plural: Some(false),
                is_possessive: Some(true),
            }),
            verb: Some(VerbData { is_linking: Some(false) }),
            adjective: None,
            conjunction: None,
        })
    );
    assert_eq!(
        tokens[2].kind,
        TokenKind::Word(WordMetadata {
            noun: Some(NounData {
                is_proper: Some(true),
                is_plural: None,
                is_possessive: Some(false),
            }),
            verb: None,
            adjective: Some(AdjectiveData {}),
            conjunction: Some(ConjunctionData {}),
        })
    );
}

#[test]
fn groups_do_not_share_tokens() {
    // The second apostrophe follows a word that the first group used up.
    let (source, tokens) = consolidated("a'b'c d");
    let texts: Vec<String> = tokens.iter().map(|t| t.span.get_content_string(&source)).collect();
    assert_eq!(texts, vec!["a'b", "'", "c", " ", "d"]);
}

#[test]
fn coverage_stays_the_same() {
    let source: Vec<char> = "it's Ann's, isn't it".chars().collect();
    let before = PlainEnglish.parse(&source);
    let mut after = before.clone();
    consolidate_apostrophes(&mut after, &source);
    assert_eq!(after.len(), before.len() - 6);
    let covered = |tokens: &[Token]| -> Vec<bool> {
        (0..source.len())
            .map(|c| tokens.iter().any(|t| t.span.start <= c && c < t.span.end))
            .collect()
    };
    assert_eq!(covered(&after), covered(&before));
    for pair in after.windows(2) {
        assert!(pair[0].span.start <= pair[1].span.start);
    }
}

#[test]
fn tokens_without_a_group_are_left_alone() {
    let source: Vec<char> = "'tis the dogs' bowl".chars().collect();
    let before = PlainEnglish.parse(&source);
    let mut after = before.clone();
    consolidate_apostrophes(&mut after, &source);
    assert_eq!(after, before);
}

#[test]
fn lexicon_adds_what_it_knows() {
    let mut lexicon = Lexicon::new();
    let adjective = WordMetadata {
        adjective: Some(AdjectiveData {}),
        ..WordMetadata::default()
    };
    let noun = WordMetadata {
        noun: Some(NounData { is_proper: None, is_plural: Some(false), is_possessive: None }),
        ..WordMetadata::default()
    };
    lexicon.insert("light", adjective);
    lexicon.insert("light", noun);
    let word: Vec<char> = "LIGHT".chars().collect();
    assert_eq!(lexicon.lookup(&word), adjective.or(&noun));
    assert_eq!(lexicon.lookup(&['x']), WordMetadata::default());
    let source: Vec<char> = "Light it".chars().collect();
    let mut tokens = PlainEnglish.parse(&source);
    lexicon.annotate(&mut tokens, &source);
    assert!(tokens[0].kind.is_adjective());
    assert_eq!(tokens[1].kind, TokenKind::Space(1));
    assert!(!tokens[2].kind.is_adjective());
    assert_eq!(tokens[0].span, Span::new(0, 5));
}

#[test]
fn combining_metadata_takes_the_union() {
    let a = WordMetadata {
        noun: Some(NounData { is_proper: Some(true), is_plural: None, is_possessive: None }),
        verb: None,
        adjective: None,
        conjunction: None,
    };
    let b = WordMetadata {
        noun: Some(NounData { is_proper: Some(false), is_plural: Some(true), is_possessive: None }),
        verb: Some(VerbData { is_linking: None }),
        adjective: Some(AdjectiveData {}),
        conjunction: None,
    };
    assert_eq!(
        a.or(&b),
        WordMetadata {
            noun: Some(NounData { is_proper: Some(true), is_plural: Some(true), is_possessive: None }),
            verb: Some(VerbData { is_linking: None }),
            adjective: Some(AdjectiveData {}),
            conjunction: None,
        }
    );
    assert_eq!(a.or(&a), a);
    assert_eq!(a.or(&WordMetadata::default()), a);
    assert!(a.is_noun() && !a.is_verb() && !a.is_adjective() && !a.is_conjunction());
    assert!(!a.is_possessive_noun());
}
