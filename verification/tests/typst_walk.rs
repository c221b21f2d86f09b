use harper_core::parsers::node_kind::{classify, NodeKind};
use harper_core::parsers::typst::{parse_dict, parse_expr, parse_nested, parse_pattern};
use harper_core::parsers::{Offset, PlainEnglish};
use harper_core::token::TokenKind;
use typst_syntax::{Source, SyntaxKind, SyntaxNode};

fn spans(tokens: &[harper_core::Token]) -> Vec<(usize, usize)> {
    tokens.iter().map(|t| (t.span.start, t.span.end)).collect()
}

#[test]
fn push_to_span_moves_to_the_start_of_the_node() {
    let text = "é *b*";
    let chars: Vec<char> = text.chars().collect();
    let doc = Source::detached(text);
    let strong = doc.root().children().nth(2).unwrap();
    assert_eq!(strong.kind(), SyntaxKind::Strong);
    let moved = Offset::new(&chars).push_to_span(&doc, strong).unwrap();
    assert_eq!((moved.byte, moved.char), (3, 2));
    // From behind the node the cursor cannot go back to it.
    let behind = Offset::new(&chars).push_to(4);
    assert!(behind.push_to_span(&doc, strong).is_none());
}

#[test]
fn push_to_span_refuses_a_node_of_another_tree() {
    let chars: Vec<char> = "abc".chars().collect();
    let doc = Source::detached("abc");
    let stranger = SyntaxNode::leaf(SyntaxKind::Text, "abc");
    assert!(Offset::new(&chars).push_to_span(&doc, &stranger).is_none());
    assert!(parse_expr(&stranger, &doc, &mut PlainEnglish, Offset::new(&chars), 9).is_none());
}

#[test]
fn a_text_longer_than_its_node_gives_nothing() {
    let chars: Vec<char> = "abc".chars().collect();
    let doc = Source::detached("abc");
    // The only text node of another file of the same name: this file
    // resolves its span to the node `abc`, three characters long.
    let other = Source::detached("x y z");
    let longer = other.root().children().next().unwrap();
    assert_eq!(longer.text(), "x y z");
    assert!(parse_expr(longer, &doc, &mut PlainEnglish, Offset::new(&chars), 9).is_none());
    let own = doc.root().children().next().unwrap();
    let tokens = parse_expr(own, &doc, &mut PlainEnglish, Offset::new(&chars), 9).unwrap();
    assert_eq!(spans(&tokens), vec![(0, 3)]);
}

#[test]
fn the_walk_stops_at_its_depth() {
    let text = "é *b*";
    let chars: Vec<char> = text.chars().collect();
    let doc = Source::detached(text);
    let strong = doc.root().children().nth(2).unwrap();
    let start = Offset::new(&chars);
    assert!(parse_expr(strong, &doc, &mut PlainEnglish, start, 0).is_none());
    assert_eq!(parse_expr(strong, &doc, &mut PlainEnglish, start, 1), Some(vec![]));
    let tokens = parse_expr(strong, &doc, &mut PlainEnglish, start, 2).unwrap();
    assert_eq!(spans(&tokens), vec![(3, 4)]);
}

#[test]
fn nested_expressions_share_the_cursor() {
    let text = "a b";
    let chars: Vec<char> = text.chars().collect();
    let doc = Source::detached(text);
    let nodes: Vec<SyntaxNode> = doc.root().children().cloned().collect();
    let tokens = parse_nested(&nodes, &doc, &mut PlainEnglish, Offset::new(&chars), 3);
    assert_eq!(spans(&tokens), vec![(0, 1), (1, 2), (2, 3)]);
    assert_eq!(parse_nested(&nodes, &doc, &mut PlainEnglish, Offset::new(&chars), 0), vec![]);
}

#[test]
fn a_node_that_is_no_expression_gives_nothing() {
    let text = "*b*";
    let chars: Vec<char> = text.chars().collect();
    let doc = Source::detached(text);
    let strong = doc.root().children().next().unwrap();
    let star = strong.children().next().unwrap();
    assert_eq!(star.kind(), SyntaxKind::Star);
    assert!(parse_expr(star, &doc, &mut PlainEnglish, Offset::new(&chars), 5).is_none());
}

#[test]
fn math_outside_an_equation_gives_nothing() {
    let text = "$x + y$";
    let chars: Vec<char> = text.chars().collect();
    let doc = Source::detached(text);
    let equation = doc.root().children().next().unwrap();
    let math = equation.children().find(|n| n.kind() == SyntaxKind::Math).unwrap();
    assert!(parse_expr(math, &doc, &mut PlainEnglish, Offset::new(&chars), 5).is_none());
    let tokens = parse_expr(equation, &doc, &mut PlainEnglish, Offset::new(&chars), 5).unwrap();
    assert_eq!(tokens.len(), 1);
    assert_eq!(tokens[0].kind, TokenKind::Unlintable);
    assert_eq!(spans(&tokens), vec![(0, 7)]);
}

#[test]
fn patterns_and_dictionaries_are_walked_from_their_nodes() {
    let text = "#let (a, _) = (k: v)";
    let chars: Vec<char> = text.chars().collect();
    let doc = Source::detached(text);
    let binding = doc.root().children().nth(1).unwrap();
    assert_eq!(binding.kind(), SyntaxKind::LetBinding);
    let pattern = binding.children().find(|n| n.kind() == SyntaxKind::Destructuring).unwrap();
    let tokens = parse_pattern(pattern, &doc, &mut PlainEnglish, Offset::new(&chars), 9).unwrap();
    assert_eq!(spans(&tokens), vec![(6, 7), (9, 10)]);
    assert_eq!(tokens[1].kind, TokenKind::Unlintable);
    assert!(parse_pattern(pattern, &doc, &mut PlainEnglish, Offset::new(&chars), 0).is_none());
    let dict = binding.children().find(|n| n.kind() == SyntaxKind::Dict).unwrap();
    let items: Vec<SyntaxNode> = dict
        .children()
        .filter(|n| n.kind() == SyntaxKind::Named)
        .cloned()
        .collect();
    let tokens = parse_dict(&items, &doc, &mut PlainEnglish, Offset::new(&chars), 9);
    assert_eq!(spans(&tokens), vec![(15, 16), (18, 19)]);
}

#[test]
fn kinds_are_told_by_their_names() {
    assert_eq!(classify("Text"), NodeKind::Text);
    assert_eq!(classify("Escape"), NodeKind::Opaque);
    assert_eq!(classify("FuncReturn"), NodeKind::Opaque);
    assert_eq!(classify("Bool"), NodeKind::Name);
    assert_eq!(classify("None"), NodeKind::Name);
    assert_eq!(classify("MathRoot"), NodeKind::Math);
    assert_eq!(classify("ListItem"), NodeKind::ListItem);
    assert_eq!(classify("Underscore"), NodeKind::Underscore);
    assert_eq!(classify("Comma"), NodeKind::Other);
    assert_eq!(classify("text"), NodeKind::Other);
    assert_eq!(classify(""), NodeKind::Other);
    for kind in [SyntaxKind::Strong, SyntaxKind::LetBinding, SyntaxKind::Spread] {
        assert_ne!(classify(&format!("{kind:?}")), NodeKind::Other);
    }
}
