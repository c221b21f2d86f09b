//! The adapter for Typst documents: it walks the syntax tree in the order
//! of the typed accessors, tokenizes prose as English and keeps code and
//! math opaque.

use vstd::prelude::*;
use typst_syntax::{Source, SyntaxNode};
use crate::chars::{chars_of, string_from_chars};
use crate::parsers::node_kind::{classify, kind_of, NodeKind};
use crate::parsers::offset::{Cursor, Offset};
use crate::parsers::placement::{
    append, constant_token, flat, interior, one_token, place_node_text, text_tokens, token_seq,
};
use crate::parsers::apostrophes::{consolidate_apostrophes, consolidated, groups_in_order};
use crate::parsers::plain_english::PlainEnglish;
use crate::parsers::Parser;
use crate::parsers::syntax_tree::{self as tree, Binding};
use crate::token::{tokens_fit, tokens_ordered, Punctuation, Quote, Real, Token, TokenKind};
use crate::word_metadata::WordMetadata;

verus! {

/// A parser for Typst files: it walks the syntax tree of the document,
/// hands prose to the English tokenizer and keeps code and math opaque.
pub struct Typst;

/// The deepest nesting of the syntax tree that the walk follows.
pub open spec fn nesting_limit() -> nat {
    usize::MAX as nat
}

/// The tokens of a Typst document before words are joined across
/// apostrophes: those of the expressions of its markup, walked from the
/// start of the source.
pub open spec fn document_tokens(source: Seq<char>) -> Seq<Token> {
    let doc = tree::parsed_source(source);
    match tree::markup_exprs_of(tree::source_root_of(doc)) {
        Some(exprs) => nested_tokens(
            doc,
            exprs,
            exprs.len() as int,
            Cursor { source, char: 0, byte: 0 },
            nesting_limit(),
        ),
        None => Seq::empty(),
    }
}

/// The cursor moved to the start of a node, where the file knows the
/// node and the cursor can move there.
pub open spec fn offset_at(doc: Source, offset: Cursor, node: SyntaxNode) -> Option<Cursor> {
    match tree::node_range_of(doc, node) {
        Some((start, _)) => offset.try_moved_to(start as int),
        None => None,
    }
}

/// The byte range of a node that may be absent.
pub open spec fn range_of(doc: Source, node: Option<SyntaxNode>) -> Option<(usize, usize)> {
    match node {
        Some(node) => tree::node_range_of(doc, node),
        None => None,
    }
}

/// A word of which nothing is known.
pub open spec fn plain_word() -> TokenKind {
    TokenKind::Word(WordMetadata::empty())
}

/// The token kind of a smart quote.
pub open spec fn quote_kind(double: bool) -> TokenKind {
    if double {
        TokenKind::Punctuation(Punctuation::Quote(Quote { twin_loc: None }))
    } else {
        TokenKind::Punctuation(Punctuation::Apostrophe)
    }
}

/// The tokens of an expression. `offset` is a cursor at or before the
/// expression, `depth` the number of levels of nesting that are walked:
/// an expression below them gives no result.
pub open spec fn expr_tokens(doc: Source, node: SyntaxNode, offset: Cursor, depth: nat) -> Option<
    Seq<Token>,
>
    decreases depth, 0nat, 0nat,
{
    if depth == 0 {
        None
    } else {
        let range = tree::node_range_of(doc, node);
        let inner = offset_at(doc, offset, node);
        let below = (depth - 1) as nat;
        match kind_of(tree::kind_name_of(node)) {
            NodeKind::Text => text_tokens(offset, range, tree::text_get_of(node), 0),
            NodeKind::Label => text_tokens(offset, range, tree::label_get_of(node), 0),
            NodeKind::Str => text_tokens(offset, range, interior(tree::node_text_of(node)), 1),
            NodeKind::Space => one_token(offset, range, TokenKind::Space(1)),
            NodeKind::Linebreak => one_token(offset, range, TokenKind::Newline(1)),
            NodeKind::Parbreak => one_token(offset, range, TokenKind::ParagraphBreak),
            NodeKind::Link => one_token(offset, range, TokenKind::Url),
            NodeKind::Opaque => one_token(offset, range, TokenKind::Unlintable),
            NodeKind::Name => one_token(offset, range, plain_word()),
            NodeKind::SmartQuote => match tree::smart_quote_double_of(node) {
                Some(double) => one_token(offset, range, quote_kind(double)),
                None => None,
            },
            NodeKind::Int => match tree::int_get_of(node) {
                Some(value) => one_token(
                    offset,
                    range,
                    TokenKind::Number(Real::Integer(value), None),
                ),
                None => None,
            },
            NodeKind::Float => match tree::float_bits_of(node) {
                Some(bits) => one_token(
                    offset,
                    range,
                    TokenKind::Number(Real::Binary64(bits), None),
                ),
                None => None,
            },
            NodeKind::Strong => body_tokens(doc, tree::strong_body_of(node), inner, below),
            NodeKind::Emph => body_tokens(doc, tree::emph_body_of(node), inner, below),
            NodeKind::Heading => body_tokens(doc, tree::heading_body_of(node), inner, below),
            NodeKind::ListItem => body_tokens(doc, tree::list_item_body_of(node), inner, below),
            NodeKind::EnumItem => body_tokens(doc, tree::enum_item_body_of(node), inner, below),
            NodeKind::ContentBlock => body_tokens(doc, tree::content_block_body_of(node), inner, below),
            NodeKind::TermItem => match inner {
                Some(_) => Some(
                    flat(body_tokens(doc, tree::term_item_term_of(node), inner, below)) + flat(
                        body_tokens(doc, tree::term_item_description_of(node), inner, below),
                    ),
                ),
                None => None,
            },
            NodeKind::Parenthesized => inner_tokens(doc, tree::parenthesized_expr_of(node), inner, below),
            NodeKind::Contextual => inner_tokens(doc, tree::contextual_body_of(node), inner, below),
            NodeKind::DestructAssignment => inner_tokens(
                doc,
                tree::destruct_assignment_value_of(node),
                inner,
                below,
            ),
            NodeKind::Array => match (tree::array_items_of(node), inner) {
                (Some(items), Some(inner)) => Some(
                    array_tokens(doc, items, items.len() as int, inner, below),
                ),
                _ => None,
            },
            NodeKind::Dict => match (tree::dict_items_of(node), inner) {
                (Some(items), Some(inner)) => Some(
                    dict_tokens(doc, items, items.len() as int, inner, below),
                ),
                _ => None,
            },
            NodeKind::FieldAccess => Some(
                flat(inner_tokens(doc, tree::field_access_target_of(node), inner, below)) + flat(
                    one_token(offset, range_of(doc, tree::field_access_field_of(node)), plain_word()),
                ),
            ),
            NodeKind::LetBinding => Some(
                flat(binding_tokens(doc, tree::let_binding_kind_of(node), offset, below)) + flat(
                    child_tokens(doc, tree::let_binding_init_of(node), offset, below),
                ),
            ),
            NodeKind::SetRule => Some(
                flat(child_tokens(doc, tree::set_rule_target_of(node), offset, below)) + flat(
                    child_tokens(doc, tree::set_rule_condition_of(node), offset, below),
                ),
            ),
            NodeKind::ShowRule => Some(
                flat(child_tokens(doc, tree::show_rule_transform_of(node), offset, below)) + flat(
                    child_tokens(doc, tree::show_rule_selector_of(node), offset, below),
                ),
            ),
            NodeKind::Conditional => Some(
                flat(child_tokens(doc, tree::conditional_condition_of(node), offset, below)) + flat(
                    child_tokens(doc, tree::conditional_if_body_of(node), offset, below),
                ) + flat(child_tokens(doc, tree::conditional_else_body_of(node), offset, below)),
            ),
            NodeKind::WhileLoop => Some(
                flat(child_tokens(doc, tree::while_loop_condition_of(node), offset, below)) + flat(
                    child_tokens(doc, tree::while_loop_body_of(node), offset, below),
                ),
            ),
            NodeKind::ForLoop => Some(
                flat(child_tokens(doc, tree::for_loop_iterable_of(node), offset, below)) + flat(
                    child_tokens(doc, tree::for_loop_body_of(node), offset, below),
                ),
            ),
            NodeKind::ModuleImport => Some(
                flat(child_tokens(doc, tree::module_import_source_of(node), offset, below)) + flat(
                    one_token(offset, range_of(doc, tree::module_import_new_name_of(node)), plain_word()),
                ),
            ),
            _ => None,
        }
    }
}

/// The tokens of a pattern of a binding.
pub open spec fn pattern_tokens(doc: Source, node: SyntaxNode, offset: Cursor, depth: nat) -> Option<
    Seq<Token>,
>
    decreases depth, 0nat, 0nat,
{
    if depth == 0 {
        None
    } else {
        let below = (depth - 1) as nat;
        match kind_of(tree::kind_name_of(node)) {
            NodeKind::Underscore => one_token(
                offset,
                tree::node_range_of(doc, node),
                TokenKind::Unlintable,
            ),
            NodeKind::Parenthesized => Some(
                flat(child_tokens(doc, tree::parenthesized_expr_of(node), offset, below)) + flat(
                    child_pattern_tokens(doc, tree::parenthesized_pattern_of(node), offset, below),
                ),
            ),
            NodeKind::Destructuring => match tree::destructuring_items_of(node) {
                Some(items) => Some(
                    destructuring_tokens(doc, items, items.len() as int, offset, below),
                ),
                None => None,
            },
            _ => child_tokens(doc, Some(node), offset, below),
        }
    }
}

/// The tokens of an expression that may be absent, walked with the
/// cursor at its own start.
pub open spec fn child_tokens(doc: Source, node: Option<SyntaxNode>, offset: Cursor, depth: nat) -> Option<
    Seq<Token>,
>
    decreases depth, 1nat, 0nat,
{
    match node {
        Some(node) => match offset_at(doc, offset, node) {
            Some(start) => expr_tokens(doc, node, start, depth),
            None => None,
        },
        None => None,
    }
}

/// The tokens of a pattern that may be absent, walked with the cursor at
/// its own start.
pub open spec fn child_pattern_tokens(
    doc: Source,
    node: Option<SyntaxNode>,
    offset: Cursor,
    depth: nat,
) -> Option<Seq<Token>>
    decreases depth, 1nat, 0nat,
{
    match node {
        Some(node) => match offset_at(doc, offset, node) {
            Some(start) => pattern_tokens(doc, node, start, depth),
            None => None,
        },
        None => None,
    }
}

/// The tokens of an expression inside a node, walked with the cursor at
/// the start of that node.
pub open spec fn inner_tokens(
    doc: Source,
    node: Option<SyntaxNode>,
    inner: Option<Cursor>,
    depth: nat,
) -> Option<Seq<Token>>
    decreases depth, 1nat, 0nat,
{
    match (node, inner) {
        (Some(node), Some(inner)) => expr_tokens(doc, node, inner, depth),
        _ => None,
    }
}

/// The tokens of what a let binding binds: those of its pattern, or one
/// word for the name of the function that it defines.
pub open spec fn binding_tokens(doc: Source, binding: Option<Binding>, offset: Cursor, depth: nat) -> Option<
    Seq<Token>,
>
    decreases depth, 2nat, 0nat,
{
    match binding {
        Some(Binding::Normal(pattern)) => child_pattern_tokens(doc, Some(pattern), offset, depth),
        Some(Binding::Closure(name)) => one_token(offset, tree::node_range_of(doc, name), plain_word()),
        None => None,
    }
}

/// The tokens of a spread: one word for the identifier that it binds,
/// else those of the expression that it binds.
pub open spec fn spread_tokens(doc: Source, node: SyntaxNode, offset: Cursor, depth: nat) -> Option<
    Seq<Token>,
>
    decreases depth, 2nat, 0nat,
{
    match tree::spread_sink_ident_of(node) {
        Some(name) => one_token(offset, tree::node_range_of(doc, name), plain_word()),
        None => child_tokens(doc, tree::spread_sink_expr_of(node), offset, depth),
    }
}

/// The tokens of one item of a dictionary.
pub open spec fn dict_item_tokens(doc: Source, item: SyntaxNode, offset: Cursor, depth: nat) -> Option<
    Seq<Token>,
>
    decreases depth, 3nat, 0nat,
{
    match kind_of(tree::kind_name_of(item)) {
        NodeKind::Named => Some(
            flat(one_token(offset, range_of(doc, tree::named_name_of(item)), plain_word())) + flat(
                child_tokens(doc, tree::named_expr_of(item), offset, depth),
            ),
        ),
        NodeKind::Keyed => Some(
            flat(child_tokens(doc, tree::keyed_key_of(item), offset, depth)) + flat(
                child_tokens(doc, tree::keyed_expr_of(item), offset, depth),
            ),
        ),
        NodeKind::Spread => spread_tokens(doc, item, offset, depth),
        _ => None,
    }
}

/// The tokens of one item of a destructuring pattern.
pub open spec fn destructuring_item_tokens(
    doc: Source,
    item: SyntaxNode,
    offset: Cursor,
    depth: nat,
) -> Option<Seq<Token>>
    decreases depth, 3nat, 0nat,
{
    match kind_of(tree::kind_name_of(item)) {
        NodeKind::Named => Some(
            flat(one_token(offset, range_of(doc, tree::named_name_of(item)), plain_word())) + flat(
                child_pattern_tokens(doc, tree::named_pattern_of(item), offset, depth),
            ),
        ),
        NodeKind::Spread => spread_tokens(doc, item, offset, depth),
        _ => child_pattern_tokens(doc, Some(item), offset, depth),
    }
}

/// The tokens of the first `upto` of a list of expressions, all walked
/// with the same cursor. An expression without a result adds nothing.
pub open spec fn nested_tokens(
    doc: Source,
    nodes: Seq<SyntaxNode>,
    upto: int,
    offset: Cursor,
    depth: nat,
) -> Seq<Token>
    decreases depth, 4nat, upto,
{
    if upto <= 0 || upto > nodes.len() {
        Seq::empty()
    } else {
        nested_tokens(doc, nodes, upto - 1, offset, depth) + flat(
            expr_tokens(doc, nodes[upto - 1], offset, depth),
        )
    }
}

/// The tokens of the first `upto` items of an array: those of the
/// items that are expressions. Spreads add nothing.
pub open spec fn array_tokens(
    doc: Source,
    items: Seq<SyntaxNode>,
    upto: int,
    offset: Cursor,
    depth: nat,
) -> Seq<Token>
    decreases depth, 4nat, upto,
{
    if upto <= 0 || upto > items.len() {
        Seq::empty()
    } else {
        let before = array_tokens(doc, items, upto - 1, offset, depth);
        if kind_of(tree::kind_name_of(items[upto - 1])) == NodeKind::Spread {
            before
        } else {
            before + flat(expr_tokens(doc, items[upto - 1], offset, depth))
        }
    }
}

/// The tokens of the first `upto` items of a dictionary.
pub open spec fn dict_tokens(
    doc: Source,
    items: Seq<SyntaxNode>,
    upto: int,
    offset: Cursor,
    depth: nat,
) -> Seq<Token>
    decreases depth, 4nat, upto,
{
    if upto <= 0 || upto > items.len() {
        Seq::empty()
    } else {
        dict_tokens(doc, items, upto - 1, offset, depth) + flat(
            dict_item_tokens(doc, items[upto - 1], offset, depth),
        )
    }
}

/// The tokens of the first `upto` items of a destructuring pattern.
pub open spec fn destructuring_tokens(
    doc: Source,
    items: Seq<SyntaxNode>,
    upto: int,
    offset: Cursor,
    depth: nat,
) -> Seq<Token>
    decreases depth, 4nat, upto,
{
    if upto <= 0 || upto > items.len() {
        Seq::empty()
    } else {
        destructuring_tokens(doc, items, upto - 1, offset, depth) + flat(
            destructuring_item_tokens(doc, items[upto - 1], offset, depth),
        )
    }
}

/// The tokens of the expressions of a markup body, walked with the
/// cursor at the start of the node that holds the body.
pub open spec fn body_tokens(
    doc: Source,
    body: Option<SyntaxNode>,
    inner: Option<Cursor>,
    depth: nat,
) -> Option<Seq<Token>>
    decreases depth, 5nat, 0nat,
{
    match (body, inner) {
        (Some(body), Some(inner)) => match tree::markup_exprs_of(body) {
            Some(exprs) => Some(nested_tokens(doc, exprs, exprs.len() as int, inner, depth)),
            None => None,
        },
        _ => None,
    }
}

impl<'a> Offset<'a> {
    /// Moves the cursor forward to the start of a node. `None` where the
    /// file does not know the node, or the cursor cannot move there.
    pub fn push_to_span(self, doc: &Source, node: &SyntaxNode) -> (moved: Option<Self>)
        requires
            self@.well_formed(),
        ensures
            match moved {
                Some(moved) => offset_at(*doc, self@, *node) == Some(moved@)
                    && moved@.well_formed(),
                None => offset_at(*doc, self@, *node) is None,
            },
    {
        match tree::node_range(doc, node) {
            Some((start, _)) => self.try_push_to(start),
            None => None,
        }
    }
}

fn range_of_node(doc: &Source, node: &Option<SyntaxNode>) -> (range: Option<(usize, usize)>)
    ensures
        range == range_of(*doc, *node),
{
    match node {
        Some(node) => tree::node_range(doc, node),
        None => None,
    }
}

fn word_kind() -> (kind: TokenKind)
    ensures
        kind == plain_word(),
{
    TokenKind::Word(WordMetadata::default())
}

/// The tokens of an expression of the syntax tree. `offset` is a cursor
/// at or before the expression; `depth` bounds the nesting that is
/// walked.
pub fn parse_expr(
    node: &SyntaxNode,
    doc: &Source,
    parser: &mut PlainEnglish,
    offset: Offset,
    depth: usize,
) -> (tokens: Option<Vec<Token>>)
    requires
        offset@.well_formed(),
    ensures
        token_seq(tokens) == expr_tokens(*doc, *node, offset@, depth as nat),
        tokens matches Some(tokens) ==> tokens_fit(tokens@, offset.source@.len()),
    decreases depth, 0nat, 0nat,
{
    if depth == 0 {
        return None;
    }
    let below = depth - 1;
    let range = tree::node_range(doc, node);
    let name = tree::kind_name(node);
    match classify(name.as_str()) {
        NodeKind::Text => match tree::text_get(node) {
            Some(text) => {
                let chars = chars_of(text.as_str());
                place_node_text(chars.as_slice(), range, 0, parser, offset)
            },
            None => None,
        },
        NodeKind::Label => match tree::label_get(node) {
            Some(text) => {
                let chars = chars_of(text.as_str());
                place_node_text(chars.as_slice(), range, 0, parser, offset)
            },
            None => None,
        },
        NodeKind::Str => {
            let text = tree::node_text(node);
            let chars = chars_of(text.as_str());
            if chars.len() >= 2 {
                let quoted = chars.as_slice();
                place_node_text(&quoted[1..chars.len() - 1], range, 1, parser, offset)
            } else {
                None
            }
        },
        NodeKind::Space => constant_token(range, TokenKind::Space(1), offset),
        NodeKind::Linebreak => constant_token(range, TokenKind::Newline(1), offset),
        NodeKind::Parbreak => constant_token(range, TokenKind::ParagraphBreak, offset),
        NodeKind::Link => constant_token(range, TokenKind::Url, offset),
        NodeKind::Opaque => constant_token(range, TokenKind::Unlintable, offset),
        NodeKind::Name => constant_token(range, word_kind(), offset),
        NodeKind::SmartQuote => match tree::smart_quote_double(node) {
            Some(double) => {
                if double {
                    constant_token(
                        range,
                        TokenKind::Punctuation(Punctuation::Quote(Quote { twin_loc: None })),
                        offset,
                    )
                } else {
                    constant_token(
                        range,
                        TokenKind::Punctuation(Punctuation::Apostrophe),
                        offset,
                    )
                }
            },
            None => None,
        },
        NodeKind::Int => match tree::int_get(node) {
            Some(value) => constant_token(
                range,
                TokenKind::Number(Real::Integer(value), None),
                offset,
            ),
            None => None,
        },
        NodeKind::Float => match tree::float_bits(node) {
            Some(bits) => constant_token(
                range,
                TokenKind::Number(Real::Binary64(bits), None),
                offset,
            ),
            None => None,
        },
        NodeKind::Strong => match offset.push_to_span(doc, node) {
            Some(inner) => parse_body(&tree::strong_body(node), doc, parser, inner, below),
            None => None,
        },
        NodeKind::Emph => match offset.push_to_span(doc, node) {
            Some(inner) => parse_body(&tree::emph_body(node), doc, parser, inner, below),
            None => None,
        },
        NodeKind::Heading => match offset.push_to_span(doc, node) {
            Some(inner) => parse_body(&tree::heading_body(node), doc, parser, inner, below),
            None => None,
        },
        NodeKind::ListItem => match offset.push_to_span(doc, node) {
            Some(inner) => parse_body(&tree::list_item_body(node), doc, parser, inner, below),
            None => None,
        },
        NodeKind::EnumItem => match offset.push_to_span(doc, node) {
            Some(inner) => parse_body(&tree::enum_item_body(node), doc, parser, inner, below),
            None => None,
        },
        NodeKind::ContentBlock => match offset.push_to_span(doc, node) {
            Some(inner) => parse_body(&tree::content_block_body(node), doc, parser, inner, below),
            None => None,
        },
        NodeKind::TermItem => match offset.push_to_span(doc, node) {
            Some(inner) => {
                let mut tokens: Vec<Token> = Vec::new();
                let term = parse_body(&tree::term_item_term(node), doc, parser, inner, below);
                append(&mut tokens, term);
                let description = parse_body(
                    &tree::term_item_description(node),
                    doc,
                    parser,
                    inner,
                    below,
                );
                append(&mut tokens, description);
                Some(tokens)
            },
            None => None,
        },
        NodeKind::Parenthesized => match offset.push_to_span(doc, node) {
            Some(inner) => parse_inner(&tree::parenthesized_expr(node), doc, parser, inner, below),
            None => None,
        },
        NodeKind::Contextual => match offset.push_to_span(doc, node) {
            Some(inner) => parse_inner(&tree::contextual_body(node), doc, parser, inner, below),
            None => None,
        },
        NodeKind::DestructAssignment => match offset.push_to_span(doc, node) {
            Some(inner) => parse_inner(&tree::destruct_assignment_value(node), doc, parser, inner, below),
            None => None,
        },
        NodeKind::Array => match (tree::array_items(node), offset.push_to_span(doc, node)) {
            (Some(items), Some(inner)) => Some(parse_array(&items, doc, parser, inner, below)),
            _ => None,
        },
        NodeKind::Dict => match (tree::dict_items(node), offset.push_to_span(doc, node)) {
            (Some(items), Some(inner)) => Some(parse_dict(&items, doc, parser, inner, below)),
            _ => None,
        },
        NodeKind::FieldAccess => {
            let mut tokens: Vec<Token> = Vec::new();
            let target = match offset.push_to_span(doc, node) {
                Some(inner) => parse_inner(&tree::field_access_target(node), doc, parser, inner, below),
                None => None,
            };
            append(&mut tokens, target);
            let field = constant_token(
                range_of_node(doc, &tree::field_access_field(node)),
                word_kind(),
                offset,
            );
            append(&mut tokens, field);
            Some(tokens)
        },
        NodeKind::LetBinding => {
            let mut tokens: Vec<Token> = Vec::new();
            let bound = parse_binding(&tree::let_binding_kind(node), doc, parser, offset, below);
            append(&mut tokens, bound);
            let init = parse_child(&tree::let_binding_init(node), doc, parser, offset, below);
            append(&mut tokens, init);
            Some(tokens)
        },
        NodeKind::SetRule => {
            let mut tokens: Vec<Token> = Vec::new();
            let target = parse_child(&tree::set_rule_target(node), doc, parser, offset, below);
            append(&mut tokens, target);
            let condition = parse_child(&tree::set_rule_condition(node), doc, parser, offset, below);
            append(&mut tokens, condition);
            Some(tokens)
        },
        NodeKind::ShowRule => {
            let mut tokens: Vec<Token> = Vec::new();
            let transform = parse_child(&tree::show_rule_transform(node), doc, parser, offset, below);
            append(&mut tokens, transform);
            let selector = parse_child(&tree::show_rule_selector(node), doc, parser, offset, below);
            append(&mut tokens, selector);
            Some(tokens)
        },
        NodeKind::Conditional => {
            let mut tokens: Vec<Token> = Vec::new();
            let condition = parse_child(&tree::conditional_condition(node), doc, parser, offset, below);
            append(&mut tokens, condition);
            let if_body = parse_child(&tree::conditional_if_body(node), doc, parser, offset, below);
            append(&mut tokens, if_body);
            let else_body = parse_child(&tree::conditional_else_body(node), doc, parser, offset, below);
            append(&mut tokens, else_body);
            Some(tokens)
        },
        NodeKind::WhileLoop => {
            let mut tokens: Vec<Token> = Vec::new();
            let condition = parse_child(&tree::while_loop_condition(node), doc, parser, offset, below);
            append(&mut tokens, condition);
            let body = parse_child(&tree::while_loop_body(node), doc, parser, offset, below);
            append(&mut tokens, body);
            Some(tokens)
        },
        NodeKind::ForLoop => {
            let mut tokens: Vec<Token> = Vec::new();
            let iterable = parse_child(&tree::for_loop_iterable(node), doc, parser, offset, below);
            append(&mut tokens, iterable);
            let body = parse_child(&tree::for_loop_body(node), doc, parser, offset, below);
            append(&mut tokens, body);
            Some(tokens)
        },
        NodeKind::ModuleImport => {
            let mut tokens: Vec<Token> = Vec::new();
            let source = parse_child(&tree::module_import_source(node), doc, parser, offset, below);
            append(&mut tokens, source);
            let new_name = constant_token(
                range_of_node(doc, &tree::module_import_new_name(node)),
                word_kind(),
                offset,
            );
            append(&mut tokens, new_name);
            Some(tokens)
        },
        _ => None,
    }
}

/// The tokens of a pattern of a binding.
pub fn parse_pattern(
    node: &SyntaxNode,
    doc: &Source,
    parser: &mut PlainEnglish,
    offset: Offset,
    depth: usize,
) -> (tokens: Option<Vec<Token>>)
    requires
        offset@.well_formed(),
    ensures
        token_seq(tokens) == pattern_tokens(*doc, *node, offset@, depth as nat),
        tokens matches Some(tokens) ==> tokens_fit(tokens@, offset.source@.len()),
    decreases depth, 0nat, 0nat,
{
    if depth == 0 {
        return None;
    }
    let below = depth - 1;
    let name = tree::kind_name(node);
    match classify(name.as_str()) {
        NodeKind::Underscore => constant_token(
            tree::node_range(doc, node),
            TokenKind::Unlintable,
            offset,
        ),
        NodeKind::Parenthesized => {
            let mut tokens: Vec<Token> = Vec::new();
            let expr = parse_child(&tree::parenthesized_expr(node), doc, parser, offset, below);
            append(&mut tokens, expr);
            let pattern = parse_child_pattern(
                &tree::parenthesized_pattern(node),
                doc,
                parser,
                offset,
                below,
            );
            append(&mut tokens, pattern);
            Some(tokens)
        },
        NodeKind::Destructuring => match tree::destructuring_items(node) {
            Some(items) => Some(parse_destructuring(&items, doc, parser, offset, below)),
            None => None,
        },
        _ => match offset.push_to_span(doc, node) {
            Some(start) => parse_expr(node, doc, parser, start, below),
            None => None,
        },
    }
}

fn parse_child(
    node: &Option<SyntaxNode>,
    doc: &Source,
    parser: &mut PlainEnglish,
    offset: Offset,
    depth: usize,
) -> (tokens: Option<Vec<Token>>)
    requires
        offset@.well_formed(),
    ensures
        token_seq(tokens) == child_tokens(*doc, *node, offset@, depth as nat),
        tokens matches Some(tokens) ==> tokens_fit(tokens@, offset.source@.len()),
    decreases depth, 1nat, 0nat,
{
    match node {
        Some(node) => match offset.push_to_span(doc, node) {
            Some(start) => parse_expr(node, doc, parser, start, depth),
            None => None,
        },
        None => None,
    }
}

fn parse_child_pattern(
    node: &Option<SyntaxNode>,
    doc: &Source,
    parser: &mut PlainEnglish,
    offset: Offset,
    depth: usize,
) -> (tokens: Option<Vec<Token>>)
    requires
        offset@.well_formed(),
    ensures
        token_seq(tokens) == child_pattern_tokens(*doc, *node, offset@, depth as nat),
        tokens matches Some(tokens) ==> tokens_fit(tokens@, offset.source@.len()),
    decreases depth, 1nat, 0nat,
{
    match node {
        Some(node) => match offset.push_to_span(doc, node) {
            Some(start) => parse_pattern(node, doc, parser, start, depth),
            None => None,
        },
        None => None,
    }
}

fn parse_inner(
    node: &Option<SyntaxNode>,
    doc: &Source,
    parser: &mut PlainEnglish,
    inner: Offset,
    depth: usize,
) -> (tokens: Option<Vec<Token>>)
    requires
        inner@.well_formed(),
    ensures
        token_seq(tokens) == inner_tokens(*doc, *node, Some(inner@), depth as nat),
        tokens matches Some(tokens) ==> tokens_fit(tokens@, inner.source@.len()),
    decreases depth, 1nat, 0nat,
{
    match node {
        Some(node) => parse_expr(node, doc, parser, inner, depth),
        None => None,
    }
}

fn parse_binding(
    binding: &Option<Binding>,
    doc: &Source,
    parser: &mut PlainEnglish,
    offset: Offset,
    depth: usize,
) -> (tokens: Option<Vec<Token>>)
    requires
        offset@.well_formed(),
    ensures
        token_seq(tokens) == binding_tokens(*doc, *binding, offset@, depth as nat),
        tokens matches Some(tokens) ==> tokens_fit(tokens@, offset.source@.len()),
    decreases depth, 2nat, 0nat,
{
    match binding {
        Some(Binding::Normal(pattern)) => match offset.push_to_span(doc, pattern) {
            Some(start) => parse_pattern(pattern, doc, parser, start, depth),
            None => None,
        },
        Some(Binding::Closure(name)) => constant_token(tree::node_range(doc, name), word_kind(), offset),
        None => None,
    }
}

fn parse_spread(
    node: &SyntaxNode,
    doc: &Source,
    parser: &mut PlainEnglish,
    offset: Offset,
    depth: usize,
) -> (tokens: Option<Vec<Token>>)
    requires
        offset@.well_formed(),
    ensures
        token_seq(tokens) == spread_tokens(*doc, *node, offset@, depth as nat),
        tokens matches Some(tokens) ==> tokens_fit(tokens@, offset.source@.len()),
    decreases depth, 2nat, 0nat,
{
    match tree::spread_sink_ident(node) {
        Some(name) => constant_token(tree::node_range(doc, &name), word_kind(), offset),
        None => parse_child(&tree::spread_sink_expr(node), doc, parser, offset, depth),
    }
}

fn parse_dict_item(
    item: &SyntaxNode,
    doc: &Source,
    parser: &mut PlainEnglish,
    offset: Offset,
    depth: usize,
) -> (tokens: Option<Vec<Token>>)
    requires
        offset@.well_formed(),
    ensures
        token_seq(tokens) == dict_item_tokens(*doc, *item, offset@, depth as nat),
        tokens matches Some(tokens) ==> tokens_fit(tokens@, offset.source@.len()),
    decreases depth, 3nat, 0nat,
{
    let name = tree::kind_name(item);
    match classify(name.as_str()) {
        NodeKind::Named => {
            let mut tokens: Vec<Token> = Vec::new();
            let key = constant_token(range_of_node(doc, &tree::named_name(item)), word_kind(), offset);
            append(&mut tokens, key);
            let value = parse_child(&tree::named_expr(item), doc, parser, offset, depth);
            append(&mut tokens, value);
            Some(tokens)
        },
        NodeKind::Keyed => {
            let mut tokens: Vec<Token> = Vec::new();
            let key = parse_child(&tree::keyed_key(item), doc, parser, offset, depth);
            append(&mut tokens, key);
            let value = parse_child(&tree::keyed_expr(item), doc, parser, offset, depth);
            append(&mut tokens, value);
            Some(tokens)
        },
        NodeKind::Spread => parse_spread(item, doc, parser, offset, depth),
        _ => None,
    }
}

fn parse_destructuring_item(
    item: &SyntaxNode,
    doc: &Source,
    parser: &mut PlainEnglish,
    offset: Offset,
    depth: usize,
) -> (tokens: Option<Vec<Token>>)
    requires
        offset@.well_formed(),
    ensures
        token_seq(tokens) == destructuring_item_tokens(*doc, *item, offset@, depth as nat),
        tokens matches Some(tokens) ==> tokens_fit(tokens@, offset.source@.len()),
    decreases depth, 3nat, 0nat,
{
    let name = tree::kind_name(item);
    match classify(name.as_str()) {
        NodeKind::Named => {
            let mut tokens: Vec<Token> = Vec::new();
            let key = constant_token(range_of_node(doc, &tree::named_name(item)), word_kind(), offset);
            append(&mut tokens, key);
            let bound = parse_child_pattern(&tree::named_pattern(item), doc, parser, offset, depth);
            append(&mut tokens, bound);
            Some(tokens)
        },
        NodeKind::Spread => parse_spread(item, doc, parser, offset, depth),
        _ => match offset.push_to_span(doc, item) {
            Some(start) => parse_pattern(item, doc, parser, start, depth),
            None => None,
        },
    }
}

/// The tokens of a list of expressions, all walked with the same
/// cursor. An expression without a result adds nothing.
pub fn parse_nested(
    nodes: &Vec<SyntaxNode>,
    doc: &Source,
    parser: &mut PlainEnglish,
    offset: Offset,
    depth: usize,
) -> (tokens: Vec<Token>)
    requires
        offset@.well_formed(),
    ensures
        tokens@ == nested_tokens(*doc, nodes@, nodes@.len() as int, offset@, depth as nat),
        tokens_fit(tokens@, offset.source@.len()),
    decreases depth, 4nat, 0nat,
{
    let mut tokens: Vec<Token> = Vec::new();
    let mut i: usize = 0;
    while i < nodes.len()
        invariant
            i <= nodes@.len(),
            offset@.well_formed(),
            tokens@ == nested_tokens(*doc, nodes@, i as int, offset@, depth as nat),
            tokens_fit(tokens@, offset.source@.len()),
        decreases nodes@.len() - i,
    {
        let found = parse_expr(&nodes[i], doc, parser, offset, depth);
        append(&mut tokens, found);
        i = i + 1;
    }
    tokens
}

fn parse_array(
    items: &Vec<SyntaxNode>,
    doc: &Source,
    parser: &mut PlainEnglish,
    offset: Offset,
    depth: usize,
) -> (tokens: Vec<Token>)
    requires
        offset@.well_formed(),
    ensures
        tokens@ == array_tokens(*doc, items@, items@.len() as int, offset@, depth as nat),
        tokens_fit(tokens@, offset.source@.len()),
    decreases depth, 4nat, 0nat,
{
    let mut tokens: Vec<Token> = Vec::new();
    let mut i: usize = 0;
    while i < items.len()
        invariant
            i <= items@.len(),
            offset@.well_formed(),
            tokens@ == array_tokens(*doc, items@, i as int, offset@, depth as nat),
            tokens_fit(tokens@, offset.source@.len()),
        decreases items@.len() - i,
    {
        let name = tree::kind_name(&items[i]);
        if classify(name.as_str()) != NodeKind::Spread {
            let found = parse_expr(&items[i], doc, parser, offset, depth);
            append(&mut tokens, found);
        }
        i = i + 1;
    }
    tokens
}

/// The tokens of the items of a dictionary.
pub fn parse_dict(
    items: &Vec<SyntaxNode>,
    doc: &Source,
    parser: &mut PlainEnglish,
    offset: Offset,
    depth: usize,
) -> (tokens: Vec<Token>)
    requires
        offset@.well_formed(),
    ensures
        tokens@ == dict_tokens(*doc, items@, items@.len() as int, offset@, depth as nat),
        tokens_fit(tokens@, offset.source@.len()),
    decreases depth, 4nat, 0nat,
{
    let mut tokens: Vec<Token> = Vec::new();
    let mut i: usize = 0;
    while i < items.len()
        invariant
            i <= items@.len(),
            offset@.well_formed(),
            tokens@ == dict_tokens(*doc, items@, i as int, offset@, depth as nat),
            tokens_fit(tokens@, offset.source@.len()),
        decreases items@.len() - i,
    {
        let found = parse_dict_item(&items[i], doc, parser, offset, depth);
        append(&mut tokens, found);
        i = i + 1;
    }
    tokens
}

fn parse_destructuring(
    items: &Vec<SyntaxNode>,
    doc: &Source,
    parser: &mut PlainEnglish,
    offset: Offset,
    depth: usize,
) -> (tokens: Vec<Token>)
    requires
        offset@.well_formed(),
    ensures
        tokens@ == destructuring_tokens(*doc, items@, items@.len() as int, offset@, depth as nat),
        tokens_fit(tokens@, offset.source@.len()),
    decreases depth, 4nat, 0nat,
{
    let mut tokens: Vec<Token> = Vec::new();
    let mut i: usize = 0;
    while i < items.len()
        invariant
            i <= items@.len(),
            offset@.well_formed(),
            tokens@ == destructuring_tokens(*doc, items@, i as int, offset@, depth as nat),
            tokens_fit(tokens@, offset.source@.len()),
        decreases items@.len() - i,
    {
        let found = parse_destructuring_item(&items[i], doc, parser, offset, depth);
        append(&mut tokens, found);
        i = i + 1;
    }
    tokens
}

fn parse_body(
    body: &Option<SyntaxNode>,
    doc: &Source,
    parser: &mut PlainEnglish,
    inner: Offset,
    depth: usize,
) -> (tokens: Option<Vec<Token>>)
    requires
        inner@.well_formed(),
    ensures
        token_seq(tokens) == body_tokens(*doc, *body, Some(inner@), depth as nat),
        tokens matches Some(tokens) ==> tokens_fit(tokens@, inner.source@.len()),
    decreases depth, 5nat, 0nat,
{
    match body {
        Some(body) => match tree::markup_exprs(body) {
            Some(exprs) => Some(parse_nested(&exprs, doc, parser, inner, depth)),
            None => None,
        },
        None => None,
    }
}

impl Typst {
    /// The tokens of a Typst document given as a string.
    pub fn parse_str(&mut self, text: &str) -> (tokens: Vec<Token>)
        ensures
            tokens@ == old(self).parsed(text@),
    {
        let chars = chars_of(text);
        self.parse(chars.as_slice())
    }

    /// The tokens of a Typst document before words are joined across
    /// apostrophes. Every one of them fits the source.
    pub fn parse_document(source: &[char]) -> (tokens: Vec<Token>)
        ensures
            tokens@ == document_tokens(source@),
            tokens_fit(tokens@, source@.len()),
    {
        let mut english_parser = PlainEnglish;
        let text = string_from_chars(source);
        let doc = tree::parse_source(text.as_str());
        let root = tree::source_root(&doc);
        match tree::markup_exprs(&root) {
            Some(exprs) => parse_nested(
                &exprs,
                &doc,
                &mut english_parser,
                Offset::new(source),
                usize::MAX,
            ),
            None => Vec::new(),
        }
    }
}

impl Parser for Typst {
    open spec fn parsed(&self, source: Seq<char>) -> Seq<Token> {
        consolidated(document_tokens(source), source, 0)
    }

    /// The tokens of a Typst document. They fit the source where no
    /// group of word, apostrophe, word starts behind its own end, and
    /// they are in source order where the walk gives them so.
    fn parse(&mut self, source: &[char]) -> (tokens: Vec<Token>)
        ensures
            groups_in_order(document_tokens(source@)) ==> tokens_fit(tokens@, source@.len()),
            tokens_ordered(document_tokens(source@)) ==> tokens_ordered(tokens@),
    {
        let mut tokens = Typst::parse_document(source);
        // Consolidate conjunctions
        consolidate_apostrophes(&mut tokens, source);
        tokens
    }
}

} // verus!
