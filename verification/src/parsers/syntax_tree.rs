//! The syntax tree of the Typst parser, as far as the adapter reads it.
//!
//! The tree stays a value of `typst_syntax`. Each function here calls into
//! that crate and hands back nodes, texts and numbers; its contract gives
//! the result a name and claims nothing else of it. None of these
//! contracts is proved: they say that the call is a function of its
//! arguments.

use vstd::prelude::*;
use typst_syntax::ast::AstNode;
use typst_syntax::{Source, SyntaxNode};

verus! {

/// A node of the untyped syntax tree that the Typst parser builds.
#[verifier::external_type_specification]
#[verifier::external_body]
pub struct ExSyntaxNode(typst_syntax::SyntaxNode);

/// A parsed Typst source file.
#[verifier::external_type_specification]
#[verifier::external_body]
pub struct ExSource(typst_syntax::Source);

/// How a let binding binds: a pattern, or the name of a function that it
/// defines.
pub enum Binding {
    Normal(SyntaxNode),
    Closure(SyntaxNode),
}

/// Names the file that the Typst parser makes of a text.
pub uninterp spec fn parsed_source(text: Seq<char>) -> Source;

/// `typst_syntax::Source::detached`: parses a text into a source file without a
/// path.
#[verifier::external_body]
pub(crate) fn parse_source(text: &str) -> (doc: Source)
    ensures
        doc == parsed_source(text@),
{
    Source::detached(text)
}

/// Names the root of a source file's syntax tree.
pub uninterp spec fn source_root_of(doc: Source) -> SyntaxNode;

/// `typst_syntax::Source::root`: the root node of the file's syntax tree.
#[verifier::external_body]
pub(crate) fn source_root(doc: &Source) -> (root: SyntaxNode)
    ensures
        root == source_root_of(*doc),
{
    doc.root().clone()
}

/// Names the byte range that a source file gives for a node's span.
pub uninterp spec fn node_range_of(doc: Source, node: SyntaxNode) -> Option<(usize, usize)>;

/// `typst_syntax::Source::range` of `SyntaxNode::span`: the start and end, in
/// bytes, of the node in the file, or `None` where the node's span does not
/// point into the file.
#[verifier::external_body]
pub(crate) fn node_range(doc: &Source, node: &SyntaxNode) -> (range: Option<(usize, usize)>)
    ensures
        range == node_range_of(*doc, *node),
{
    let range = doc.range(node.span())?;
    Some((range.start, range.end))
}

/// Names the `Debug` rendering of a node's kind.
pub uninterp spec fn kind_name_of(node: SyntaxNode) -> Seq<char>;

/// `typst_syntax::SyntaxNode::kind`, rendered by the `Debug` that `SyntaxKind`
/// derives: the name of the variant, such as `Text`.
#[verifier::external_body]
pub(crate) fn kind_name(node: &SyntaxNode) -> (name: String)
    ensures
        name@ == kind_name_of(*node),
{
    format!("{:?}", node.kind())
}

/// Names the text that a node holds.
pub uninterp spec fn node_text_of(node: SyntaxNode) -> Seq<char>;

/// `typst_syntax::SyntaxNode::text`: the text of a leaf, empty for an inner
/// node.
#[verifier::external_body]
pub(crate) fn node_text(node: &SyntaxNode) -> (text: String)
    ensures
        text@ == node_text_of(*node),
{
    node.text().to_string()
}

/// Names what `Text::get` gives for a node.
pub uninterp spec fn text_get_of(node: SyntaxNode) -> Option<Seq<char>>;

/// `typst_syntax::ast::Text::get`: the text of a text node. `None` where the
/// node is no `Text`.
#[verifier::external_body]
pub(crate) fn text_get(node: &SyntaxNode) -> (text: Option<String>)
    ensures
        match text {
            Some(text) => text_get_of(*node) == Some(text@),
            None => text_get_of(*node) is None,
        },
{
    let typed: typst_syntax::ast::Text = node.cast()?;
    Some(typed.get().to_string())
}

/// Names what `Label::get` gives for a node.
pub uninterp spec fn label_get_of(node: SyntaxNode) -> Option<Seq<char>>;

/// `typst_syntax::ast::Label::get`: the text of a label without its angle
/// brackets. `None` where the node is no `Label`.
#[verifier::external_body]
pub(crate) fn label_get(node: &SyntaxNode) -> (text: Option<String>)
    ensures
        match text {
            Some(text) => label_get_of(*node) == Some(text@),
            None => label_get_of(*node) is None,
        },
{
    let typed: typst_syntax::ast::Label = node.cast()?;
    Some(typed.get().to_string())
}

/// Names what `SmartQuote::double` gives for a node.
pub uninterp spec fn smart_quote_double_of(node: SyntaxNode) -> Option<bool>;

/// `typst_syntax::ast::SmartQuote::double`: whether a smart quote is a double
/// quote. `None` where the node is no `SmartQuote`.
#[verifier::external_body]
pub(crate) fn smart_quote_double(node: &SyntaxNode) -> (double: Option<bool>)
    ensures
        double == smart_quote_double_of(*node),
{
    let typed: typst_syntax::ast::SmartQuote = node.cast()?;
    Some(typed.double())
}

/// Names what `Int::get` gives for a node.
pub uninterp spec fn int_get_of(node: SyntaxNode) -> Option<i64>;

/// `typst_syntax::ast::Int::get`: the value of an integer literal. `None` where
/// the node is no `Int`.
#[verifier::external_body]
pub(crate) fn int_get(node: &SyntaxNode) -> (value: Option<i64>)
    ensures
        value == int_get_of(*node),
{
    let typed: typst_syntax::ast::Int = node.cast()?;
    Some(typed.get())
}

/// Names the bits of what `Float::get` gives for a node.
pub uninterp spec fn float_bits_of(node: SyntaxNode) -> Option<u64>;

/// `typst_syntax::ast::Float::get`: the value of a floating-point literal, as
/// the bits of the double. `None` where the node is no `Float`.
#[verifier::external_body]
pub(crate) fn float_bits(node: &SyntaxNode) -> (bits: Option<u64>)
    ensures
        bits == float_bits_of(*node),
{
    let typed: typst_syntax::ast::Float = node.cast()?;
    Some(typed.get().to_bits())
}

/// Names what `LetBinding::kind` gives for a node.
pub uninterp spec fn let_binding_kind_of(node: SyntaxNode) -> Option<Binding>;

/// `typst_syntax::ast::LetBinding::kind`: the pattern that a let binding binds,
/// or the name of the function that it defines, as an untyped node. `None`
/// where the node is no `LetBinding`.
#[verifier::external_body]
pub(crate) fn let_binding_kind(node: &SyntaxNode) -> (found: Option<Binding>)
    ensures
        found == let_binding_kind_of(*node),
{
    let typed: typst_syntax::ast::LetBinding = node.cast()?;
    Some(match typed.kind() {
        typst_syntax::ast::LetBindingKind::Normal(pattern) => {
            Binding::Normal(pattern.to_untyped().clone())
        },
        typst_syntax::ast::LetBindingKind::Closure(name) => {
            Binding::Closure(name.to_untyped().clone())
        },
    })
}

/// Names what `Strong::body` gives for a node.
pub uninterp spec fn strong_body_of(node: SyntaxNode) -> Option<SyntaxNode>;

/// `typst_syntax::ast::Strong::body`: the body of strong content, as an untyped
/// node. `None` where the node is no `Strong`.
#[verifier::external_body]
pub(crate) fn strong_body(node: &SyntaxNode) -> (found: Option<SyntaxNode>)
    ensures
        found == strong_body_of(*node),
{
    let typed: typst_syntax::ast::Strong = node.cast()?;
    Some(typed.body().to_untyped().clone())
}

/// Names what `Emph::body` gives for a node.
pub uninterp spec fn emph_body_of(node: SyntaxNode) -> Option<SyntaxNode>;

/// `typst_syntax::ast::Emph::body`: the body of emphasized content, as an
/// untyped node. `None` where the node is no `Emph`.
#[verifier::external_body]
pub(crate) fn emph_body(node: &SyntaxNode) -> (found: Option<SyntaxNode>)
    ensures
        found == emph_body_of(*node),
{
    let typed: typst_syntax::ast::Emph = node.cast()?;
    Some(typed.body().to_untyped().clone())
}

/// Names what `Heading::body` gives for a node.
pub uninterp spec fn heading_body_of(node: SyntaxNode) -> Option<SyntaxNode>;

/// `typst_syntax::ast::Heading::body`: the body of a heading, as an untyped
/// node. `None` where the node is no `Heading`.
#[verifier::external_body]
pub(crate) fn heading_body(node: &SyntaxNode) -> (found: Option<SyntaxNode>)
    ensures
        found == heading_body_of(*node),
{
    let typed: typst_syntax::ast::Heading = node.cast()?;
    Some(typed.body().to_untyped().clone())
}

/// Names what `ListItem::body` gives for a node.
pub uninterp spec fn list_item_body_of(node: SyntaxNode) -> Option<SyntaxNode>;

/// `typst_syntax::ast::ListItem::body`: the body of a bullet list item, as an
/// untyped node. `None` where the node is no `ListItem`.
#[verifier::external_body]
pub(crate) fn list_item_body(node: &SyntaxNode) -> (found: Option<SyntaxNode>)
    ensures
        found == list_item_body_of(*node),
{
    let typed: typst_syntax::ast::ListItem = node.cast()?;
    Some(typed.body().to_untyped().clone())
}

/// Names what `EnumItem::body` gives for a node.
pub uninterp spec fn enum_item_body_of(node: SyntaxNode) -> Option<SyntaxNode>;

/// `typst_syntax::ast::EnumItem::body`: the body of a numbered list item, as an
/// untyped node. `None` where the node is no `EnumItem`.
#[verifier::external_body]
pub(crate) fn enum_item_body(node: &SyntaxNode) -> (found: Option<SyntaxNode>)
    ensures
        found == enum_item_body_of(*node),
{
    let typed: typst_syntax::ast::EnumItem = node.cast()?;
    Some(typed.body().to_untyped().clone())
}

/// Names what `TermItem::term` gives for a node.
pub uninterp spec fn term_item_term_of(node: SyntaxNode) -> Option<SyntaxNode>;

/// `typst_syntax::ast::TermItem::term`: the term of a term list item, as an
/// untyped node. `None` where the node is no `TermItem`.
#[verifier::external_body]
pub(crate) fn term_item_term(node: &SyntaxNode) -> (found: Option<SyntaxNode>)
    ensures
        found == term_item_term_of(*node),
{
    let typed: typst_syntax::ast::TermItem = node.cast()?;
    Some(typed.term().to_untyped().clone())
}

/// Names what `TermItem::description` gives for a node.
pub uninterp spec fn term_item_description_of(node: SyntaxNode) -> Option<SyntaxNode>;

/// `typst_syntax::ast::TermItem::description`: the description of a term list
/// item, as an untyped node. `None` where the node is no `TermItem`.
#[verifier::external_body]
pub(crate) fn term_item_description(node: &SyntaxNode) -> (found: Option<SyntaxNode>)
    ensures
        found == term_item_description_of(*node),
{
    let typed: typst_syntax::ast::TermItem = node.cast()?;
    Some(typed.description().to_untyped().clone())
}

/// Names what `ContentBlock::body` gives for a node.
pub uninterp spec fn content_block_body_of(node: SyntaxNode) -> Option<SyntaxNode>;

/// `typst_syntax::ast::ContentBlock::body`: the markup inside a content block,
/// as an untyped node. `None` where the node is no `ContentBlock`.
#[verifier::external_body]
pub(crate) fn content_block_body(node: &SyntaxNode) -> (found: Option<SyntaxNode>)
    ensures
        found == content_block_body_of(*node),
{
    let typed: typst_syntax::ast::ContentBlock = node.cast()?;
    Some(typed.body().to_untyped().clone())
}

/// Names what `Parenthesized::expr` gives for a node.
pub uninterp spec fn parenthesized_expr_of(node: SyntaxNode) -> Option<SyntaxNode>;

/// `typst_syntax::ast::Parenthesized::expr`: the expression inside the
/// parentheses, as an untyped node. `None` where the node is no
/// `Parenthesized`.
#[verifier::external_body]
pub(crate) fn parenthesized_expr(node: &SyntaxNode) -> (found: Option<SyntaxNode>)
    ensures
        found == parenthesized_expr_of(*node),
{
    let typed: typst_syntax::ast::Parenthesized = node.cast()?;
    Some(typed.expr().to_untyped().clone())
}

/// Names what `Parenthesized::pattern` gives for a node.
pub uninterp spec fn parenthesized_pattern_of(node: SyntaxNode) -> Option<SyntaxNode>;

/// `typst_syntax::ast::Parenthesized::pattern`: the pattern inside the
/// parentheses, as an untyped node. `None` where the node is no
/// `Parenthesized`.
#[verifier::external_body]
pub(crate) fn parenthesized_pattern(node: &SyntaxNode) -> (found: Option<SyntaxNode>)
    ensures
        found == parenthesized_pattern_of(*node),
{
    let typed: typst_syntax::ast::Parenthesized = node.cast()?;
    Some(typed.pattern().to_untyped().clone())
}

/// Names what `Named::name` gives for a node.
pub uninterp spec fn named_name_of(node: SyntaxNode) -> Option<SyntaxNode>;

/// `typst_syntax::ast::Named::name`: the name of a named pair, as an untyped
/// node. `None` where the node is no `Named`.
#[verifier::external_body]
pub(crate) fn named_name(node: &SyntaxNode) -> (found: Option<SyntaxNode>)
    ensures
        found == named_name_of(*node),
{
    let typed: typst_syntax::ast::Named = node.cast()?;
    Some(typed.name().to_untyped().clone())
}

/// Names what `Named::expr` gives for a node.
pub uninterp spec fn named_expr_of(node: SyntaxNode) -> Option<SyntaxNode>;

/// `typst_syntax::ast::Named::expr`: the right-hand side of a named pair, as an
/// expression, as an untyped node. `None` where the node is no `Named`.
#[verifier::external_body]
pub(crate) fn named_expr(node: &SyntaxNode) -> (found: Option<SyntaxNode>)
    ensures
        found == named_expr_of(*node),
{
    let typed: typst_syntax::ast::Named = node.cast()?;
    Some(typed.expr().to_untyped().clone())
}

/// Names what `Named::pattern` gives for a node.
pub uninterp spec fn named_pattern_of(node: SyntaxNode) -> Option<SyntaxNode>;

/// `typst_syntax::ast::Named::pattern`: the right-hand side of a named pair, as
/// a pattern, as an untyped node. `None` where the node is no `Named`.
#[verifier::external_body]
pub(crate) fn named_pattern(node: &SyntaxNode) -> (found: Option<SyntaxNode>)
    ensures
        found == named_pattern_of(*node),
{
    let typed: typst_syntax::ast::Named = node.cast()?;
    Some(typed.pattern().to_untyped().clone())
}

/// Names what `Keyed::key` gives for a node.
pub uninterp spec fn keyed_key_of(node: SyntaxNode) -> Option<SyntaxNode>;

/// `typst_syntax::ast::Keyed::key`: the key of a keyed pair, as an untyped
/// node. `None` where the node is no `Keyed`.
#[verifier::external_body]
pub(crate) fn keyed_key(node: &SyntaxNode) -> (found: Option<SyntaxNode>)
    ensures
        found == keyed_key_of(*node),
{
    let typed: typst_syntax::ast::Keyed = node.cast()?;
    Some(typed.key().to_untyped().clone())
}

/// Names what `Keyed::expr` gives for a node.
pub uninterp spec fn keyed_expr_of(node: SyntaxNode) -> Option<SyntaxNode>;

/// `typst_syntax::ast::Keyed::expr`: the right-hand side of a keyed pair, as an
/// untyped node. `None` where the node is no `Keyed`.
#[verifier::external_body]
pub(crate) fn keyed_expr(node: &SyntaxNode) -> (found: Option<SyntaxNode>)
    ensures
        found == keyed_expr_of(*node),
{
    let typed: typst_syntax::ast::Keyed = node.cast()?;
    Some(typed.expr().to_untyped().clone())
}

/// Names what `Spread::sink_ident` gives for a node.
pub uninterp spec fn spread_sink_ident_of(node: SyntaxNode) -> Option<SyntaxNode>;

/// `typst_syntax::ast::Spread::sink_ident`: the identifier that a spread binds,
/// if it has one, as an untyped node. `None` also where the node is no
/// `Spread`.
#[verifier::external_body]
pub(crate) fn spread_sink_ident(node: &SyntaxNode) -> (found: Option<SyntaxNode>)
    ensures
        found == spread_sink_ident_of(*node),
{
    let typed: typst_syntax::ast::Spread = node.cast()?;
    Some(typed.sink_ident()?.to_untyped().clone())
}

/// Names what `Spread::sink_expr` gives for a node.
pub uninterp spec fn spread_sink_expr_of(node: SyntaxNode) -> Option<SyntaxNode>;

/// `typst_syntax::ast::Spread::sink_expr`: the expression that a spread binds,
/// if it has one, as an untyped node. `None` also where the node is no
/// `Spread`.
#[verifier::external_body]
pub(crate) fn spread_sink_expr(node: &SyntaxNode) -> (found: Option<SyntaxNode>)
    ensures
        found == spread_sink_expr_of(*node),
{
    let typed: typst_syntax::ast::Spread = node.cast()?;
    Some(typed.sink_expr()?.to_untyped().clone())
}

/// Names what `FieldAccess::target` gives for a node.
pub uninterp spec fn field_access_target_of(node: SyntaxNode) -> Option<SyntaxNode>;

/// `typst_syntax::ast::FieldAccess::target`: the expression whose field is
/// read, as an untyped node. `None` where the node is no `FieldAccess`.
#[verifier::external_body]
pub(crate) fn field_access_target(node: &SyntaxNode) -> (found: Option<SyntaxNode>)
    ensures
        found == field_access_target_of(*node),
{
    let typed: typst_syntax::ast::FieldAccess = node.cast()?;
    Some(typed.target().to_untyped().clone())
}

/// Names what `FieldAccess::field` gives for a node.
pub uninterp spec fn field_access_field_of(node: SyntaxNode) -> Option<SyntaxNode>;

/// `typst_syntax::ast::FieldAccess::field`: the name of the field, as an
/// untyped node. `None` where the node is no `FieldAccess`.
#[verifier::external_body]
pub(crate) fn field_access_field(node: &SyntaxNode) -> (found: Option<SyntaxNode>)
    ensures
        found == field_access_field_of(*node),
{
    let typed: typst_syntax::ast::FieldAccess = node.cast()?;
    Some(typed.field().to_untyped().clone())
}

/// Names what `LetBinding::init` gives for a node.
pub uninterp spec fn let_binding_init_of(node: SyntaxNode) -> Option<SyntaxNode>;

/// `typst_syntax::ast::LetBinding::init`: the expression that initializes a
/// binding, if it has one, as an untyped node. `None` also where the node is no
/// `LetBinding`.
#[verifier::external_body]
pub(crate) fn let_binding_init(node: &SyntaxNode) -> (found: Option<SyntaxNode>)
    ensures
        found == let_binding_init_of(*node),
{
    let typed: typst_syntax::ast::LetBinding = node.cast()?;
    Some(typed.init()?.to_untyped().clone())
}

/// Names what `DestructAssignment::value` gives for a node.
pub uninterp spec fn destruct_assignment_value_of(node: SyntaxNode) -> Option<SyntaxNode>;

/// `typst_syntax::ast::DestructAssignment::value`: the expression that is
/// assigned, as an untyped node. `None` where the node is no
/// `DestructAssignment`.
#[verifier::external_body]
pub(crate) fn destruct_assignment_value(node: &SyntaxNode) -> (found: Option<SyntaxNode>)
    ensures
        found == destruct_assignment_value_of(*node),
{
    let typed: typst_syntax::ast::DestructAssignment = node.cast()?;
    Some(typed.value().to_untyped().clone())
}

/// Names what `SetRule::target` gives for a node.
pub uninterp spec fn set_rule_target_of(node: SyntaxNode) -> Option<SyntaxNode>;

/// `typst_syntax::ast::SetRule::target`: the function that a set rule
/// configures, as an untyped node. `None` where the node is no `SetRule`.
#[verifier::external_body]
pub(crate) fn set_rule_target(node: &SyntaxNode) -> (found: Option<SyntaxNode>)
    ensures
        found == set_rule_target_of(*node),
{
    let typed: typst_syntax::ast::SetRule = node.cast()?;
    Some(typed.target().to_untyped().clone())
}

/// Names what `SetRule::condition` gives for a node.
pub uninterp spec fn set_rule_condition_of(node: SyntaxNode) -> Option<SyntaxNode>;

/// `typst_syntax::ast::SetRule::condition`: the condition of a set rule, if it
/// has one, as an untyped node. `None` also where the node is no `SetRule`.
#[verifier::external_body]
pub(crate) fn set_rule_condition(node: &SyntaxNode) -> (found: Option<SyntaxNode>)
    ensures
        found == set_rule_condition_of(*node),
{
    let typed: typst_syntax::ast::SetRule = node.cast()?;
    Some(typed.condition()?.to_untyped().clone())
}

/// Names what `ShowRule::transform` gives for a node.
pub uninterp spec fn show_rule_transform_of(node: SyntaxNode) -> Option<SyntaxNode>;

/// `typst_syntax::ast::ShowRule::transform`: the recipe of a show rule, as an
/// untyped node. `None` where the node is no `ShowRule`.
#[verifier::external_body]
pub(crate) fn show_rule_transform(node: &SyntaxNode) -> (found: Option<SyntaxNode>)
    ensures
        found == show_rule_transform_of(*node),
{
    let typed: typst_syntax::ast::ShowRule = node.cast()?;
    Some(typed.transform().to_untyped().clone())
}

/// Names what `ShowRule::selector` gives for a node.
pub uninterp spec fn show_rule_selector_of(node: SyntaxNode) -> Option<SyntaxNode>;

/// `typst_syntax::ast::ShowRule::selector`: the selector of a show rule, if it
/// has one, as an untyped node. `None` also where the node is no `ShowRule`.
#[verifier::external_body]
pub(crate) fn show_rule_selector(node: &SyntaxNode) -> (found: Option<SyntaxNode>)
    ensures
        found == show_rule_selector_of(*node),
{
    let typed: typst_syntax::ast::ShowRule = node.cast()?;
    Some(typed.selector()?.to_untyped().clone())
}

/// Names what `Contextual::body` gives for a node.
pub uninterp spec fn contextual_body_of(node: SyntaxNode) -> Option<SyntaxNode>;

/// `typst_syntax::ast::Contextual::body`: the expression that depends on the
/// context, as an untyped node. `None` where the node is no `Contextual`.
#[verifier::external_body]
pub(crate) fn contextual_body(node: &SyntaxNode) -> (found: Option<SyntaxNode>)
    ensures
        found == contextual_body_of(*node),
{
    let typed: typst_syntax::ast::Contextual = node.cast()?;
    Some(typed.body().to_untyped().clone())
}

/// Names what `Conditional::condition` gives for a node.
pub uninterp spec fn conditional_condition_of(node: SyntaxNode) -> Option<SyntaxNode>;

/// `typst_syntax::ast::Conditional::condition`: the condition of a conditional,
/// as an untyped node. `None` where the node is no `Conditional`.
#[verifier::external_body]
pub(crate) fn conditional_condition(node: &SyntaxNode) -> (found: Option<SyntaxNode>)
    ensures
        found == conditional_condition_of(*node),
{
    let typed: typst_syntax::ast::Conditional = node.cast()?;
    Some(typed.condition().to_untyped().clone())
}

/// Names what `Conditional::if_body` gives for a node.
pub uninterp spec fn conditional_if_body_of(node: SyntaxNode) -> Option<SyntaxNode>;

/// `typst_syntax::ast::Conditional::if_body`: the branch taken where the
/// condition holds, as an untyped node. `None` where the node is no
/// `Conditional`.
#[verifier::external_body]
pub(crate) fn conditional_if_body(node: &SyntaxNode) -> (found: Option<SyntaxNode>)
    ensures
        found == conditional_if_body_of(*node),
{
    let typed: typst_syntax::ast::Conditional = node.cast()?;
    Some(typed.if_body().to_untyped().clone())
}

/// Names what `Conditional::else_body` gives for a node.
pub uninterp spec fn conditional_else_body_of(node: SyntaxNode) -> Option<SyntaxNode>;

/// `typst_syntax::ast::Conditional::else_body`: the branch taken where the
/// condition fails, if there is one, as an untyped node. `None` also where the
/// node is no `Conditional`.
#[verifier::external_body]
pub(crate) fn conditional_else_body(node: &SyntaxNode) -> (found: Option<SyntaxNode>)
    ensures
        found == conditional_else_body_of(*node),
{
    let typed: typst_syntax::ast::Conditional = node.cast()?;
    Some(typed.else_body()?.to_untyped().clone())
}

/// Names what `WhileLoop::condition` gives for a node.
pub uninterp spec fn while_loop_condition_of(node: SyntaxNode) -> Option<SyntaxNode>;

/// `typst_syntax::ast::WhileLoop::condition`: the condition of a while loop, as
/// an untyped node. `None` where the node is no `WhileLoop`.
#[verifier::external_body]
pub(crate) fn while_loop_condition(node: &SyntaxNode) -> (found: Option<SyntaxNode>)
    ensures
        found == while_loop_condition_of(*node),
{
    let typed: typst_syntax::ast::WhileLoop = node.cast()?;
    Some(typed.condition().to_untyped().clone())
}

/// Names what `WhileLoop::body` gives for a node.
pub uninterp spec fn while_loop_body_of(node: SyntaxNode) -> Option<SyntaxNode>;

/// `typst_syntax::ast::WhileLoop::body`: the body of a while loop, as an
/// untyped node. `None` where the node is no `WhileLoop`.
#[verifier::external_body]
pub(crate) fn while_loop_body(node: &SyntaxNode) -> (found: Option<SyntaxNode>)
    ensures
        found == while_loop_body_of(*node),
{
    let typed: typst_syntax::ast::WhileLoop = node.cast()?;
    Some(typed.body().to_untyped().clone())
}

/// Names what `ForLoop::iterable` gives for a node.
pub uninterp spec fn for_loop_iterable_of(node: SyntaxNode) -> Option<SyntaxNode>;

/// `typst_syntax::ast::ForLoop::iterable`: the expression that a for loop
/// walks, as an untyped node. `None` where the node is no `ForLoop`.
#[verifier::external_body]
pub(crate) fn for_loop_iterable(node: &SyntaxNode) -> (found: Option<SyntaxNode>)
    ensures
        found == for_loop_iterable_of(*node),
{
    let typed: typst_syntax::ast::ForLoop = node.cast()?;
    Some(typed.iterable().to_untyped().clone())
}

/// Names what `ForLoop::body` gives for a node.
pub uninterp spec fn for_loop_body_of(node: SyntaxNode) -> Option<SyntaxNode>;

/// `typst_syntax::ast::ForLoop::body`: the body of a for loop, as an untyped
/// node. `None` where the node is no `ForLoop`.
#[verifier::external_body]
pub(crate) fn for_loop_body(node: &SyntaxNode) -> (found: Option<SyntaxNode>)
    ensures
        found == for_loop_body_of(*node),
{
    let typed: typst_syntax::ast::ForLoop = node.cast()?;
    Some(typed.body().to_untyped().clone())
}

/// Names what `ModuleImport::source` gives for a node.
pub uninterp spec fn module_import_source_of(node: SyntaxNode) -> Option<SyntaxNode>;

/// `typst_syntax::ast::ModuleImport::source`: the module or path that is
/// imported, as an untyped node. `None` where the node is no `ModuleImport`.
#[verifier::external_body]
pub(crate) fn module_import_source(node: &SyntaxNode) -> (found: Option<SyntaxNode>)
    ensures
        found == module_import_source_of(*node),
{
    let typed: typst_syntax::ast::ModuleImport = node.cast()?;
    Some(typed.source().to_untyped().clone())
}

/// Names what `ModuleImport::new_name` gives for a node.
pub uninterp spec fn module_import_new_name_of(node: SyntaxNode) -> Option<SyntaxNode>;

/// `typst_syntax::ast::ModuleImport::new_name`: the name that an import gives
/// the module, if it renames it, as an untyped node. `None` also where the node
/// is no `ModuleImport`.
#[verifier::external_body]
pub(crate) fn module_import_new_name(node: &SyntaxNode) -> (found: Option<SyntaxNode>)
    ensures
        found == module_import_new_name_of(*node),
{
    let typed: typst_syntax::ast::ModuleImport = node.cast()?;
    Some(typed.new_name()?.to_untyped().clone())
}

/// Names what `Markup::exprs` gives for a node.
pub uninterp spec fn markup_exprs_of(node: SyntaxNode) -> Option<Seq<SyntaxNode>>;

/// `typst_syntax::ast::Markup::exprs`: the expressions of markup, in source
/// order, as untyped nodes. `None` where the node is no `Markup`.
#[verifier::external_body]
pub(crate) fn markup_exprs(node: &SyntaxNode) -> (found: Option<Vec<SyntaxNode>>)
    ensures
        match found {
            Some(nodes) => markup_exprs_of(*node) == Some(nodes@),
            None => markup_exprs_of(*node) is None,
        },
{
    let typed: typst_syntax::ast::Markup = node.cast()?;
    Some(typed.exprs().map(|item| item.to_untyped().clone()).collect())
}

/// Names what `Array::items` gives for a node.
pub uninterp spec fn array_items_of(node: SyntaxNode) -> Option<Seq<SyntaxNode>>;

/// `typst_syntax::ast::Array::items`: the items of an array, in source order,
/// as untyped nodes. `None` where the node is no `Array`.
#[verifier::external_body]
pub(crate) fn array_items(node: &SyntaxNode) -> (found: Option<Vec<SyntaxNode>>)
    ensures
        match found {
            Some(nodes) => array_items_of(*node) == Some(nodes@),
            None => array_items_of(*node) is None,
        },
{
    let typed: typst_syntax::ast::Array = node.cast()?;
    Some(typed.items().map(|item| item.to_untyped().clone()).collect())
}

/// Names what `Dict::items` gives for a node.
pub uninterp spec fn dict_items_of(node: SyntaxNode) -> Option<Seq<SyntaxNode>>;

/// `typst_syntax::ast::Dict::items`: the items of a dictionary, in source
/// order, as untyped nodes. `None` where the node is no `Dict`.
#[verifier::external_body]
pub(crate) fn dict_items(node: &SyntaxNode) -> (found: Option<Vec<SyntaxNode>>)
    ensures
        match found {
            Some(nodes) => dict_items_of(*node) == Some(nodes@),
            None => dict_items_of(*node) is None,
        },
{
    let typed: typst_syntax::ast::Dict = node.cast()?;
    Some(typed.items().map(|item| item.to_untyped().clone()).collect())
}

/// Names what `Destructuring::items` gives for a node.
pub uninterp spec fn destructuring_items_of(node: SyntaxNode) -> Option<Seq<SyntaxNode>>;

/// `typst_syntax::ast::Destructuring::items`: the items of a destructuring
/// pattern, in source order, as untyped nodes. `None` where the node is no
/// `Destructuring`.
#[verifier::external_body]
pub(crate) fn destructuring_items(node: &SyntaxNode) -> (found: Option<Vec<SyntaxNode>>)
    ensures
        match found {
            Some(nodes) => destructuring_items_of(*node) == Some(nodes@),
            None => destructuring_items_of(*node) is None,
        },
{
    let typed: typst_syntax::ast::Destructuring = node.cast()?;
    Some(typed.items().map(|item| item.to_untyped().clone()).collect())
}

} // verus!
